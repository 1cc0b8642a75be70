//! The render side of a compute raytracer, frame by frame: the scene is cut
//! to a snapshot of twenty spheres and laid out in bytes for the device, the
//! image and the scene's buffer are bound for the kernels, the compilation of
//! the two kernels is followed from `Loading` over `Init` to `Update`, and
//! the frame's compute pass is put together for the state reached.
//!
//! Nothing here touches a device. What is to be created, written or run is
//! handed out as plain values; images, buffers, layouts and pipelines come in
//! by the numbers under which their owner keeps them.

use crate::image::{RtImage, RtImageBindGroup};
use crate::pipeline::RtPipeline;
use crate::resource::{BindGroup, BindGroupEntry, BindingResource, Buffer, GpuImage, TextureView};
use crate::sphere::{SpheresMeta, SNAPSHOT_BYTES};
use std::collections::HashMap;
use vstd::prelude::*;

pub mod image;
pub mod node;
pub mod pipeline;
pub mod plugin;
pub mod resource;
pub mod sphere;
pub mod state;

verus! {

/// The side of a workgroup in pixels: the kernels declare workgroups of
/// 8 by 8 by 1.
pub const WORKGROUP_SIZE: u32 = 8;

/// The slots of the bind group over a view of the image and the scene's
/// buffer: the view in slot 0, and in slot 1 the start of the buffer, one
/// snapshot long.
pub open spec fn bind_group_entries(view: TextureView, buffer: Buffer) -> Seq<BindGroupEntry> {
    seq![
        BindGroupEntry { binding: 0, resource: BindingResource::TextureView(view) },
        BindGroupEntry {
            binding: 1,
            resource: BindingResource::Buffer { buffer, offset: 0, size: SNAPSHOT_BYTES as u64 },
        },
    ]
}

/// Builds the frame's bind group from the image that `rt_image` names now
/// and from the scene's buffer.
///
/// The device must hold the image, and the scene's buffer must be one
/// snapshot long: a handle that the device does not know, or a buffer that
/// does not fit the layout, is an error in the program that made the call.
pub fn queue_bind_group(
    pipeline: &RtPipeline,
    gpu_images: &HashMap<u64, GpuImage>,
    rt_image: &RtImage,
    spheres_meta: &SpheresMeta,
) -> (bind_group: RtImageBindGroup)
    requires
        gpu_images@.contains_key(rt_image.0),
        spheres_meta.wf(),
    ensures
        bind_group.0.layout == pipeline.texture_bind_group_layout,
        bind_group.0.entries@ == bind_group_entries(
            gpu_images@[rt_image.0].texture_view,
            spheres_meta.buffer,
        ),
{
    broadcast use vstd::std_specs::hash::group_hash_axioms;

    let view = gpu_images.get(&rt_image.0).unwrap().texture_view;
    let mut entries: Vec<BindGroupEntry> = Vec::with_capacity(2);
    entries.push(BindGroupEntry { binding: 0, resource: BindingResource::TextureView(view) });
    entries.push(
        BindGroupEntry {
            binding: 1,
            resource: BindingResource::Buffer {
                buffer: spheres_meta.buffer,
                offset: 0,
                size: SNAPSHOT_BYTES as u64,
            },
        },
    );
    assert(entries@ =~= bind_group_entries(view, spheres_meta.buffer));
    RtImageBindGroup(BindGroup { layout: pipeline.texture_bind_group_layout, entries })
}

/// A bind group that is built again after the image's handle was replaced
/// holds the new image's view in slot 0 and the scene's buffer in slot 1,
/// and the old image's view in no slot.
pub proof fn lemma_rebuilt_bind_group_drops_old_view(
    gpu_images: Map<u64, GpuImage>,
    old_image: RtImage,
    new_image: RtImage,
    buffer: Buffer,
)
    requires
        gpu_images.contains_key(old_image.0),
        gpu_images.contains_key(new_image.0),
        gpu_images[old_image.0].texture_view != gpu_images[new_image.0].texture_view,
    ensures
        ({
            let entries = bind_group_entries(gpu_images[new_image.0].texture_view, buffer);
            &&& entries.len() == 2
            &&& entries[0].resource == BindingResource::TextureView(
                gpu_images[new_image.0].texture_view,
            )
            &&& forall|i: int|
                0 <= i < entries.len() ==> (#[trigger] entries[i]).resource
                    != BindingResource::TextureView(gpu_images[old_image.0].texture_view)
        }),
{
}

} // verus!
