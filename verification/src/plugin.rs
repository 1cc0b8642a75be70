use crate::image::{RtImage, RtImageBindGroup};
use crate::node::{pass_commands, PassCommand, RtNode};
use crate::pipeline::RtPipeline;
use crate::queue_bind_group;
use crate::resource::{Buffer, BufferDescriptor, BufferUsages, BufferWrite, GpuImage};
use crate::sphere::{prepare_spheres, ExtractedSpheres, Spheres, SpheresMeta, SNAPSHOT_BYTES};
use crate::state::{Poll, RtState};
use crate::bind_group_entries;
use std::collections::HashMap;
use vstd::prelude::*;

verus! {

/// Sets the compute pass up and runs its frames.
#[derive(Clone, Copy, Debug)]
pub struct RtPlugin;

/// What the render side owns from one frame to the next.
#[derive(Clone, Debug)]
pub struct RenderWorld {
    pub pipeline: RtPipeline,
    pub spheres_meta: SpheresMeta,
    pub node: RtNode,
}

/// What one frame hands to the device, in the order in which it is handed
/// over: the upload, then the pass on the bind group.
#[derive(Clone, Debug)]
pub struct Frame {
    pub spheres: ExtractedSpheres,
    pub write: BufferWrite,
    pub bind_group: RtImageBindGroup,
    pub commands: Vec<PassCommand>,
}

impl RtPlugin {
    /// The use of the scene's buffer: kernels read it as storage, and the
    /// queue copies into it.
    pub open spec fn scene_buffer_usage() -> BufferUsages {
        BufferUsages {
            map_read: false,
            map_write: false,
            copy_src: false,
            copy_dst: true,
            uniform: false,
            storage: true,
        }
    }

    /// The request for the scene's buffer: one snapshot long.
    pub fn buffer_descriptor() -> (descriptor: BufferDescriptor)
        ensures
            descriptor.label matches Some(label) && label@ == "spheres"@,
            descriptor.size == SNAPSHOT_BYTES,
            descriptor.usage == Self::scene_buffer_usage(),
            !descriptor.mapped_at_creation,
    {
        BufferDescriptor {
            label: Some("spheres"),
            size: SNAPSHOT_BYTES as u64,
            usage: BufferUsages {
                map_read: false,
                map_write: false,
                copy_src: false,
                copy_dst: true,
                uniform: false,
                storage: true,
            },
            mapped_at_creation: false,
        }
    }

    /// The render side before its first frame: the pipeline and the scene's
    /// buffer as they were created, no bind group for the scene, and a pass
    /// that waits for its kernels.
    ///
    /// The buffer must be the one that `buffer_descriptor` asks for: one
    /// snapshot long.
    pub fn build(&self, pipeline: RtPipeline, buffer: Buffer) -> (world: RenderWorld)
        requires
            buffer.size == SNAPSHOT_BYTES,
        ensures
            world.wf(),
            world.pipeline == pipeline,
            world.spheres_meta.buffer == buffer,
            world.spheres_meta.bind_group is None,
            world.node.state == RtState::Loading,
    {
        RenderWorld {
            pipeline,
            spheres_meta: SpheresMeta { buffer, bind_group: None },
            node: RtNode::default(),
        }
    }
}

impl RenderWorld {
    /// The render side's invariant: the scene's buffer is one snapshot long.
    pub open spec fn wf(self) -> bool {
        self.spheres_meta.wf()
    }

    /// One frame: the scene is extracted, the snapshot's upload is prepared,
    /// the bind group is built from the image that `rt_image` names now, the
    /// kernels are polled, and the pass is recorded for the state after the
    /// poll. Only the state changes from frame to frame.
    ///
    /// The device must hold the image: a handle that it does not know is an
    /// error in the program that made the call. The render side must be as
    /// `build` left it or as a frame left it.
    pub fn frame(
        &mut self,
        scene: &Spheres,
        rt_image: &RtImage,
        gpu_images: &HashMap<u64, GpuImage>,
        poll: Poll,
    ) -> (frame: Frame)
        requires
            old(self).wf(),
            gpu_images@.contains_key(rt_image.0),
        ensures
            final(self).wf(),
            final(self).pipeline == old(self).pipeline,
            final(self).spheres_meta == old(self).spheres_meta,
            final(self).node.state == old(self).node.state.next(poll),
            frame.spheres.is_snapshot_of(*scene),
            frame.spheres.wf(),
            frame.write.buffer == old(self).spheres_meta.buffer,
            frame.write.offset == 0,
            frame.write.data@ == frame.spheres.bytes(),
            frame.write.data@.len() == old(self).spheres_meta.buffer.size,
            frame.bind_group.0.layout == old(self).pipeline.texture_bind_group_layout,
            frame.bind_group.0.entries@ == bind_group_entries(
                gpu_images@[rt_image.0].texture_view,
                old(self).spheres_meta.buffer,
            ),
            frame.commands@ == pass_commands(
                final(self).node.state,
                old(self).pipeline,
                gpu_images@[rt_image.0].width,
                gpu_images@[rt_image.0].height,
            ),
    {
        broadcast use vstd::std_specs::hash::group_hash_axioms;

        let spheres = ExtractedSpheres::extract_resource(scene);
        let write = prepare_spheres(&spheres, &self.spheres_meta);
        let bind_group = queue_bind_group(&self.pipeline, gpu_images, rt_image, &self.spheres_meta);
        self.node.update(poll);
        let image = gpu_images.get(&rt_image.0).unwrap();
        let commands = self.node.run(&self.pipeline, image.width, image.height);
        Frame { spheres, write, bind_group, commands }
    }
}

} // verus!
