use crate::resource::{
    BindGroup, ImageDescriptor, TextureDimension, TextureFormat, TextureUsages,
};
use vstd::prelude::*;

verus! {

/// The image that the kernels draw into, by the number of its handle. The
/// handle may be replaced, for a resized image for one; what was built from
/// the old one is then stale.
#[derive(Clone, Copy, Debug, PartialEq, Eq, Structural)]
pub struct RtImage(pub u64);

/// The bind group that the frame's compute pass runs on.
#[derive(Clone, Debug, PartialEq, Eq)]
pub struct RtImageBindGroup(pub BindGroup);

impl RtImage {
    /// The use of the image: kernels write it as storage, it is sampled
    /// when it is shown, and it can be copied into.
    pub open spec fn image_usage() -> TextureUsages {
        TextureUsages {
            copy_src: false,
            copy_dst: true,
            texture_binding: true,
            storage_binding: true,
            render_attachment: false,
        }
    }

    /// The request for an image of `width` by `height` pixels that the
    /// kernels can draw into: one layer of four normalized 8-bit channels,
    /// opaque black all over.
    pub fn descriptor(width: u32, height: u32) -> (descriptor: ImageDescriptor)
        ensures
            descriptor.width == width,
            descriptor.height == height,
            descriptor.depth_or_array_layers == 1,
            descriptor.dimension == TextureDimension::D2,
            descriptor.pixel@ == seq![0u8, 0u8, 0u8, 255u8],
            descriptor.format == TextureFormat::Rgba8Unorm,
            descriptor.usage == Self::image_usage(),
    {
        let descriptor = ImageDescriptor {
            width,
            height,
            depth_or_array_layers: 1,
            dimension: TextureDimension::D2,
            pixel: [0, 0, 0, 255],
            format: TextureFormat::Rgba8Unorm,
            usage: TextureUsages {
                copy_src: false,
                copy_dst: true,
                texture_binding: true,
                storage_binding: true,
                render_attachment: false,
            },
        };
        assert(descriptor.pixel@ =~= seq![0u8, 0u8, 0u8, 255u8]);
        descriptor
    }
}

} // verus!
