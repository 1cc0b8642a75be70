use vstd::prelude::*;

verus! {

/// A view of a texture on the device, by the number under which the device's
/// owner keeps it.
#[derive(Clone, Copy, Debug, PartialEq, Eq, Structural)]
pub struct TextureView {
    pub id: u64,
}

/// An image as the device holds it: its view and its size in pixels.
#[derive(Clone, Copy, Debug, PartialEq, Eq, Structural)]
pub struct GpuImage {
    pub texture_view: TextureView,
    pub width: u32,
    pub height: u32,
}

/// What a buffer may be used for.
#[derive(Clone, Copy, Debug, PartialEq, Eq, Structural)]
pub struct BufferUsages {
    pub map_read: bool,
    pub map_write: bool,
    pub copy_src: bool,
    pub copy_dst: bool,
    pub uniform: bool,
    pub storage: bool,
}

/// A request to the device for a buffer.
#[derive(Clone, Copy, Debug, PartialEq, Eq)]
pub struct BufferDescriptor {
    pub label: Option<&'static str>,
    pub size: u64,
    pub usage: BufferUsages,
    pub mapped_at_creation: bool,
}

/// A buffer on the device, by the number under which the device's owner
/// keeps it, with the size it was created with.
#[derive(Clone, Copy, Debug, PartialEq, Eq, Structural)]
pub struct Buffer {
    pub id: u64,
    pub size: u64,
}

/// A request to the queue: put `data` into `buffer`, starting at `offset`.
#[derive(Clone, Debug, PartialEq, Eq)]
pub struct BufferWrite {
    pub buffer: Buffer,
    pub offset: u64,
    pub data: Vec<u8>,
}

/// How a kernel may touch a storage texture.
#[derive(Clone, Copy, Debug, PartialEq, Eq, Structural)]
pub enum StorageTextureAccess {
    WriteOnly,
    ReadOnly,
    ReadWrite,
}

/// The pixel formats that this crate names.
#[derive(Clone, Copy, Debug, PartialEq, Eq, Structural)]
pub enum TextureFormat {
    /// Four channels of eight bits, each read as a number from 0 to 1.
    Rgba8Unorm,
    /// The same channels, read as sRGB.
    Rgba8UnormSrgb,
    /// Four channels of 32-bit floats.
    Rgba32Float,
}

/// How many dimensions a texture has.
#[derive(Clone, Copy, Debug, PartialEq, Eq, Structural)]
pub enum TextureDimension {
    D1,
    D2,
    D3,
}

/// What a texture may be used for.
#[derive(Clone, Copy, Debug, PartialEq, Eq, Structural)]
pub struct TextureUsages {
    pub copy_src: bool,
    pub copy_dst: bool,
    pub texture_binding: bool,
    pub storage_binding: bool,
    pub render_attachment: bool,
}

/// A request for an image filled with one pixel.
#[derive(Clone, Copy, Debug, PartialEq, Eq)]
pub struct ImageDescriptor {
    pub width: u32,
    pub height: u32,
    pub depth_or_array_layers: u32,
    pub dimension: TextureDimension,
    pub pixel: [u8; 4],
    pub format: TextureFormat,
    pub usage: TextureUsages,
}

/// How many dimensions a view of a texture has.
#[derive(Clone, Copy, Debug, PartialEq, Eq, Structural)]
pub enum TextureViewDimension {
    D1,
    D2,
    D3,
}

/// The shader stages that can see a binding.
#[derive(Clone, Copy, Debug, PartialEq, Eq, Structural)]
pub struct ShaderStages {
    pub vertex: bool,
    pub fragment: bool,
    pub compute: bool,
}

/// What kind of resource a binding slot takes.
#[derive(Clone, Copy, Debug, PartialEq, Eq, Structural)]
pub enum BindingType {
    StorageTexture {
        access: StorageTextureAccess,
        format: TextureFormat,
        view_dimension: TextureViewDimension,
    },
    StorageBuffer { read_only: bool, has_dynamic_offset: bool, min_binding_size: u64 },
}

/// One slot of a bind group layout.
#[derive(Clone, Copy, Debug, PartialEq, Eq, Structural)]
pub struct BindGroupLayoutEntry {
    pub binding: u32,
    pub visibility: ShaderStages,
    pub ty: BindingType,
}

/// A bind group layout on the device, by the number under which the device's
/// owner keeps it.
#[derive(Clone, Copy, Debug, PartialEq, Eq, Structural)]
pub struct BindGroupLayout {
    pub id: u64,
}

/// The resource that fills one binding slot.
#[derive(Clone, Copy, Debug, PartialEq, Eq, Structural)]
pub enum BindingResource {
    TextureView(TextureView),
    /// `size` bytes of `buffer`, from `offset` on.
    Buffer { buffer: Buffer, offset: u64, size: u64 },
}

/// One filled slot of a bind group.
#[derive(Clone, Copy, Debug, PartialEq, Eq, Structural)]
pub struct BindGroupEntry {
    pub binding: u32,
    pub resource: BindingResource,
}

/// The resources that a kernel runs on, slot by slot, for one layout.
#[derive(Clone, Debug, PartialEq, Eq)]
pub struct BindGroup {
    pub layout: BindGroupLayout,
    pub entries: Vec<BindGroupEntry>,
}

/// A shader source that the asset loader holds, by the number under which
/// the loader's owner keeps it.
#[derive(Clone, Copy, Debug, PartialEq, Eq, Structural)]
pub struct Shader {
    pub id: u64,
}

/// A compute pipeline that was queued for compilation, by the number that the
/// pipeline cache gave it.
#[derive(Clone, Copy, Debug, PartialEq, Eq, Structural)]
pub struct CachedComputePipelineId {
    pub id: u64,
}

impl ShaderStages {
    /// Visible to compute shaders and to nothing else.
    pub open spec fn spec_compute() -> ShaderStages {
        ShaderStages { vertex: false, fragment: false, compute: true }
    }

    /// Gives the stages of a binding that only compute shaders see.
    #[verifier::when_used_as_spec(spec_compute)]
    pub fn compute() -> (stages: ShaderStages)
        ensures
            stages == Self::spec_compute(),
    {
        ShaderStages { vertex: false, fragment: false, compute: true }
    }
}

impl BufferWrite {
    /// What a buffer holds after this write, if it held `contents` before:
    /// `data` from `offset` on, and the old bytes everywhere else.
    pub open spec fn apply(self, contents: Seq<u8>) -> Seq<u8> {
        Seq::new(
            contents.len(),
            |k: int|
                if self.offset <= k < self.offset + self.data@.len() {
                    self.data@[k - self.offset]
                } else {
                    contents[k]
                },
        )
    }
}

} // verus!
