use crate::resource::{
    BindGroupLayout, BindGroupLayoutEntry, BindingType, CachedComputePipelineId, Shader,
    ShaderStages, StorageTextureAccess, TextureFormat, TextureViewDimension,
};
use crate::sphere::SNAPSHOT_BYTES;
use crate::state::Kernel;
use vstd::prelude::*;

verus! {

/// A request to the pipeline cache: compile the entry point `entry_point` of
/// `shader` for bind groups of the layout `layout`.
#[derive(Clone, Copy, Debug, PartialEq, Eq)]
pub struct ComputePipelineDescriptor {
    pub layout: BindGroupLayout,
    pub shader: Shader,
    pub entry_point: &'static str,
}

/// What the compute pass was set up with: the layout of its bind group and
/// the two kernels as the pipeline cache knows them.
#[derive(Clone, Copy, Debug, PartialEq, Eq, Structural)]
pub struct RtPipeline {
    pub texture_bind_group_layout: BindGroupLayout,
    pub init_pipeline: CachedComputePipelineId,
    pub update_pipeline: CachedComputePipelineId,
}

impl RtPipeline {
    /// Slot 0 of the layout: the image, as a two-dimensional storage texture
    /// of four normalized 8-bit channels that compute shaders write and do
    /// not read.
    pub open spec fn image_slot() -> BindGroupLayoutEntry {
        BindGroupLayoutEntry {
            binding: 0,
            visibility: ShaderStages::spec_compute(),
            ty: BindingType::StorageTexture {
                access: StorageTextureAccess::WriteOnly,
                format: TextureFormat::Rgba8Unorm,
                view_dimension: TextureViewDimension::D2,
            },
        }
    }

    /// Slot 1 of the layout: the scene, as a storage buffer of at least one
    /// snapshot that compute shaders read and do not write.
    pub open spec fn scene_slot() -> BindGroupLayoutEntry {
        BindGroupLayoutEntry {
            binding: 1,
            visibility: ShaderStages::spec_compute(),
            ty: BindingType::StorageBuffer {
                read_only: true,
                has_dynamic_offset: false,
                min_binding_size: SNAPSHOT_BYTES as u64,
            },
        }
    }

    /// The layout that the kernels declare, slot by slot.
    pub fn layout_entries() -> (entries: Vec<BindGroupLayoutEntry>)
        ensures
            entries@ == seq![Self::image_slot(), Self::scene_slot()],
    {
        let mut entries: Vec<BindGroupLayoutEntry> = Vec::with_capacity(2);
        entries.push(
            BindGroupLayoutEntry {
                binding: 0,
                visibility: ShaderStages::compute(),
                ty: BindingType::StorageTexture {
                    access: StorageTextureAccess::WriteOnly,
                    format: TextureFormat::Rgba8Unorm,
                    view_dimension: TextureViewDimension::D2,
                },
            },
        );
        entries.push(
            BindGroupLayoutEntry {
                binding: 1,
                visibility: ShaderStages::compute(),
                ty: BindingType::StorageBuffer {
                    read_only: true,
                    has_dynamic_offset: false,
                    min_binding_size: SNAPSHOT_BYTES as u64,
                },
            },
        );
        assert(entries@ =~= seq![Self::image_slot(), Self::scene_slot()]);
        entries
    }

    /// Where the asset loader finds the shader source.
    pub fn shader_path() -> (path: &'static str)
        ensures
            path@ == "shaders/rt.wgsl"@,
    {
        "shaders/rt.wgsl"
    }

    /// The request that queues `kernel` for compilation.
    pub fn kernel_descriptor(kernel: Kernel, layout: BindGroupLayout, shader: Shader) -> (descriptor:
        ComputePipelineDescriptor)
        ensures
            descriptor.layout == layout,
            descriptor.shader == shader,
            descriptor.entry_point@ == kernel.entry_point_name(),
    {
        ComputePipelineDescriptor { layout, shader, entry_point: kernel.entry_point() }
    }

    /// Keeps what the device and the pipeline cache gave for the layout and
    /// for the two kernels.
    pub fn from_world(
        texture_bind_group_layout: BindGroupLayout,
        init_pipeline: CachedComputePipelineId,
        update_pipeline: CachedComputePipelineId,
    ) -> (pipeline: RtPipeline)
        ensures
            pipeline.texture_bind_group_layout == texture_bind_group_layout,
            pipeline.init_pipeline == init_pipeline,
            pipeline.update_pipeline == update_pipeline,
    {
        RtPipeline { texture_bind_group_layout, init_pipeline, update_pipeline }
    }

    /// The pipeline of a kernel.
    pub open spec fn spec_pipeline(&self, kernel: Kernel) -> CachedComputePipelineId {
        match kernel {
            Kernel::Init => self.init_pipeline,
            Kernel::Update => self.update_pipeline,
        }
    }

    /// Picks the pipeline of `kernel`.
    #[verifier::when_used_as_spec(spec_pipeline)]
    pub fn pipeline(&self, kernel: Kernel) -> (id: CachedComputePipelineId)
        ensures
            id == self.spec_pipeline(kernel),
    {
        match kernel {
            Kernel::Init => self.init_pipeline,
            Kernel::Update => self.update_pipeline,
        }
    }
}

} // verus!
