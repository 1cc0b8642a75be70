use rt_compute::image::RtImage;
use rt_compute::node::PassCommand;
use rt_compute::pipeline::RtPipeline;
use rt_compute::plugin::{RenderWorld, RtPlugin};
use rt_compute::resource::{
    BindGroupLayout, BindingResource, Buffer, CachedComputePipelineId, GpuImage, TextureView,
};
use rt_compute::sphere::{Sphere, Spheres};
use rt_compute::state::{CompileStatus, Poll, RtState};
use std::collections::HashMap;

fn world() -> RenderWorld {
    let pipeline = RtPipeline::from_world(
        BindGroupLayout { id: 11 },
        CachedComputePipelineId { id: 21 },
        CachedComputePipelineId { id: 22 },
    );
    RtPlugin.build(pipeline, Buffer { id: 3, size: 336 })
}

fn images() -> HashMap<u64, GpuImage> {
    let mut images = HashMap::new();
    images.insert(40, GpuImage { texture_view: TextureView { id: 400 }, width: 800, height: 800 });
    images.insert(41, GpuImage { texture_view: TextureView { id: 410 }, width: 100, height: 50 });
    images
}

fn one_sphere() -> Spheres {
    Spheres {
        spheres: vec![Sphere {
            center: [0.0f32.to_bits(), 0.0f32.to_bits(), (-1.0f32).to_bits()],
            radius: 0.5f32.to_bits(),
        }],
    }
}

fn dispatch_count(commands: &[PassCommand]) -> usize {
    commands.iter().filter(|c| matches!(c, PassCommand::DispatchWorkgroups { .. })).count()
}

#[test]
fn one_sphere_scene_from_loading_to_update() {
    let mut world = world();
    let scene = one_sphere();
    let images = images();
    let image = RtImage(40);

    for _frame in 0..3 {
        let frame = world.frame(
            &scene,
            &image,
            &images,
            Poll { init: CompileStatus::Pending, update: CompileStatus::Pending },
        );
        assert_eq!(world.node.state, RtState::Loading);
        assert_eq!(dispatch_count(&frame.commands), 0);
        assert_eq!(frame.spheres.sphere_count, 1);
        assert_eq!(frame.spheres.spheres[0], scene.spheres[0]);
        for slot in frame.spheres.spheres[1..].iter() {
            assert_eq!(*slot, Sphere { center: [0, 0, 0], radius: 0 });
        }
        assert_eq!(frame.write.offset, 0);
        assert_eq!(frame.write.data, frame.spheres.to_bytes());
    }

    let ready = Poll { init: CompileStatus::Ready, update: CompileStatus::Ready };
    let frame = world.frame(&scene, &image, &images, ready);
    assert_eq!(world.node.state, RtState::Init);
    assert_eq!(
        frame.commands,
        vec![
            PassCommand::SetBindGroup { index: 0 },
            PassCommand::SetPipeline { pipeline: CachedComputePipelineId { id: 21 } },
            PassCommand::DispatchWorkgroups { x: 100, y: 100, z: 1 },
        ]
    );

    for _frame in 0..5 {
        let frame = world.frame(&scene, &image, &images, ready);
        assert_eq!(world.node.state, RtState::Update);
        assert_eq!(
            frame.commands,
            vec![
                PassCommand::SetBindGroup { index: 0 },
                PassCommand::SetPipeline { pipeline: CachedComputePipelineId { id: 22 } },
                PassCommand::DispatchWorkgroups { x: 100, y: 100, z: 1 },
            ]
        );
        assert_eq!(frame.spheres.sphere_count, 1);
        assert_eq!(frame.write.buffer, Buffer { id: 3, size: 336 });
        assert_eq!(frame.write.data.len(), 336);
    }
}

#[test]
fn frame_keeps_pipeline_and_buffer() {
    let mut world = world();
    let before = world.clone();
    let _ = world.frame(
        &one_sphere(),
        &RtImage(40),
        &images(),
        Poll { init: CompileStatus::Ready, update: CompileStatus::Pending },
    );
    assert_eq!(world.pipeline, before.pipeline);
    assert_eq!(world.spheres_meta.buffer, before.spheres_meta.buffer);
    assert!(world.spheres_meta.bind_group.is_none());
    assert_eq!(world.node.state, RtState::Init);
}

#[test]
fn frame_follows_a_replaced_image() {
    let mut world = world();
    world.node.state = RtState::Update;
    let poll = Poll { init: CompileStatus::Ready, update: CompileStatus::Ready };
    let first = world.frame(&one_sphere(), &RtImage(40), &images(), poll);
    let second = world.frame(&one_sphere(), &RtImage(41), &images(), poll);
    assert_eq!(
        first.bind_group.0.entries[0].resource,
        BindingResource::TextureView(TextureView { id: 400 })
    );
    assert_eq!(
        second.bind_group.0.entries[0].resource,
        BindingResource::TextureView(TextureView { id: 410 })
    );
    assert_eq!(second.bind_group.0.layout, BindGroupLayout { id: 11 });
    assert_eq!(second.commands[2], PassCommand::DispatchWorkgroups { x: 13, y: 7, z: 1 });
    assert_eq!(first.write, second.write);
}

#[test]
fn failed_init_kernel_never_dispatches() {
    let mut world = world();
    for _frame in 0..10 {
        let poll = Poll { init: CompileStatus::Failed, update: CompileStatus::Ready };
        assert!(world.node.state.is_stalled(poll));
        let frame = world.frame(&one_sphere(), &RtImage(40), &images(), poll);
        assert_eq!(world.node.state, RtState::Loading);
        assert_eq!(frame.commands, vec![PassCommand::SetBindGroup { index: 0 }]);
    }
}
