use rt_compute::resource::{Buffer, BufferWrite};
use rt_compute::sphere::{
    prepare_spheres, ExtractedSpheres, Sphere, Spheres, SpheresMeta, HEADER_WORDS, MAX_SPHERES,
    SNAPSHOT_BYTES, SNAPSHOT_WORDS, SPHERE_WORDS,
};

fn sphere(x: f32, y: f32, z: f32, radius: f32) -> Sphere {
    Sphere { center: [x.to_bits(), y.to_bits(), z.to_bits()], radius: radius.to_bits() }
}

fn zero() -> Sphere {
    Sphere { center: [0, 0, 0], radius: 0 }
}

fn scene(n: usize) -> Spheres {
    let mut spheres = Vec::new();
    for i in 0..n {
        let f = i as f32;
        spheres.push(sphere(f + 0.25, -f, f * 2.0, f + 1.0));
    }
    Spheres { spheres }
}

fn meta() -> SpheresMeta {
    SpheresMeta { buffer: Buffer { id: 3, size: 336 }, bind_group: None }
}

fn written(contents: &[u8], write: &BufferWrite) -> Vec<u8> {
    let mut after = contents.to_vec();
    let start = write.offset as usize;
    after[start..start + write.data.len()].copy_from_slice(&write.data);
    after
}

#[test]
fn zero_sphere_is_all_zero_floats() {
    assert_eq!(sphere(0.0, 0.0, 0.0, 0.0), zero());
}

#[test]
fn empty_scene_gives_empty_snapshot() {
    let snapshot = ExtractedSpheres::extract_resource(&scene(0));
    assert_eq!(snapshot.sphere_count, 0);
    assert_eq!(snapshot.spheres.len(), 20);
    for slot in snapshot.spheres.iter() {
        assert_eq!(*slot, zero());
    }
}

#[test]
fn small_scenes_are_copied_in_order_and_padded_with_zero() {
    for n in [1usize, 2, 3, 7, 19, 20] {
        let source = scene(n);
        let snapshot = ExtractedSpheres::extract_resource(&source);
        assert_eq!(snapshot.sphere_count as usize, n);
        for i in 0..n {
            assert_eq!(snapshot.spheres[i], source.spheres[i]);
        }
        for i in n..MAX_SPHERES {
            assert_eq!(snapshot.spheres[i], zero());
        }
    }
}

#[test]
fn large_scenes_lose_all_but_their_first_twenty() {
    for n in [21usize, 25, 100] {
        let source = scene(n);
        let snapshot = ExtractedSpheres::extract_resource(&source);
        assert_eq!(snapshot.sphere_count, 20);
        for i in 0..20 {
            assert_eq!(snapshot.spheres[i], source.spheres[i]);
        }
        for dropped in source.spheres[20..].iter() {
            assert!(!snapshot.spheres.contains(dropped));
        }
    }
}

#[test]
fn extraction_leaves_the_scene_alone() {
    let source = scene(5);
    let before = source.spheres.clone();
    let _ = ExtractedSpheres::extract_resource(&source);
    assert_eq!(source.spheres, before);
}

#[test]
fn layout_sizes() {
    assert_eq!(MAX_SPHERES, 20);
    assert_eq!(SPHERE_WORDS, 4);
    assert_eq!(HEADER_WORDS, 4);
    assert_eq!(SNAPSHOT_WORDS, 84);
    assert_eq!(SNAPSHOT_WORDS, HEADER_WORDS + SPHERE_WORDS * MAX_SPHERES);
    assert_eq!(SNAPSHOT_BYTES, 336);
    assert_eq!(SNAPSHOT_BYTES, 4 * SNAPSHOT_WORDS);
}

#[test]
fn words_are_header_then_slots() {
    let source = Spheres { spheres: vec![sphere(0.0, 0.0, -1.0, 0.5), sphere(1.0, 2.0, 3.0, 4.0)] };
    let snapshot = ExtractedSpheres::extract_resource(&source);
    let words = snapshot.to_words();
    assert_eq!(words.len(), 84);
    assert_eq!(
        words[..12].to_vec(),
        vec![
            2,
            0,
            0,
            0,
            0,
            0,
            0xbf80_0000,
            0x3f00_0000,
            0x3f80_0000,
            0x4000_0000,
            0x4040_0000,
            0x4080_0000
        ]
    );
    assert!(words[12..].iter().all(|w| *w == 0));
}

#[test]
fn bytes_are_words_least_significant_byte_first() {
    let mut spheres = [zero(); 20];
    spheres[0] = Sphere { center: [0x0403_0201, 0x0807_0605, 0x0c0b_0a09], radius: 0x100f_0e0d };
    spheres[19] = Sphere { center: [0, 0, 0], radius: 0xfffe_fdfc };
    let snapshot = ExtractedSpheres { sphere_count: 0xa4a3_a2a1, spheres };
    let bytes = snapshot.to_bytes();
    assert_eq!(bytes.len(), 336);
    assert_eq!(bytes[..4].to_vec(), vec![0xa1, 0xa2, 0xa3, 0xa4]);
    assert!(bytes[4..16].iter().all(|b| *b == 0));
    assert_eq!(bytes[16..32].to_vec(), (1u8..=16).collect::<Vec<u8>>());
    assert!(bytes[32..332].iter().all(|b| *b == 0));
    assert_eq!(bytes[332..].to_vec(), vec![0xfc, 0xfd, 0xfe, 0xff]);
}

#[test]
fn bytes_of_floats_follow_the_kernel_layout() {
    let source = Spheres { spheres: vec![sphere(0.0, 0.0, -1.0, 0.5)] };
    let snapshot = ExtractedSpheres::extract_resource(&source);
    let bytes = snapshot.to_bytes();
    let mut expected = Vec::new();
    expected.extend_from_slice(&1u32.to_le_bytes());
    expected.extend_from_slice(&[0u8; 12]);
    expected.extend_from_slice(&0.0f32.to_le_bytes());
    expected.extend_from_slice(&0.0f32.to_le_bytes());
    expected.extend_from_slice(&(-1.0f32).to_le_bytes());
    expected.extend_from_slice(&0.5f32.to_le_bytes());
    expected.resize(336, 0);
    assert_eq!(bytes, expected);
}

#[test]
fn upload_is_the_whole_snapshot_at_the_start() {
    let snapshot = ExtractedSpheres::extract_resource(&scene(3));
    let write = prepare_spheres(&snapshot, &meta());
    assert_eq!(write.buffer, Buffer { id: 3, size: 336 });
    assert_eq!(write.offset, 0);
    assert_eq!(write.data.len(), SNAPSHOT_BYTES);
    assert_eq!(write.data, snapshot.to_bytes());
}

#[test]
fn uploading_twice_leaves_the_same_bytes() {
    let snapshot = ExtractedSpheres::extract_resource(&scene(4));
    let first = prepare_spheres(&snapshot, &meta());
    let second = prepare_spheres(&snapshot, &meta());
    assert_eq!(first, second);
    let stale = vec![0xeeu8; 336];
    let once = written(&stale, &first);
    let twice = written(&once, &second);
    assert_eq!(once, snapshot.to_bytes());
    assert_eq!(twice, once);
}

#[test]
fn upload_replaces_a_larger_scene_in_full() {
    let big = ExtractedSpheres::extract_resource(&scene(20));
    let small = ExtractedSpheres::extract_resource(&scene(1));
    let contents = written(&vec![0u8; 336], &prepare_spheres(&big, &meta()));
    let contents = written(&contents, &prepare_spheres(&small, &meta()));
    assert_eq!(contents, small.to_bytes());
    assert!(contents[32..].iter().all(|b| *b == 0));
}

#[test]
fn every_slot_starts_on_a_multiple_of_sixteen() {
    let snapshot = ExtractedSpheres::extract_resource(&scene(20));
    let bytes = snapshot.to_bytes();
    for i in 0..20 {
        let start = 16 + 16 * i;
        let slot = snapshot.spheres[i];
        let mut expected = Vec::new();
        for word in [slot.center[0], slot.center[1], slot.center[2], slot.radius] {
            expected.extend_from_slice(&word.to_le_bytes());
        }
        assert_eq!(bytes[start..start + 16].to_vec(), expected);
    }
    assert_eq!(bytes[..4].to_vec(), 20u32.to_le_bytes().to_vec());
    assert_eq!(bytes[4..16].to_vec(), vec![0u8; 12]);
}

#[test]
fn upload_fills_the_buffer() {
    let snapshot = ExtractedSpheres::extract_resource(&scene(2));
    let write = prepare_spheres(&snapshot, &meta());
    assert_eq!(write.data.len() as u64, meta().buffer.size);
}
