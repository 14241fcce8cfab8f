use gimslib::GPULib;
use gimslib::texture_manager::{
    ImageData, ImageDelta, TextureId, TextureManager, aligned_row_pitch,
};

fn solid_image(width: u32, height: u32, value: u8) -> ImageData {
    ImageData { width, height, bytes: vec![value; (4 * width * height) as usize] }
}

fn upsert(id: u64, width: u32, height: u32) -> (TextureId, ImageDelta) {
    (TextureId::Managed(id), ImageDelta { image: solid_image(width, height, 0xAB), pos: None })
}

#[test]
fn row_pitch_is_rounded_up_to_the_alignment() {
    assert_eq!(aligned_row_pitch(0), 0);
    assert_eq!(aligned_row_pitch(1), 256);
    assert_eq!(aligned_row_pitch(63), 256);
    // 4 * 64 is exactly one alignment unit: no extra padding.
    assert_eq!(aligned_row_pitch(64), 256);
    assert_eq!(aligned_row_pitch(65), 512);
    assert_eq!(aligned_row_pitch(128), 512);
    assert_eq!(aligned_row_pitch(129), 768);
}

#[test]
fn fill_copies_rows_and_zero_pads_to_the_pitch() {
    let image = ImageData {
        width: 2,
        height: 3,
        bytes: (0u8..24).collect(),
    };
    let pitch = 16usize;
    let out = TextureManager::fill_buffer_aligned(&image, pitch);
    assert_eq!(out.len(), 3 * pitch);
    for row in 0..3usize {
        for col in 0..8usize {
            assert_eq!(out[row * pitch + col], (row * 8 + col) as u8);
        }
        for col in 8..pitch {
            assert_eq!(out[row * pitch + col], 0);
        }
    }
}

#[test]
fn fill_handles_an_empty_image() {
    let image = ImageData { width: 4, height: 0, bytes: Vec::new() };
    let out = TextureManager::fill_buffer_aligned(&image, 256);
    assert!(out.is_empty());
}

#[test]
fn set_creates_textures_on_first_reference() {
    let mut lib = GPULib::new().unwrap();
    let mut manager = TextureManager::new(&lib.device).unwrap();
    assert!(manager.get_descriptor_heap(1).is_none());

    manager
        .set(&lib.device, &mut lib.queue, &[upsert(1, 8, 8), upsert(2, 4, 2)])
        .unwrap();

    let heap = manager.get_descriptor_heap(1).expect("texture 1 must be cached");
    assert_eq!(heap.texture, 1);
    assert!(manager.get_descriptor_heap(2).is_some());
    assert!(manager.get_descriptor_heap(3).is_none());
}

#[test]
fn set_reuses_an_existing_texture() {
    let mut lib = GPULib::new().unwrap();
    let mut manager = TextureManager::new(&lib.device).unwrap();
    manager.set(&lib.device, &mut lib.queue, &[upsert(7, 16, 16)]).unwrap();

    // A partial update of the same id keeps the cached resource.
    let partial = (
        TextureId::Managed(7),
        ImageDelta { image: solid_image(4, 4, 0xFF), pos: Some((2, 2)) },
    );
    manager.set(&lib.device, &mut lib.queue, &[partial]).unwrap();
    assert!(manager.get_descriptor_heap(7).is_some());
}

#[test]
fn user_textures_are_silently_skipped() {
    let mut lib = GPULib::new().unwrap();
    let mut manager = TextureManager::new(&lib.device).unwrap();
    let delta = (
        TextureId::User(9),
        ImageDelta { image: solid_image(2, 2, 1), pos: None },
    );
    manager.set(&lib.device, &mut lib.queue, &[delta]).unwrap();
    assert!(manager.get_descriptor_heap(9).is_none());

    manager.free(&[TextureId::User(9)]);
}

#[test]
fn free_removes_only_the_named_managed_ids() {
    let mut lib = GPULib::new().unwrap();
    let mut manager = TextureManager::new(&lib.device).unwrap();
    manager
        .set(&lib.device, &mut lib.queue, &[upsert(1, 2, 2), upsert(2, 2, 2), upsert(3, 2, 2)])
        .unwrap();

    manager.free(&[TextureId::Managed(2), TextureId::Managed(5)]);
    assert!(manager.get_descriptor_heap(1).is_some());
    assert!(manager.get_descriptor_heap(2).is_none());
    assert!(manager.get_descriptor_heap(3).is_some());
}
