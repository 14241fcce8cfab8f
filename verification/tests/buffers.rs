use gimslib::GPULib;
use gimslib::vector_constant_buffer::{BufferLocation, IndexFormat, VectorConstantBuffer};

#[test]
fn reported_length_equals_uploaded_length() {
    let lib = GPULib::new().unwrap();
    let mut buffer: VectorConstantBuffer<u32> =
        VectorConstantBuffer::new(&lib.device, 8, BufferLocation::Cpu, None).unwrap();
    assert_eq!(buffer.len(), 0);
    assert!(buffer.is_empty());

    buffer.upload(&lib.device, &[1, 2, 3]).unwrap();
    assert_eq!(buffer.len(), 3);
    assert!(!buffer.is_empty());

    buffer.upload(&lib.device, &[4, 5]).unwrap();
    assert_eq!(buffer.len(), 2);
}

#[test]
fn capacity_is_monotonically_non_decreasing() {
    let lib = GPULib::new().unwrap();
    let mut buffer: VectorConstantBuffer<u32> =
        VectorConstantBuffer::new(&lib.device, 2, BufferLocation::GpuUpload, None).unwrap();
    let mut last_capacity = buffer.max_size;
    for len in [0usize, 5, 3, 8, 1, 8, 9, 0] {
        let data: Vec<u32> = (0..len as u32).collect();
        buffer.upload(&lib.device, &data).unwrap();
        assert!(buffer.max_size >= last_capacity);
        assert!(buffer.max_size >= buffer.len());
        last_capacity = buffer.max_size;
    }
}

#[test]
fn upload_replaces_previous_content_completely() {
    let lib = GPULib::new().unwrap();
    let mut buffer: VectorConstantBuffer<u32> =
        VectorConstantBuffer::new(&lib.device, 4, BufferLocation::Cpu, None).unwrap();
    buffer.upload(&lib.device, &[11, 22, 33, 44]).unwrap();
    // Growing past the capacity discards the old resource; the old
    // content must be invisible after the replacement.
    buffer.upload(&lib.device, &[7, 8, 9, 10, 11]).unwrap();
    assert_eq!(buffer.contents, vec![7, 8, 9, 10, 11]);
    // A shorter write reuses the allocation but still fully replaces
    // the visible content.
    buffer.upload(&lib.device, &[1]).unwrap();
    assert_eq!(buffer.contents, vec![1]);
}

#[test]
fn any_length_up_to_capacity_needs_no_new_allocation() {
    let lib = GPULib::new().unwrap();
    let capacity = 6usize;
    for len in 0..=capacity {
        let mut buffer: VectorConstantBuffer<u32> =
            VectorConstantBuffer::new(&lib.device, capacity, BufferLocation::Cpu, None).unwrap();
        let data: Vec<u32> = (0..len as u32).collect();
        let discarded = buffer.upload_deferred_delete(&lib.device, &data).unwrap();
        assert!(discarded.is_none());
        assert_eq!(buffer.len(), len);
        assert_eq!(buffer.max_size, capacity);
    }
}

#[test]
fn exact_fit_upload_does_not_reallocate() {
    let lib = GPULib::new().unwrap();
    let k = 5usize;
    let mut buffer: VectorConstantBuffer<u32> =
        VectorConstantBuffer::new(&lib.device, k, BufferLocation::GpuUpload, None).unwrap();
    let data: Vec<u32> = (0..k as u32).collect();
    let discarded = buffer.upload_deferred_delete(&lib.device, &data).unwrap();
    assert!(discarded.is_none());
    assert_eq!(buffer.max_size, k);
}

#[test]
fn one_element_past_capacity_forces_exactly_one_reallocation() {
    let lib = GPULib::new().unwrap();
    let k = 5usize;
    let mut buffer: VectorConstantBuffer<u32> =
        VectorConstantBuffer::new(&lib.device, k, BufferLocation::GpuUpload, None).unwrap();
    let data: Vec<u32> = (0..(k + 1) as u32).collect();
    let discarded = buffer.upload_deferred_delete(&lib.device, &data).unwrap();
    // Exactly one reallocation: the discarded old resource comes back,
    // and the new capacity is an exact fit.
    let old = discarded.expect("growing must discard the old resource");
    assert_eq!(old.size_bytes, (k * 4) as u64);
    assert_eq!(buffer.max_size, k + 1);
    assert_eq!(buffer.resource.size_bytes, ((k + 1) * 4) as u64);

    // Uploading the same length again reuses the grown allocation.
    let again = buffer.upload_deferred_delete(&lib.device, &data).unwrap();
    assert!(again.is_none());
}

#[test]
fn views_span_current_length_with_element_stride() {
    let lib = GPULib::new().unwrap();
    let mut buffer: VectorConstantBuffer<u32> =
        VectorConstantBuffer::new(&lib.device, 4, BufferLocation::Cpu, None).unwrap();
    buffer.upload(&lib.device, &[1, 2, 3]).unwrap();

    let vertex_view = buffer.vertex_buffer_view();
    assert_eq!(vertex_view.element_count, 3);
    assert_eq!(vertex_view.element_size, 4);

    let index_view = buffer.index_buffer_view(IndexFormat::U32);
    assert_eq!(index_view.element_count, 3);
    assert_eq!(index_view.format, IndexFormat::U32);
}

#[test]
fn a_reservation_too_large_for_the_address_space_is_rejected() {
    let lib = GPULib::new().unwrap();
    let r: Result<VectorConstantBuffer<u64>, _> =
        VectorConstantBuffer::new(&lib.device, usize::MAX, BufferLocation::Cpu, None);
    assert!(matches!(r, Err(gimslib::GpuError::ResourceTooLarge)));

    let mut buffer: VectorConstantBuffer<u64> =
        VectorConstantBuffer::new(&lib.device, 1, BufferLocation::Cpu, None).unwrap();
    buffer.upload(&lib.device, &[1]).unwrap();
    assert_eq!(buffer.contents, vec![1]);
}

#[test]
fn initial_reservation_does_not_affect_length() {
    let lib = GPULib::new().unwrap();
    let buffer: VectorConstantBuffer<u64> =
        VectorConstantBuffer::new(&lib.device, 128, BufferLocation::Cpu, Some("staging".to_string()))
            .unwrap();
    assert_eq!(buffer.len(), 0);
    assert_eq!(buffer.max_size, 128);
    assert_eq!(buffer.resource.size_bytes, 128 * 8);
}
