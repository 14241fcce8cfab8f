use gimslib::GPULib;
use gimslib::command_list::GpuCommand;
use gimslib::egui_renderer::{
    ClippedPrimitive, EguiRenderer, MeshPrimitive, OverlayVertex, TexturesDelta,
};
use gimslib::swapchain::{RenderTargetHandle, ScissorRect, Viewport};
use gimslib::texture_manager::{ImageData, ImageDelta, TextureId};
use gimslib::FrameResources;

fn vertex(seed: u32) -> OverlayVertex {
    OverlayVertex { x_bits: seed, y_bits: seed + 1, u_bits: seed + 2, v_bits: seed + 3, color: seed }
}

fn mesh(texture: TextureId, index_count: usize, vertex_count: usize) -> ClippedPrimitive {
    ClippedPrimitive::Mesh(MeshPrimitive {
        indices: (0..index_count as u32).collect(),
        vertices: (0..vertex_count as u32).map(vertex).collect(),
        texture_id: texture,
    })
}

fn delta_with(set: Vec<(TextureId, ImageDelta)>, free: Vec<TextureId>) -> TexturesDelta {
    TexturesDelta { set, free }
}

fn upsert(id: u64) -> (TextureId, ImageDelta) {
    (
        TextureId::Managed(id),
        ImageDelta {
            image: ImageData { width: 2, height: 2, bytes: vec![0x55; 16] },
            pos: None,
        },
    )
}

fn empty_delta() -> TexturesDelta {
    delta_with(Vec::new(), Vec::new())
}

fn frame_resources() -> FrameResources {
    FrameResources {
        render_target_handle: RenderTargetHandle { index: 0, srgb: false },
        render_target_handle_srgb: RenderTargetHandle { index: 0, srgb: true },
        viewport: Viewport { width: 640, height: 480 },
        scissor: ScissorRect { left: 0, top: 0, right: 640, bottom: 480 },
    }
}

#[test]
fn record_fills_one_slot_per_drawable_primitive() {
    let lib = GPULib::new().unwrap();
    let mut renderer = EguiRenderer::new(&lib.device).unwrap();

    let primitives = vec![
        mesh(TextureId::Managed(1), 6, 4),
        ClippedPrimitive::Callback,
        mesh(TextureId::User(3), 3, 3),
        mesh(TextureId::Managed(2), 9, 5),
    ];
    renderer.record(&lib.device, &primitives, empty_delta()).unwrap();

    // The callback and the user-texture mesh occupy no slot.
    assert_eq!(renderer.draw_count, 2);
    assert_eq!(renderer.meshes.len(), 2);
    assert_eq!(renderer.meshes[0].texture, 1);
    assert_eq!(renderer.meshes[0].index_buffer.len(), 6);
    assert_eq!(renderer.meshes[0].vertex_buffer.len(), 4);
    assert_eq!(renderer.meshes[1].texture, 2);
    assert_eq!(renderer.meshes[1].index_buffer.len(), 9);
}

#[test]
fn slots_are_recycled_and_buffers_never_shrink() {
    let lib = GPULib::new().unwrap();
    let mut renderer = EguiRenderer::new(&lib.device).unwrap();

    renderer
        .record(&lib.device, &[mesh(TextureId::Managed(1), 12, 8)], empty_delta())
        .unwrap();
    let grown_capacity = renderer.meshes[0].index_buffer.max_size;
    assert_eq!(grown_capacity, 12);

    // A smaller frame keeps the allocation; a stale second slot would
    // keep its buffers too.
    renderer
        .record(&lib.device, &[mesh(TextureId::Managed(1), 3, 3)], empty_delta())
        .unwrap();
    assert_eq!(renderer.draw_count, 1);
    assert_eq!(renderer.meshes[0].index_buffer.len(), 3);
    assert_eq!(renderer.meshes[0].index_buffer.max_size, 12);
}

#[test]
fn stale_slots_beyond_draw_count_are_kept_but_unused() {
    let lib = GPULib::new().unwrap();
    let mut renderer = EguiRenderer::new(&lib.device).unwrap();

    let two = vec![mesh(TextureId::Managed(1), 3, 3), mesh(TextureId::Managed(2), 6, 4)];
    renderer.record(&lib.device, &two, empty_delta()).unwrap();
    assert_eq!(renderer.draw_count, 2);

    renderer
        .record(&lib.device, &[mesh(TextureId::Managed(1), 3, 3)], empty_delta())
        .unwrap();
    assert_eq!(renderer.draw_count, 1);
    assert_eq!(renderer.meshes.len(), 2);
    assert_eq!(renderer.meshes[1].texture, 2);
}

#[test]
fn deferred_free_list_equals_the_recorded_delta_free_set() {
    let mut lib = GPULib::new().unwrap();
    let mut renderer = EguiRenderer::new(&lib.device).unwrap();

    let delta = delta_with(
        vec![upsert(1)],
        vec![TextureId::Managed(4), TextureId::User(5)],
    );
    renderer.record(&lib.device, &[], delta).unwrap();
    let deferred = renderer
        .apply_texture_delta(&lib.device, &mut lib.queue, &[])
        .unwrap();
    assert_eq!(deferred, vec![TextureId::Managed(4), TextureId::User(5)]);
    // The pending free list has been handed over.
    assert!(renderer.textures_delta.free.is_empty());
}

#[test]
fn frees_are_applied_before_upserts() {
    let mut lib = GPULib::new().unwrap();
    let mut renderer = EguiRenderer::new(&lib.device).unwrap();

    // Frame one caches texture 1.
    renderer
        .record(&lib.device, &[], delta_with(vec![upsert(1)], Vec::new()))
        .unwrap();
    renderer.apply_texture_delta(&lib.device, &mut lib.queue, &[]).unwrap();
    assert!(renderer.texture_manager.get_descriptor_heap(1).is_some());

    // Frame two re-upserts the same id while its free is applied: the
    // free runs first, so the id is safely recreated, not lost.
    renderer
        .record(&lib.device, &[], delta_with(vec![upsert(1)], Vec::new()))
        .unwrap();
    renderer
        .apply_texture_delta(&lib.device, &mut lib.queue, &[TextureId::Managed(1)])
        .unwrap();
    assert!(renderer.texture_manager.get_descriptor_heap(1).is_some());

    // A freed id that is not re-upserted disappears.
    renderer.record(&lib.device, &[], empty_delta()).unwrap();
    renderer
        .apply_texture_delta(&lib.device, &mut lib.queue, &[TextureId::Managed(1)])
        .unwrap();
    assert!(renderer.texture_manager.get_descriptor_heap(1).is_none());
}

#[test]
fn textures_available_reports_missing_references() {
    let mut lib = GPULib::new().unwrap();
    let mut renderer = EguiRenderer::new(&lib.device).unwrap();

    renderer
        .record(&lib.device, &[mesh(TextureId::Managed(1), 3, 3)], empty_delta())
        .unwrap();
    renderer.apply_texture_delta(&lib.device, &mut lib.queue, &[]).unwrap();
    assert!(!renderer.textures_available());

    renderer
        .record(
            &lib.device,
            &[mesh(TextureId::Managed(1), 3, 3)],
            delta_with(vec![upsert(1)], Vec::new()),
        )
        .unwrap();
    renderer.apply_texture_delta(&lib.device, &mut lib.queue, &[]).unwrap();
    assert!(renderer.textures_available());
}

#[test]
fn draw_records_setup_then_five_commands_per_live_mesh() {
    let mut lib = GPULib::new().unwrap();
    let mut renderer = EguiRenderer::new(&lib.device).unwrap();

    let primitives = vec![mesh(TextureId::Managed(1), 6, 4), mesh(TextureId::Managed(2), 3, 3)];
    renderer
        .record(&lib.device, &primitives, delta_with(vec![upsert(1), upsert(2)], Vec::new()))
        .unwrap();
    renderer.apply_texture_delta(&lib.device, &mut lib.queue, &[]).unwrap();
    assert!(renderer.textures_available());

    let mut list = lib.device.create_command_list();
    let mut allocator = lib.device.create_command_allocator();
    list.reset(&mut allocator).unwrap();

    renderer.draw(&mut list, &frame_resources());
    assert_eq!(list.commands.len(), 7 + 5 * 2);
    assert!(matches!(list.commands[0], GpuCommand::SetRenderTargets { .. }));
    assert!(matches!(
        list.commands[6],
        GpuCommand::SetPixelSpaceTransform { width: 640, height: 480 }
    ));
    assert!(matches!(list.commands[7], GpuCommand::BindTextureHeap { texture: 1 }));
    assert!(matches!(list.commands[8], GpuCommand::BindTextureTable { texture: 1 }));
    assert!(matches!(list.commands[11], GpuCommand::DrawIndexed { index_count: 6 }));
    assert!(matches!(list.commands[12], GpuCommand::BindTextureHeap { texture: 2 }));
    assert!(matches!(list.commands[16], GpuCommand::DrawIndexed { index_count: 3 }));
}

#[test]
fn overlay_configuration_matches_the_pipeline_layout() {
    let lib = GPULib::new().unwrap();
    let renderer = EguiRenderer::new(&lib.device).unwrap();
    assert_eq!(renderer.root_signature.num_root_constants, 4);
    assert_eq!(renderer.root_signature.num_descriptor_tables, 1);
    assert_eq!(renderer.root_signature.num_static_samplers, 1);
    assert_eq!(renderer.pipeline.num_input_elements, 3);
    assert_eq!(renderer.pipeline.num_render_targets, 1);
}
