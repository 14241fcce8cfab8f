use gimslib::{App, FrameResources, GPULib, GpuError};
use gimslib::command_list::{CommandList, GpuCommand};
use gimslib::egui_renderer::{ClippedPrimitive, MeshPrimitive, OverlayVertex, TexturesDelta};
use gimslib::running_state::RunningState;
use gimslib::texture_manager::{ImageData, ImageDelta, TextureId};

struct EmptyApp;

impl App for EmptyApp {
    fn draw(
        &mut self,
        _command_list: &mut CommandList,
        _frame_resources: &FrameResources,
    ) -> Result<(), GpuError> {
        Ok(())
    }
}

struct ClearingApp;

impl App for ClearingApp {
    fn draw(
        &mut self,
        command_list: &mut CommandList,
        frame_resources: &FrameResources,
    ) -> Result<(), GpuError> {
        command_list.record(GpuCommand::ClearRenderTarget {
            handle: frame_resources.render_target_handle,
        });
        Ok(())
    }
}

struct ClosingApp;

impl App for ClosingApp {
    fn draw(
        &mut self,
        command_list: &mut CommandList,
        _frame_resources: &FrameResources,
    ) -> Result<(), GpuError> {
        // A callback that closes the recorder breaks its contract; the
        // orchestrator must catch this instead of submitting blindly.
        command_list.close()
    }
}

fn empty_delta() -> TexturesDelta {
    TexturesDelta { set: Vec::new(), free: Vec::new() }
}

#[test]
fn five_frames_present_five_times_with_cycling_back_buffers() {
    // Initialize the device context, create a presentation surface
    // with three buffers and a one-deep recording ring, and run five
    // frames with an empty user draw callback and no UI geometry.
    let lib = GPULib::new().unwrap();
    let mut state = RunningState::new(lib, EmptyApp, 800, 600, 1, 3).unwrap();

    let mut back_buffers = Vec::new();
    for _ in 0..5 {
        back_buffers.push(state.swapchain.current_back_buffer);
        state.draw(&[], empty_delta()).unwrap();
    }

    assert_eq!(state.swapchain.presents, 5);
    // The presentation ring is three deep, independent of the one-deep
    // recording ring.
    assert_eq!(back_buffers, vec![0, 1, 2, 0, 1]);
}

#[test]
fn recording_depth_and_presentation_depth_are_independent() {
    let lib = GPULib::new().unwrap();
    let mut state = RunningState::new(lib, EmptyApp, 320, 200, 2, 4).unwrap();
    for _ in 0..8 {
        state.draw(&[], empty_delta()).unwrap();
    }
    assert_eq!(state.swapchain.presents, 8);
    assert_eq!(state.swapchain.current_back_buffer, 0);
}

#[test]
fn surface_needs_at_least_two_buffers() {
    let lib = GPULib::new().unwrap();
    let r = RunningState::new(lib, EmptyApp, 640, 480, 1, 1);
    assert!(matches!(r, Err(GpuError::InvalidBufferCount)));
}

#[test]
fn user_draw_commands_are_recorded_into_the_frame() {
    let lib = GPULib::new().unwrap();
    let mut state = RunningState::new(lib, ClearingApp, 640, 480, 1, 2).unwrap();
    state.draw(&[], empty_delta()).unwrap();
    assert_eq!(state.swapchain.presents, 1);
}

#[test]
fn a_callback_that_closes_the_recorder_fails_the_frame() {
    let lib = GPULib::new().unwrap();
    let mut state = RunningState::new(lib, ClosingApp, 640, 480, 1, 3).unwrap();
    let r = state.draw(&[], empty_delta());
    assert!(matches!(r, Err(GpuError::RecorderNotRecording)));
    assert_eq!(state.swapchain.presents, 0);
}

#[test]
fn missing_texture_is_a_hazard_and_fails_the_frame() {
    let lib = GPULib::new().unwrap();
    let mut state = RunningState::new(lib, EmptyApp, 640, 480, 1, 3).unwrap();

    let primitives = vec![ClippedPrimitive::Mesh(MeshPrimitive {
        indices: vec![0, 1, 2],
        vertices: vec![
            OverlayVertex { x_bits: 0, y_bits: 0, u_bits: 0, v_bits: 0, color: 0 };
            3
        ],
        texture_id: TextureId::Managed(42),
    })];

    let r = state.draw(&primitives, empty_delta());
    assert!(matches!(r, Err(GpuError::TextureMissing)));
    // Nothing was presented for the failed frame.
    assert_eq!(state.swapchain.presents, 0);
}

#[test]
fn a_frame_can_be_driven_through_its_two_halves() {
    let lib = GPULib::new().unwrap();
    let mut state = RunningState::new(lib, EmptyApp, 640, 480, 1, 3).unwrap();

    // begin_frame opens the frame and hands out the resource bundle.
    let frame_resources = state.begin_frame(&[], empty_delta()).unwrap();
    assert_eq!(frame_resources.viewport.width, 640);
    assert_eq!(frame_resources.render_target_handle.index, 0);
    assert!(!frame_resources.render_target_handle.srgb);
    assert!(frame_resources.render_target_handle_srgb.srgb);

    // finish_frame with a successful callback result presents the frame.
    state.finish_frame(&frame_resources, Ok(())).unwrap();
    assert_eq!(state.swapchain.presents, 1);
    assert_eq!(state.swapchain.current_back_buffer, 1);
}

#[test]
fn finish_frame_propagates_the_callback_error_without_presenting() {
    let lib = GPULib::new().unwrap();
    let mut state = RunningState::new(lib, EmptyApp, 640, 480, 1, 3).unwrap();

    let frame_resources = state.begin_frame(&[], empty_delta()).unwrap();
    let r = state.finish_frame(&frame_resources, Err(GpuError::WaitFailed));
    assert!(matches!(r, Err(GpuError::WaitFailed)));
    assert_eq!(state.swapchain.presents, 0);
}

#[test]
fn begin_frame_reports_the_texture_hazard() {
    let lib = GPULib::new().unwrap();
    let mut state = RunningState::new(lib, EmptyApp, 640, 480, 1, 3).unwrap();

    let primitives = vec![ClippedPrimitive::Mesh(MeshPrimitive {
        indices: vec![0, 1, 2],
        vertices: vec![
            OverlayVertex { x_bits: 0, y_bits: 0, u_bits: 0, v_bits: 0, color: 0 };
            3
        ],
        texture_id: TextureId::Managed(7),
    })];
    let r = state.begin_frame(&primitives, empty_delta());
    assert!(matches!(r, Err(GpuError::TextureMissing)));
}

#[test]
fn frames_apply_texture_frees_one_frame_late() {
    let lib = GPULib::new().unwrap();
    let mut state = RunningState::new(lib, EmptyApp, 640, 480, 1, 3).unwrap();

    let upsert = (
        TextureId::Managed(1),
        ImageDelta {
            image: ImageData { width: 2, height: 2, bytes: vec![9; 16] },
            pos: None,
        },
    );
    let delta = TexturesDelta { set: vec![upsert], free: vec![TextureId::Managed(1)] };

    // The frame that records the free still leaves the texture cached:
    // the free is deferred to the next turn of the slot.
    state.draw(&[], delta).unwrap();
    assert!(state.egui_renderer.texture_manager.get_descriptor_heap(1).is_some());

    // The slot comes around again and applies the deferred free.
    state.draw(&[], empty_delta()).unwrap();
    assert!(state.egui_renderer.texture_manager.get_descriptor_heap(1).is_none());
}
