use gimslib::{AppConfig, GPULib, GpuError, WindowSize};
use gimslib::command_list::GpuCommand;
use gimslib::event::Event;
use gimslib::gpulib::{
    select_adapter, severity_is_reported, severity_label, ADAPTER_FLAG_SOFTWARE,
};
use gimslib::resource::{transition, ResourceState};
use gimslib::swapchain::Swapchain;

#[test]
fn adapter_selection_skips_software_rasterizers() {
    assert_eq!(select_adapter(&vec![ADAPTER_FLAG_SOFTWARE, 0, 0]), Some(1));
    assert_eq!(select_adapter(&vec![0]), Some(0));
    assert_eq!(select_adapter(&vec![ADAPTER_FLAG_SOFTWARE, ADAPTER_FLAG_SOFTWARE]), None);
    assert_eq!(select_adapter(&vec![]), None);
}

#[test]
fn only_warnings_and_worse_are_reported() {
    assert!(severity_is_reported(0));
    assert!(severity_is_reported(1));
    assert!(severity_is_reported(2));
    assert!(!severity_is_reported(3));
    assert!(!severity_is_reported(4));
}

#[test]
fn severity_labels_match_their_codes() {
    assert_eq!(severity_label(0), "Corruption");
    assert_eq!(severity_label(1), "Error");
    assert_eq!(severity_label(2), "Warning");
    assert_eq!(severity_label(3), "Info");
    assert_eq!(severity_label(4), "Message");
    assert_eq!(severity_label(99), "Unknown");
}

#[test]
fn transitions_are_validated_against_the_tracked_state() {
    let mut state = ResourceState::Present;
    let barrier = transition(&mut state, ResourceState::Present, ResourceState::RenderTarget)
        .unwrap();
    assert_eq!(barrier.before, ResourceState::Present);
    assert_eq!(barrier.after, ResourceState::RenderTarget);
    assert_eq!(state, ResourceState::RenderTarget);

    // A mismatched transition is caught and changes nothing.
    let r = transition(&mut state, ResourceState::Present, ResourceState::CopyDest);
    assert_eq!(r, Err(GpuError::InvalidTransition));
    assert_eq!(state, ResourceState::RenderTarget);
}

#[test]
fn an_unsignaled_completion_signal_fails_the_wait() {
    let mut event = Event::new(false);
    assert_eq!(event.wait(), Err(GpuError::WaitFailed));

    let mut event = Event::new(true);
    assert_eq!(event.wait(), Ok(()));
    // Automatic reset: the signal is consumed.
    assert_eq!(event.wait(), Err(GpuError::WaitFailed));
}

#[test]
fn recorder_misuse_is_an_error() {
    let lib = GPULib::new().unwrap();
    let mut allocator = lib.device.create_command_allocator();
    let mut list = lib.device.create_command_list();

    // A fresh recorder is closed: closing again is refused.
    assert_eq!(list.close(), Err(GpuError::RecorderNotRecording));

    list.reset(&mut allocator).unwrap();
    assert!(list.is_recording());
    // Resetting while recording is refused.
    assert_eq!(list.reset(&mut allocator), Err(GpuError::RecorderBusy));

    list.record(GpuCommand::SetRootSignature);
    list.close().unwrap();
    assert!(!list.is_recording());
    assert_eq!(list.commands.len(), 1);

    // A new recording pass clears the trace.
    list.reset(&mut allocator).unwrap();
    assert!(list.commands.is_empty());
}

#[test]
fn fences_report_completion_through_events() {
    let lib = GPULib::new().unwrap();
    let mut fence = lib.device.create_fence(0);
    let mut event = Event::new(false);

    fence.set_event_on_completion(1, &mut event);
    assert!(!event.signaled);

    lib.queue.signal(&mut fence, 1);
    fence.set_event_on_completion(1, &mut event);
    assert!(event.signaled);
    assert_eq!(event.wait(), Ok(()));

    assert_eq!(lib.queue.wait(&fence, 1), Ok(()));
    assert_eq!(lib.queue.wait(&fence, 2), Err(GpuError::QueueStalled));
}

#[test]
fn swapchain_rejects_fewer_than_two_buffers() {
    let lib = GPULib::new().unwrap();
    assert!(matches!(
        Swapchain::new(&lib.device, 640, 480, 1),
        Err(GpuError::InvalidBufferCount)
    ));
    assert!(matches!(
        Swapchain::new(&lib.device, 640, 480, 0),
        Err(GpuError::InvalidBufferCount)
    ));
    assert!(Swapchain::new(&lib.device, 640, 480, 2).is_ok());
}

#[test]
fn swapchain_exposes_viewport_scissor_and_paired_handles() {
    let lib = GPULib::new().unwrap();
    let surface = Swapchain::new(&lib.device, 1024, 768, 3).unwrap();
    assert_eq!(surface.viewport.width, 1024);
    assert_eq!(surface.viewport.height, 768);
    assert_eq!(surface.scissor.right, 1024);
    assert_eq!(surface.scissor.bottom, 768);
    assert_eq!(surface.render_targets.len(), 3);
    assert_eq!(surface.render_target_heap.num_descriptors, 3);
    assert_eq!(surface.render_target_heap_srgb.num_descriptors, 3);

    let (linear, srgb) = surface.current_render_target_handle();
    assert_eq!(linear.index, 0);
    assert!(!linear.srgb);
    assert_eq!(srgb.index, 0);
    assert!(srgb.srgb);
}

#[test]
fn presenting_an_untransitioned_buffer_fails() {
    let lib = GPULib::new().unwrap();
    let mut surface = Swapchain::new(&lib.device, 640, 480, 2).unwrap();

    // The back buffer starts presentable.
    assert_eq!(surface.present(), Ok(()));
    assert_eq!(surface.current_back_buffer, 1);

    // Mid-frame the buffer is a render target; presenting it then is
    // the hazard the surface reports.
    surface
        .transition_current(ResourceState::Present, ResourceState::RenderTarget)
        .unwrap();
    assert_eq!(surface.present(), Err(GpuError::PresentFailed));
    assert_eq!(surface.presents, 1);

    surface
        .transition_current(ResourceState::RenderTarget, ResourceState::Present)
        .unwrap();
    assert_eq!(surface.present(), Ok(()));
    assert_eq!(surface.presents, 2);
    assert_eq!(surface.current_back_buffer, 0);
}

#[test]
fn draining_the_queue_always_succeeds() {
    let mut lib = GPULib::new().unwrap();
    let surface = Swapchain::new(&lib.device, 64, 64, 2).unwrap();
    let queue = lib.queue;
    assert_eq!(surface.wait_idle(&mut lib.device, &queue), Ok(()));
}

#[test]
fn default_config_matches_the_documented_values() {
    let config = AppConfig::default();
    assert_eq!(config.window_title, "gimslib window");
    assert!(matches!(config.window_size, WindowSize::Logical(1024, 768)));
    assert_eq!(config.frame_count, 2);
}
