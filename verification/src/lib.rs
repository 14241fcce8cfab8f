//! A minimal application scaffold for explicit-API graphics programs:
//! device and queue initialization, swapchain management, per-frame
//! synchronization, and an immediate-mode overlay renderer, exposing a
//! small callback-based interface to user applications.
//!
//! Native GPU objects (resources, fences, command lists, descriptor
//! heaps) are represented by owned handles that carry the semantic
//! content the frame lifecycle depends on: a resource-state tag per
//! resource, a completed value per fence, a recording-state tag and a
//! command trace per command recorder.  State transitions are typed
//! operations validated against the tracked current state.  The windowing
//! layer, the UI toolkit and shader compilation are external
//! collaborators: they hand the library plain values (input events,
//! tessellated primitives, texture deltas) and take plain values back.

pub mod command_list;
pub mod egui_renderer;
pub mod event;
pub mod frame_data;
pub mod gpulib;
pub mod resource;
pub mod running_state;
pub mod swapchain;
pub mod texture_manager;
pub mod vector_constant_buffer;

pub use frame_data::FrameData;
pub use gpulib::GPULib;

use vstd::prelude::*;

use crate::command_list::CommandList;
use crate::swapchain::{RenderTargetHandle, ScissorRect, Viewport};

verus! {

/// Why a frame-lifecycle operation failed.  There is no retry policy:
/// every failure is propagated up as fatal, since a broken GPU context
/// cannot self-heal.
#[derive(Clone, Copy, Debug, PartialEq, Eq, Structural)]
pub enum GpuError {
    /// A completion signal was not there when the frame needed it.
    WaitFailed,
    /// The queue was asked to wait on a fence value that no submitted
    /// work will ever raise.
    QueueStalled,
    /// A command recorder was reset while still recording.
    RecorderBusy,
    /// A command recorder was closed, or asked to keep recording, while
    /// not recording.
    RecorderNotRecording,
    /// A resource-state transition did not match the resource's tracked
    /// current state.
    InvalidTransition,
    /// The presented back buffer was not in the presentable state.
    PresentFailed,
    /// A recorded draw referenced a texture that is not in the cache.
    TextureMissing,
    /// A requested allocation's byte size does not fit the address space.
    ResourceTooLarge,
    /// A presentation surface was requested with fewer than two buffers.
    InvalidBufferCount,
}

/// How large the application window should be.
#[derive(Clone, Copy, Debug, PartialEq, Eq, Structural)]
pub enum WindowSize {
    /// Width and height in display pixels.
    Physical(u32, u32),
    /// Width and height in logical pixels, respecting scaling factors.
    Logical(u32, u32),
}

/// Settings of the application scaffold.
#[derive(Debug, Clone)]
pub struct AppConfig {
    /// Window title.
    pub window_title: String,
    /// Width and height of the drawing area.
    pub window_size: WindowSize,
    /// Depth of the per-frame recording ring.  This is deliberately
    /// independent of the presentation surface's back-buffer count: CPU
    /// recording depth and presentation depth are distinct concerns.
    pub frame_count: usize,
}

impl Default for AppConfig {
    fn default() -> (c: Self)
        ensures
            c.window_title@ == "gimslib window"@,
            c.window_size == WindowSize::Logical(1024, 768),
            c.frame_count == 2,
    {
        AppConfig {
            window_title: "gimslib window".to_string(),
            window_size: WindowSize::Logical(1024, 768),
            frame_count: 2,
        }
    }
}

/// The read-only bundle handed to the user draw callback each frame.
#[derive(Clone, Copy, Debug, PartialEq, Eq, Structural)]
pub struct FrameResources {
    /// Linear view of the current back buffer.
    pub render_target_handle: RenderTargetHandle,
    /// sRGB view of the same back-buffer memory.
    pub render_target_handle_srgb: RenderTargetHandle,
    pub viewport: Viewport,
    pub scissor: ScissorRect,
}

/// The user application.  Once per frame, after the UI toolkit has
/// recorded its output, the orchestrator calls `draw` with an open
/// command recorder and the frame's resources.  The callback must record
/// only draw and state-setting commands; it must not transition the back
/// buffer itself and must leave the recorder recording — the orchestrator
/// owns the surrounding transitions and verifies the recorder's state
/// after the callback returns.
pub trait App {
    fn draw(&mut self, command_list: &mut CommandList, frame_resources: &FrameResources) -> (r:
        Result<(), GpuError>)
        requires
            old(command_list).state is Recording,
        ensures
            final(command_list).state is Recording,
            old(command_list).commands@.is_prefix_of(final(command_list).commands@),
    ;
}

} // verus!
