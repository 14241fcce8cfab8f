//! The device context: the graphics device, the command queue, and the
//! fences they signal.  Created once per process and shared by every
//! other component.
//!
//! The queue is the single serialization point for all GPU work.  In this
//! model the queue has finished every submitted command list by the time
//! a fence signal or wait on it is observed, so a fence's tracked value
//! is the completed value; the frame orchestrator still has to prove that
//! it never observes a fence before the signal that raises it, which is
//! exactly the per-frame reuse hazard.

use vstd::prelude::*;

use crate::GpuError;
use crate::command_list::{CommandAllocator, CommandList, GpuCommand, RecorderState};
use crate::event::Event;
use crate::resource::{GpuBuffer, GpuTexture, ResourceState};

verus! {

/// Adapter flag marking a software rasterizer, which the device selection
/// skips.
pub const ADAPTER_FLAG_SOFTWARE: u32 = 2;

/// Debug-layer message severities, ordered from most to least severe.
pub const MESSAGE_SEVERITY_CORRUPTION: u32 = 0;

pub const MESSAGE_SEVERITY_ERROR: u32 = 1;

pub const MESSAGE_SEVERITY_WARNING: u32 = 2;

pub const MESSAGE_SEVERITY_INFO: u32 = 3;

pub const MESSAGE_SEVERITY_MESSAGE: u32 = 4;

/// A completion fence: a monotonically raised counter used to detect GPU
/// work completion from the host thread.  `value` is the completed value.
pub struct Fence {
    pub value: u64,
}

impl Fence {
    /// Sets the fence from the host side, without involving the queue.
    pub fn signal(&mut self, value: u64)
        ensures
            final(self).value == value,
    {
        self.value = value;
    }

    /// Arms `event` to fire once the fence reaches `completion_value`.
    /// The queue has finished all submitted work, so the event fires now
    /// if the fence is already there and otherwise stays quiet; an armed
    /// event is never disarmed.
    pub fn set_event_on_completion(&self, completion_value: u64, event: &mut Event)
        ensures
            final(event).signaled == (old(event).signaled || self.value >= completion_value),
    {
        if self.value >= completion_value {
            event.signaled = true;
        }
    }
}

/// The command queue: the single serialization point for all GPU work.
/// `executed` is the trace of submitted command lists, oldest first.
pub struct GpuQueue {
    pub executed: Ghost<Seq<Seq<GpuCommand>>>,
}

impl GpuQueue {
    /// Submits a closed command list for execution.
    pub fn execute(&mut self, list: &CommandList)
        requires
            list.state is Closed,
        ensures
            final(self).executed@ == old(self).executed@.push(list.commands@),
    {
        let ghost executed = self.executed@;
        self.executed = Ghost(executed.push(list.commands@));
    }

    /// Raises the fence to `value` once all work submitted so far is
    /// done; all of it is done, so the fence is raised now.
    pub fn signal(&self, fence: &mut Fence, value: u64)
        ensures
            final(fence).value == value,
    {
        fence.value = value;
    }

    /// Makes the queue wait until the fence reaches `value` before it
    /// executes further work.  A fence that is already there costs
    /// nothing; one that is not would stall the queue forever, which is
    /// reported as an error instead.
    pub fn wait(&self, fence: &Fence, value: u64) -> (r: Result<(), GpuError>)
        ensures
            fence.value >= value ==> r is Ok,
            fence.value < value ==> r is Err && r->Err_0 == GpuError::QueueStalled,
    {
        if fence.value >= value {
            Ok(())
        } else {
            Err(GpuError::QueueStalled)
        }
    }
}

/// The graphics device: the factory for every GPU object.
pub struct GpuDevice {}

impl GpuDevice {
    /// Creates a fence whose completed value starts at `initial_value`.
    pub fn create_fence(&self, initial_value: u64) -> (f: Fence)
        ensures
            f.value == initial_value,
    {
        Fence { value: initial_value }
    }

    pub fn create_command_allocator(&self) -> (a: CommandAllocator)
        ensures
            a.resets@ == 0,
    {
        CommandAllocator::new()
    }

    /// Creates a command recorder; like the native call, the recorder
    /// starts closed and must be reset before recording.
    pub fn create_command_list(&self) -> (list: CommandList)
        ensures
            list.state is Closed,
            list.commands@.len() == 0,
    {
        CommandList::new()
    }

    /// Creates a committed buffer resource of `size_bytes` bytes in the
    /// common state.
    pub fn create_buffer(&self, size_bytes: u64) -> (b: GpuBuffer)
        ensures
            b.size_bytes == size_bytes,
            b.state is Common,
    {
        GpuBuffer { size_bytes, state: ResourceState::Common }
    }

    /// Creates a committed two-dimensional texture resource in the common
    /// state.
    pub fn create_texture(&self, width: u32, height: u32) -> (t: GpuTexture)
        ensures
            t.width == width,
            t.height == height,
            t.state is Common,
    {
        GpuTexture { width, height, state: ResourceState::Common }
    }
}

/// The device context: device, queue, and nothing else.  Adapter
/// enumeration itself is the platform's business; the choice among the
/// enumerated adapters is `select_adapter`.
pub struct GPULib {
    pub device: GpuDevice,
    pub queue: GpuQueue,
}

impl GPULib {
    /// Initializes the device context.  Construction of the model context
    /// always succeeds; a real platform initialization reports its
    /// failure before any value of this type exists.
    pub fn new() -> (r: Result<GPULib, GpuError>)
        ensures
            r is Ok,
            r->Ok_0.queue.executed@.len() == 0,
    {
        Ok(GPULib { device: GpuDevice {  }, queue: GpuQueue { executed: Ghost(Seq::empty()) } })
    }
}

/// Picks the first adapter that is not a software rasterizer, given the
/// enumerated adapters' flag words in enumeration order.
pub fn select_adapter(adapter_flags: &Vec<u32>) -> (r: Option<usize>)
    ensures
        r is Some ==> {
            &&& r->0 < adapter_flags@.len()
            &&& adapter_flags@[r->0 as int] & ADAPTER_FLAG_SOFTWARE == 0
            &&& forall|j: int|
                0 <= j < r->0 ==> #[trigger] adapter_flags@[j] & ADAPTER_FLAG_SOFTWARE != 0
        },
        r is None ==> forall|j: int|
            0 <= j < adapter_flags@.len() ==> #[trigger] adapter_flags@[j] & ADAPTER_FLAG_SOFTWARE
                != 0,
{
    let mut i: usize = 0;
    while i < adapter_flags.len()
        invariant
            i <= adapter_flags@.len(),
            forall|j: int|
                0 <= j < i ==> #[trigger] adapter_flags@[j] & ADAPTER_FLAG_SOFTWARE != 0,
        decreases adapter_flags@.len() - i,
    {
        if adapter_flags[i] & ADAPTER_FLAG_SOFTWARE == 0 {
            return Some(i);
        }
        i += 1;
    }
    None
}

/// Whether a debug-layer message of the given severity is reported.
/// Anything less severe than a warning is ignored.
pub fn severity_is_reported(severity_code: u32) -> (r: bool)
    ensures
        r == (severity_code <= MESSAGE_SEVERITY_WARNING),
{
    severity_code <= MESSAGE_SEVERITY_WARNING
}

/// The display name of a debug-layer message severity.
pub fn severity_label(severity_code: u32) -> (r: &'static str)
    ensures
        severity_code == MESSAGE_SEVERITY_CORRUPTION ==> r@ == "Corruption"@,
        severity_code == MESSAGE_SEVERITY_ERROR ==> r@ == "Error"@,
        severity_code == MESSAGE_SEVERITY_WARNING ==> r@ == "Warning"@,
        severity_code == MESSAGE_SEVERITY_INFO ==> r@ == "Info"@,
        severity_code == MESSAGE_SEVERITY_MESSAGE ==> r@ == "Message"@,
        severity_code > MESSAGE_SEVERITY_MESSAGE ==> r@ == "Unknown"@,
{
    if severity_code == MESSAGE_SEVERITY_CORRUPTION {
        "Corruption"
    } else if severity_code == MESSAGE_SEVERITY_ERROR {
        "Error"
    } else if severity_code == MESSAGE_SEVERITY_WARNING {
        "Warning"
    } else if severity_code == MESSAGE_SEVERITY_INFO {
        "Info"
    } else if severity_code == MESSAGE_SEVERITY_MESSAGE {
        "Message"
    } else {
        "Unknown"
    }
}

} // verus!
