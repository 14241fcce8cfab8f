//! A completion signal with automatic reset: the host-side primitive a
//! frame slot blocks on to learn that its submitted GPU work finished.
//!
//! A wait on a signal that never comes would hang the whole process;
//! the wait here is bounded instead and reports an error when the
//! signal is not there, so a scheduling mistake surfaces as a checkable
//! failure rather than a hang.

use vstd::prelude::*;

use crate::GpuError;

verus! {

/// An automatic-reset completion signal.
pub struct Event {
    pub signaled: bool,
}

impl Event {
    /// Creates an event with automatic reset.
    pub fn new(initially_signaled: bool) -> (e: Event)
        ensures
            e.signaled == initially_signaled,
    {
        Event { signaled: initially_signaled }
    }

    /// Waits for the event.  A signaled event is consumed (automatic
    /// reset) and the wait succeeds; an unsignaled event would never wake
    /// the caller, so the wait fails instead of hanging.
    pub fn wait(&mut self) -> (r: Result<(), GpuError>)
        ensures
            old(self).signaled ==> r is Ok && !final(self).signaled,
            !old(self).signaled ==> {
                &&& r is Err
                &&& r->Err_0 == GpuError::WaitFailed
                &&& final(self).signaled == old(self).signaled
            },
    {
        if self.signaled {
            self.signaled = false;
            Ok(())
        } else {
            Err(GpuError::WaitFailed)
        }
    }
}

} // verus!
