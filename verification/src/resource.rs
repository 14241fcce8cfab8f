//! Owned GPU resource handles with an explicit resource-state tag per
//! resource.  A state transition is a typed operation validated against
//! the tracked current state: a mismatch is caught as an error instead of
//! silently corrupting the pipeline.

use vstd::prelude::*;

use crate::GpuError;

verus! {

/// The tracked usage state of a GPU resource.
#[derive(Clone, Copy, Debug, PartialEq, Eq, Structural)]
pub enum ResourceState {
    /// Freshly created, not yet used by the GPU.
    Common,
    /// Readable by any shader stage or copy source.
    GenericRead,
    /// Destination of a copy operation.
    CopyDest,
    /// Bound as a render target.
    RenderTarget,
    /// Ready for presentation by the swapchain.
    Present,
}

/// A recorded state-transition command for one resource.
#[derive(Clone, Copy, Debug, PartialEq, Eq, Structural)]
pub struct TransitionBarrier {
    pub before: ResourceState,
    pub after: ResourceState,
}

/// A buffer resource: a linear allocation of `size_bytes` bytes.
pub struct GpuBuffer {
    pub size_bytes: u64,
    pub state: ResourceState,
}

/// A two-dimensional texture resource.
pub struct GpuTexture {
    pub width: u32,
    pub height: u32,
    pub state: ResourceState,
}

/// Builds a transition barrier for a resource whose tracked state is
/// `*state`.  The barrier is valid only if the declared `before` state
/// matches the tracked one; a mismatch leaves the tag unchanged and is
/// reported as an error.
pub fn transition(state: &mut ResourceState, before: ResourceState, after: ResourceState) -> (r:
    Result<TransitionBarrier, GpuError>)
    ensures
        *old(state) == before ==> {
            &&& r is Ok
            &&& r->Ok_0 == (TransitionBarrier { before, after })
            &&& *final(state) == after
        },
        *old(state) != before ==> {
            &&& r is Err
            &&& r->Err_0 == GpuError::InvalidTransition
            &&& *final(state) == *old(state)
        },
{
    if *state == before {
        *state = after;
        Ok(TransitionBarrier { before, after })
    } else {
        Err(GpuError::InvalidTransition)
    }
}

} // verus!
