//! A command recorder with a tracked recording state and the trace of
//! commands recorded since the last reset.  The recorder is either closed
//! (submittable, not recordable) or recording (recordable, not
//! submittable); reset and close move between the two and fail on misuse,
//! matching the underlying API's error behaviour.

use vstd::prelude::*;

use crate::GpuError;
use crate::resource::TransitionBarrier;
use crate::swapchain::{RenderTargetHandle, ScissorRect, Viewport};
use crate::vector_constant_buffer::{IndexBufferView, VertexBufferView};

verus! {

/// Whether a command recorder currently accepts commands.
#[derive(Clone, Copy, Debug, PartialEq, Eq, Structural)]
pub enum RecorderState {
    Closed,
    Recording,
}

/// One recorded GPU command, reduced to the values the frame lifecycle
/// depends on.
#[derive(Clone, Copy, Debug)]
pub enum GpuCommand {
    /// A resource-state transition barrier.
    Transition(TransitionBarrier),
    /// Bind one render-target view as the output of following draws.
    SetRenderTargets { handle: RenderTargetHandle },
    SetViewports { viewport: Viewport },
    SetScissorRects { scissor: ScissorRect },
    SetRootSignature,
    SetPipelineState,
    SetPrimitiveTopology,
    /// The root constants of the overlay pipeline: a pixel-space to
    /// clip-space transform, fully determined by the viewport dimensions.
    SetPixelSpaceTransform { width: u32, height: u32 },
    /// Bind the shader-visible descriptor heap of the given texture.
    BindTextureHeap { texture: u64 },
    /// Bind the descriptor table pointing at the given texture's view.
    BindTextureTable { texture: u64 },
    SetVertexBuffer { vertex_view: VertexBufferView },
    SetIndexBuffer { index_view: IndexBufferView },
    DrawIndexed { index_count: u32 },
    /// Copy a `width` by `height` block of texels from an upload buffer
    /// into the given texture at `(dst_x, dst_y)`.
    CopyTextureRegion { texture: u64, dst_x: u32, dst_y: u32, width: u32, height: u32 },
    /// Clear the render target behind the given view handle.
    ClearRenderTarget { handle: RenderTargetHandle },
}

/// Whether a command samples, fills or otherwise dereferences the given
/// texture.
pub open spec fn command_references_texture(cmd: GpuCommand, texture: u64) -> bool {
    match cmd {
        GpuCommand::BindTextureHeap { texture: t } => t == texture,
        GpuCommand::BindTextureTable { texture: t } => t == texture,
        GpuCommand::CopyTextureRegion { texture: t, .. } => t == texture,
        _ => false,
    }
}

/// A command allocator: the backing storage a recorder records into.
/// Its reuse hazard (reset only after the GPU finished the recorded
/// work) is enforced by the frame orchestrator's fence wait.
pub struct CommandAllocator {
    pub resets: Ghost<nat>,
}

impl CommandAllocator {
    pub fn new() -> (a: CommandAllocator)
        ensures
            a.resets@ == 0,
    {
        CommandAllocator { resets: Ghost(0) }
    }

    /// Reclaims the allocator's storage for a new recording pass.
    pub fn reset(&mut self) -> (r: Result<(), GpuError>)
        ensures
            r is Ok,
            final(self).resets@ == old(self).resets@ + 1,
    {
        let ghost resets = self.resets@;
        self.resets = Ghost(resets + 1);
        Ok(())
    }
}

/// A command recorder: a recording-state tag plus the trace of commands
/// recorded since the last reset.
pub struct CommandList {
    pub state: RecorderState,
    pub commands: Vec<GpuCommand>,
}

impl CommandList {
    /// A new recorder starts closed, like a freshly created native
    /// command list.
    pub fn new() -> (list: CommandList)
        ensures
            list.state is Closed,
            list.commands@.len() == 0,
    {
        CommandList { state: RecorderState::Closed, commands: Vec::new() }
    }

    pub fn is_recording(&self) -> (r: bool)
        ensures
            r == (self.state is Recording),
    {
        match self.state {
            RecorderState::Recording => true,
            RecorderState::Closed => false,
        }
    }

    /// Opens the recorder over the given allocator and clears the trace.
    /// Resetting a recorder that is still recording is an error and
    /// changes nothing.
    pub fn reset(&mut self, allocator: &mut CommandAllocator) -> (r: Result<(), GpuError>)
        ensures
            old(self).state is Closed ==> {
                &&& r is Ok
                &&& final(self).state is Recording
                &&& final(self).commands@.len() == 0
                &&& final(allocator).resets@ == old(allocator).resets@ + 1
            },
            old(self).state is Recording ==> {
                &&& r is Err
                &&& r->Err_0 == GpuError::RecorderBusy
                &&& *final(self) == *old(self)
                &&& *final(allocator) == *old(allocator)
            },
    {
        match self.state {
            RecorderState::Recording => Err(GpuError::RecorderBusy),
            RecorderState::Closed => {
                allocator.reset()?;
                self.commands = Vec::new();
                self.state = RecorderState::Recording;
                Ok(())
            },
        }
    }

    /// Appends one command to the trace.
    pub fn record(&mut self, cmd: GpuCommand)
        requires
            old(self).state is Recording,
        ensures
            final(self).state is Recording,
            final(self).commands@ == old(self).commands@.push(cmd),
    {
        self.commands.push(cmd);
    }

    /// Closes the recorder, making the trace submittable.  Closing a
    /// recorder that is not recording is an error and changes nothing.
    pub fn close(&mut self) -> (r: Result<(), GpuError>)
        ensures
            old(self).state is Recording ==> {
                &&& r is Ok
                &&& final(self).state is Closed
                &&& final(self).commands@ == old(self).commands@
            },
            old(self).state is Closed ==> {
                &&& r is Err
                &&& r->Err_0 == GpuError::RecorderNotRecording
                &&& *final(self) == *old(self)
            },
    {
        match self.state {
            RecorderState::Recording => {
                self.state = RecorderState::Closed;
                Ok(())
            },
            RecorderState::Closed => Err(GpuError::RecorderNotRecording),
        }
    }
}

} // verus!
