//! The presentation surface: the rotating back buffers the display scans
//! out from, their render-target view heaps (a linear and an sRGB alias of
//! the same memory), and the viewport and scissor covering the surface.

use vstd::prelude::*;

use crate::GpuError;
use crate::gpulib::{GpuDevice, GpuQueue};
use crate::resource::{GpuTexture, ResourceState, TransitionBarrier, transition};

verus! {

/// The region of the render target that draws cover, anchored at the
/// origin.
#[derive(Clone, Copy, Debug, PartialEq, Eq, Structural)]
pub struct Viewport {
    pub width: u32,
    pub height: u32,
}

/// The clipping rectangle applied to draws.
#[derive(Clone, Copy, Debug, PartialEq, Eq, Structural)]
pub struct ScissorRect {
    pub left: i32,
    pub top: i32,
    pub right: i32,
    pub bottom: i32,
}

/// A render-target view handle: which back buffer it views, and whether
/// writes through it are interpreted as sRGB.
#[derive(Clone, Copy, Debug, PartialEq, Eq, Structural)]
pub struct RenderTargetHandle {
    pub index: u32,
    pub srgb: bool,
}

/// A descriptor heap holding one render-target view per back buffer.
#[derive(Clone, Copy, Debug, PartialEq, Eq, Structural)]
pub struct RtvDescriptorHeap {
    pub num_descriptors: u32,
}

/// The swapchain and its render-target views.  The same back-buffer
/// memory is viewed through a linear and an sRGB descriptor, so callers
/// can pick gamma-correct blending per draw.
pub struct Swapchain {
    pub render_target_heap: RtvDescriptorHeap,
    pub render_target_heap_srgb: RtvDescriptorHeap,
    pub render_targets: Vec<GpuTexture>,
    /// The back buffer the next present publishes (the model of the
    /// native "current back buffer index").
    pub current_back_buffer: usize,
    pub viewport: Viewport,
    pub scissor: ScissorRect,
    /// How many presents completed on this surface.
    pub presents: u64,
}

impl Swapchain {
    /// The cursor stays inside the back-buffer vector, and a flip-model
    /// surface never has fewer than two buffers.
    pub open spec fn wf(&self) -> bool {
        &&& self.current_back_buffer < self.render_targets@.len()
        &&& 2 <= self.render_targets@.len() <= u32::MAX
    }

    /// Every back buffer is ready for presentation: the idle state of
    /// the surface between frames.
    pub open spec fn all_presentable(&self) -> bool {
        forall|k: int|
            0 <= k < self.render_targets@.len() ==> (#[trigger] self.render_targets@[k]).state
                is Present
    }

    /// Creates a presentation surface of `frame_count` back buffers over
    /// a `width` by `height` target.  Flip-model presentation needs at
    /// least two buffers; fewer is rejected.  Each back buffer starts
    /// ready for presentation.
    pub fn new(device: &GpuDevice, width: u32, height: u32, frame_count: u32) -> (r: Result<
        Swapchain,
        GpuError,
    >)
        requires
            width <= i32::MAX,
            height <= i32::MAX,
        ensures
            r is Ok <==> frame_count >= 2,
            r is Ok ==> {
                let s = r->Ok_0;
                &&& s.wf()
                &&& s.render_targets@.len() == frame_count
                &&& forall|i: int|
                    0 <= i < frame_count ==> {
                        &&& (#[trigger] s.render_targets@[i]).width == width
                        &&& s.render_targets@[i].height == height
                        &&& s.render_targets@[i].state is Present
                    }
                &&& s.current_back_buffer == 0
                &&& s.presents == 0
                &&& s.viewport == (Viewport { width, height })
                &&& s.scissor == (ScissorRect {
                    left: 0,
                    top: 0,
                    right: width as i32,
                    bottom: height as i32,
                })
                &&& s.render_target_heap.num_descriptors == frame_count
                &&& s.render_target_heap_srgb.num_descriptors == frame_count
            },
            r is Err ==> r->Err_0 == GpuError::InvalidBufferCount,
    {
        if frame_count < 2 {
            return Err(GpuError::InvalidBufferCount);
        }
        let render_target_heap = RtvDescriptorHeap { num_descriptors: frame_count };
        let render_target_heap_srgb = RtvDescriptorHeap { num_descriptors: frame_count };

        let mut render_targets: Vec<GpuTexture> = Vec::new();
        let mut frame: u32 = 0;
        while frame < frame_count
            invariant
                frame <= frame_count,
                render_targets@.len() == frame,
                forall|i: int|
                    0 <= i < frame ==> {
                        &&& (#[trigger] render_targets@[i]).width == width
                        &&& render_targets@[i].height == height
                        &&& render_targets@[i].state is Present
                    },
            decreases frame_count - frame,
        {
            let mut render_target = device.create_texture(width, height);
            render_target.state = ResourceState::Present;
            render_targets.push(render_target);
            frame += 1;
        }

        let viewport = Viewport { width, height };
        let scissor = ScissorRect { left: 0, top: 0, right: width as i32, bottom: height as i32 };

        Ok(
            Swapchain {
                render_target_heap,
                render_target_heap_srgb,
                render_targets,
                current_back_buffer: 0,
                viewport,
                scissor,
                presents: 0,
            },
        )
    }

    /// The back buffer the next present publishes.
    pub fn current_render_target(&self) -> (t: &GpuTexture)
        requires
            self.wf(),
        ensures
            *t == self.render_targets@[self.current_back_buffer as int],
    {
        &self.render_targets[self.current_back_buffer]
    }

    /// Transitions the current back buffer between resource states,
    /// validated against its tracked state.
    pub fn transition_current(&mut self, before: ResourceState, after: ResourceState) -> (r: Result<
        TransitionBarrier,
        GpuError,
    >)
        requires
            old(self).wf(),
        ensures
            final(self).wf(),
            final(self).current_back_buffer == old(self).current_back_buffer,
            final(self).presents == old(self).presents,
            final(self).viewport == old(self).viewport,
            final(self).scissor == old(self).scissor,
            old(self).render_targets@[old(self).current_back_buffer as int].state == before ==> {
                &&& r is Ok
                &&& r->Ok_0 == (TransitionBarrier { before, after })
                &&& final(self).render_targets@ == old(self).render_targets@.update(
                    old(self).current_back_buffer as int,
                    GpuTexture {
                        state: after,
                        ..old(self).render_targets@[old(self).current_back_buffer as int]
                    },
                )
            },
            old(self).render_targets@[old(self).current_back_buffer as int].state != before ==> {
                &&& r is Err
                &&& r->Err_0 == GpuError::InvalidTransition
                &&& final(self).render_targets@ == old(self).render_targets@
            },
    {
        let target = &mut self.render_targets[self.current_back_buffer];
        transition(&mut target.state, before, after)
    }

    /// The linear and the sRGB view handles of the current back buffer,
    /// in that order.
    pub fn current_render_target_handle(&self) -> (handles: (
        RenderTargetHandle,
        RenderTargetHandle,
    ))
        requires
            self.wf(),
            self.current_back_buffer <= u32::MAX,
        ensures
            handles.0 == (RenderTargetHandle { index: self.current_back_buffer as u32, srgb: false }),
            handles.1 == (RenderTargetHandle { index: self.current_back_buffer as u32, srgb: true }),
    {
        (
            RenderTargetHandle { index: self.current_back_buffer as u32, srgb: false },
            RenderTargetHandle { index: self.current_back_buffer as u32, srgb: true },
        )
    }

    /// Requests presentation of the current back buffer with a vertical
    /// sync interval of one.  The buffer must have been transitioned back
    /// to the presentable state; presenting one that was not is the
    /// hazard the surface reports as a failed present.  On success the
    /// surface rotates to the next back buffer.
    pub fn present(&mut self) -> (r: Result<(), GpuError>)
        requires
            old(self).wf(),
            old(self).presents < u64::MAX,
        ensures
            final(self).wf(),
            final(self).render_targets@ == old(self).render_targets@,
            final(self).viewport == old(self).viewport,
            final(self).scissor == old(self).scissor,
            old(self).render_targets@[old(self).current_back_buffer as int].state is Present ==> {
                &&& r is Ok
                &&& final(self).presents == old(self).presents + 1
                &&& final(self).current_back_buffer == ((old(self).current_back_buffer + 1) as int)
                    % (old(self).render_targets@.len() as int)
            },
            !(old(self).render_targets@[old(self).current_back_buffer as int].state is Present)
                ==> {
                &&& r is Err
                &&& r->Err_0 == GpuError::PresentFailed
                &&& final(self).presents == old(self).presents
                &&& final(self).current_back_buffer == old(self).current_back_buffer
            },
    {
        let current = &self.render_targets[self.current_back_buffer];
        match current.state {
            ResourceState::Present => {
                self.presents = self.presents + 1;
                let count = self.render_targets.len();
                self.current_back_buffer = (self.current_back_buffer + 1) % count;
                Ok(())
            },
            _ => Err(GpuError::PresentFailed),
        }
    }

    /// Drains the queue before the surface's resources are released:
    /// signals a fresh fence and waits for it, so no in-flight command
    /// list still references a buffer being destroyed.
    pub fn wait_idle(&self, device: &mut GpuDevice, queue: &GpuQueue) -> (r: Result<(), GpuError>)
        ensures
            r is Ok,
    {
        let mut fence = device.create_fence(0);
        queue.signal(&mut fence, 1);
        queue.wait(&fence, 1)
    }
}

} // verus!
