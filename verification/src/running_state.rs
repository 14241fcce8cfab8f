//! The frame orchestrator: drives one frame through wait-for-completion,
//! record, submit, present, and ring advance.
//!
//! Each recording slot owns an allocator, a recorder, a fence and a
//! completion signal.  A slot's recorder and allocator are reset only
//! after the wait on its completion signal succeeds — that wait is the
//! mechanism that keeps a slot's storage from being reused while its
//! previous GPU work is still in flight, and this module proves that
//! under the slot invariant the wait always succeeds.  The recording
//! ring's depth and the presentation surface's back-buffer count are
//! deliberately independent: CPU recording depth and presentation depth
//! are distinct concerns.
//!
//! The user draw callback is the one step the library does not control,
//! so the frame is split around it: `begin_frame` succeeds exactly when
//! the frame's texture delta leaves every live texture in the cache, and
//! `finish_frame` takes the callback's result as an argument and fixes
//! the outcome for every value of it.  `draw` composes the two around
//! the callback.

use vstd::prelude::*;

use crate::{App, FrameResources, GpuError};
use crate::command_list::{CommandAllocator, CommandList, GpuCommand};
use crate::egui_renderer::{
    ClippedPrimitive, EguiRenderer, MeshPrimitive, TexturesDelta, live_meshes,
    overlay_draw_commands, textures_delta_wf,
};
use crate::event::Event;
use crate::frame_data::{FrameData, next_index, ring_wf};
use crate::gpulib::{Fence, GPULib};
use crate::resource::{ResourceState, TransitionBarrier};
use crate::swapchain::{RenderTargetHandle, Swapchain};
use crate::texture_manager::{
    ImageDelta, TextureEntry, TextureId, frees_id, upsert_submissions, upserts_id,
};

verus! {

/// One recording slot: reusable per-frame state, owned by the
/// orchestrator between the wait on its completion signal and its
/// submission.
pub struct RunningFrameData {
    pub command_allocator: CommandAllocator,
    pub command_list: CommandList,
    pub fence: Fence,
    pub event: Event,
    /// The texture ids the frame recorded in this slot stopped
    /// referencing; they are freed when the slot comes around again.
    pub free_list: Vec<TextureId>,
}

/// Between frames the slot's fence is signaled — its submitted work is
/// done — and its recorder is closed.
pub open spec fn slot_wf(slot: &RunningFrameData) -> bool {
    &&& slot.fence.value == 1
    &&& slot.command_list.state is Closed
}

/// Whether every live mesh's texture survives this frame's texture
/// bookkeeping: it is either already cached and not on the deferred
/// free list applied this frame, or upserted by this frame's delta.
/// This is the one condition a frame's success depends on besides the
/// user callback.
pub open spec fn live_textures_available(
    live: Seq<MeshPrimitive>,
    cache: Map<u64, TextureEntry>,
    deferred_frees: Seq<TextureId>,
    upserts: Seq<(TextureId, ImageDelta)>,
) -> bool {
    forall|k: int|
        0 <= k < live.len() ==> {
            let id = (#[trigger] live[k]).texture_id->Managed_0;
            ||| (cache.contains_key(id) && !frees_id(
                deferred_frees,
                deferred_frees.len() as int,
                id,
            ))
            ||| upserts_id(upserts, upserts.len() as int, id)
        }
}

/// The running application: device context, user application,
/// presentation surface, recording ring, and overlay renderer.
pub struct RunningState<T> {
    pub lib: GPULib,
    pub app: T,
    pub swapchain: Swapchain,
    pub frame_data: FrameData<RunningFrameData>,
    pub egui_renderer: EguiRenderer,
}

impl<T: App> RunningState<T> {
    /// Between frames, every slot of the ring is reusable, every back
    /// buffer is presentable, and surface and overlay are consistent.
    pub open spec fn wf(&self) -> bool {
        &&& ring_wf(&self.frame_data)
        &&& forall|k: int|
            0 <= k < self.frame_data.slots().len() ==> slot_wf(&self.frame_data.slots()[k])
        &&& self.swapchain.wf()
        &&& self.swapchain.all_presentable()
        &&& self.egui_renderer.wf()
    }

    /// The view handles and viewport the frame hands to the callbacks,
    /// determined by the surface's current back buffer.
    pub open spec fn spec_frame_resources(&self) -> FrameResources {
        FrameResources {
            render_target_handle: RenderTargetHandle {
                index: self.swapchain.current_back_buffer as u32,
                srgb: false,
            },
            render_target_handle_srgb: RenderTargetHandle {
                index: self.swapchain.current_back_buffer as u32,
                srgb: true,
            },
            viewport: self.swapchain.viewport,
            scissor: self.swapchain.scissor,
        }
    }

    /// The state in the middle of a frame, between `begin_frame` and
    /// `finish_frame`: the current back buffer is a render target while
    /// all others stay presentable, every other slot is untouched, the
    /// overlay's live slots can be drawn, and `frame_resources` is the
    /// bundle this frame handed out.  The current slot's recorder is
    /// deliberately unconstrained — the user callback owns it here.
    pub open spec fn mid_frame_wf(&self, frame_resources: FrameResources) -> bool {
        &&& ring_wf(&self.frame_data)
        &&& forall|k: int|
            0 <= k < self.frame_data.slots().len() && k != self.frame_data.current_index()
                ==> slot_wf(&self.frame_data.slots()[k])
        &&& self.swapchain.wf()
        &&& self.swapchain.render_targets@[self.swapchain.current_back_buffer as int].state
            is RenderTarget
        &&& forall|k: int|
            0 <= k < self.swapchain.render_targets@.len() && k
                != self.swapchain.current_back_buffer ==> (
            #[trigger] self.swapchain.render_targets@[k]).state is Present
        &&& self.egui_renderer.wf()
        &&& forall|k: int|
            0 <= k < self.egui_renderer.draw_count
                ==> self.egui_renderer.texture_manager.textures@.contains_key(
                (#[trigger] self.egui_renderer.meshes@[k]).texture,
            )
        &&& forall|k: int|
            0 <= k < self.egui_renderer.draw_count ==> (
            #[trigger] self.egui_renderer.meshes@[k]).index_buffer.contents@.len() <= u32::MAX
        &&& self.swapchain.presents < u64::MAX
        &&& frame_resources == self.spec_frame_resources()
    }

    /// Creates the running state: a presentation surface with
    /// `buffer_count` back buffers over a `width` by `height` target,
    /// a recording ring of `recording_frames` slots built eagerly —
    /// there are no partial rings — and the overlay renderer.  Every
    /// slot's fence starts signaled, so the first frame on each slot
    /// does not wait, and every slot's completion signal starts unset.
    pub fn new(lib: GPULib, app: T, width: u32, height: u32, recording_frames: usize, buffer_count:
        u32) -> (r: Result<Self, GpuError>)
        requires
            width <= i32::MAX,
            height <= i32::MAX,
            recording_frames >= 1,
        ensures
            r is Ok <==> buffer_count >= 2,
            r is Err ==> r->Err_0 == GpuError::InvalidBufferCount,
            r is Ok ==> {
                let state = r->Ok_0;
                &&& state.wf()
                &&& state.swapchain.render_targets@.len() == buffer_count
                &&& state.swapchain.current_back_buffer == 0
                &&& state.swapchain.presents == 0
                &&& state.frame_data.slots().len() == recording_frames
                &&& state.frame_data.current_index() == 0
                &&& forall|k: int|
                    0 <= k < recording_frames ==> {
                        &&& (#[trigger] state.frame_data.slots()[k]).free_list@.len() == 0
                        &&& !state.frame_data.slots()[k].event.signaled
                    }
                &&& state.egui_renderer.draw_count == 0
                &&& state.egui_renderer.texture_manager.textures@ == Map::<
                    u64,
                    TextureEntry,
                >::empty()
            },
    {
        let swapchain = Swapchain::new(&lib.device, width, height, buffer_count)?;

        let mut slots: Vec<RunningFrameData> = Vec::new();
        let mut k: usize = 0;
        while k < recording_frames
            invariant
                k <= recording_frames,
                slots@.len() == k,
                forall|j: int|
                    0 <= j < k ==> {
                        &&& slot_wf(&slots@[j])
                        &&& (#[trigger] slots@[j]).free_list@.len() == 0
                        &&& !slots@[j].event.signaled
                    },
            decreases recording_frames - k,
        {
            let command_allocator = lib.device.create_command_allocator();
            let command_list = lib.device.create_command_list();
            // All fences start in the signaled state.
            let fence = lib.device.create_fence(1);
            let event = Event::new(false);
            slots.push(
                RunningFrameData {
                    command_allocator,
                    command_list,
                    fence,
                    event,
                    free_list: Vec::new(),
                },
            );
            k += 1;
        }
        let frame_data = FrameData::new(slots);

        let egui_renderer = EguiRenderer::new(&lib.device)?;

        Ok(RunningState { lib, app, swapchain, frame_data, egui_renderer })
    }

    /// Opens one frame: waits on the current slot's completion signal,
    /// resets its allocator and recorder, transitions the back buffer
    /// into the render-target state, stores the tessellated primitives,
    /// applies the slot's deferred texture frees followed by this
    /// frame's upserts, and hands back the frame's resource bundle.
    ///
    /// Nothing outside the library decides here, so success is exact:
    /// the frame opens unless a live primitive references a texture the
    /// applied delta does not leave in the cache — that hazard is caught
    /// before anything dangling is recorded and is the only error.
    pub fn begin_frame(&mut self, primitives: &[ClippedPrimitive], textures_delta: TexturesDelta)
        -> (r: Result<FrameResources, GpuError>)
        requires
            old(self).wf(),
            textures_delta_wf(&textures_delta),
            old(self).swapchain.presents < u64::MAX,
            forall|k: int|
                0 <= k < live_meshes(primitives@, primitives@.len() as int).len() ==> {
                    let m = #[trigger] live_meshes(primitives@, primitives@.len() as int)[k];
                    &&& m.indices@.len() * vstd::layout::size_of::<u32>() <= usize::MAX
                    &&& m.vertices@.len() * vstd::layout::size_of::<
                        crate::egui_renderer::OverlayVertex,
                    >() <= usize::MAX
                    &&& m.indices@.len() <= u32::MAX
                },
        ensures
            ({
                let live = live_meshes(primitives@, primitives@.len() as int);
                let slots = old(self).frame_data.slots();
                let index = old(self).frame_data.current_index();
                let old_free = slots[index as int].free_list@;
                &&& (r is Ok <==> live_textures_available(
                    live,
                    old(self).egui_renderer.texture_manager.textures@,
                    old_free,
                    textures_delta.set@,
                ))
                &&& r is Err ==> r->Err_0 == GpuError::TextureMissing && final(self).swapchain.presents == old(self).swapchain.presents
                &&& r is Ok ==> {
                    &&& final(self).mid_frame_wf(r->Ok_0)
                    &&& r->Ok_0 == old(self).spec_frame_resources()
                    &&& final(self).swapchain.presents == old(self).swapchain.presents
                    &&& final(self).swapchain.current_back_buffer == old(self).swapchain.current_back_buffer
                    &&& final(self).swapchain.render_targets@.len() == old(self).swapchain.render_targets@.len()
                    &&& final(self).frame_data.slots().len() == slots.len()
                    &&& final(self).frame_data.current_index() == index
                    &&& final(self).frame_data.slots()[index as int].free_list@
                        == textures_delta.free@
                    &&& final(self).frame_data.slots()[index as int].command_list.state
                        is Recording
                    &&& final(self).frame_data.slots()[index as int].command_list.commands@
                        == seq![
                        GpuCommand::Transition(
                            TransitionBarrier {
                                before: ResourceState::Present,
                                after: ResourceState::RenderTarget,
                            },
                        ),
                    ]
                    &&& final(self).egui_renderer.draw_count == live.len()
                    &&& forall|k: int|
                        0 <= k < live.len() ==> {
                            let slot = #[trigger] final(self).egui_renderer.meshes@[k];
                            &&& slot.texture == live[k].texture_id->Managed_0
                            &&& slot.index_buffer.contents@ == live[k].indices@
                            &&& slot.vertex_buffer.contents@ == live[k].vertices@
                        }
                    &&& forall|id: u64|
                        #[trigger] final(self).egui_renderer.texture_manager.textures@.contains_key(
                            id,
                        ) <==> ((old(self).egui_renderer.texture_manager.textures@.contains_key(id)
                            && !frees_id(old_free, old_free.len() as int, id)) || upserts_id(
                            textures_delta.set@,
                            textures_delta.set@.len() as int,
                            id,
                        ))
                    &&& final(self).lib.queue.executed@ == old(self).lib.queue.executed@
                        + upsert_submissions(
                        textures_delta.set@,
                        textures_delta.set@.len() as int,
                        Set::new(
                            |id: u64|
                                old(self).egui_renderer.texture_manager.textures@.contains_key(id)
                                    && !frees_id(old_free, old_free.len() as int, id),
                        ),
                    )
                }
            }),
    {
        let ghost old_index = old(self).frame_data.current_index();
        let ghost live = live_meshes(primitives@, primitives@.len() as int);

        // Wait for completion of the slot's previous frame and
        // immediately reset the fence, then reclaim the slot's recorder
        // and allocator.  Under the slot invariant neither can fail.
        let wait_result = {
            let slot = self.frame_data.get_current_mut();
            slot.fence.set_event_on_completion(1, &mut slot.event);
            let waited = slot.event.wait();
            slot.fence.signal(0);
            waited
        };
        proof {
            assert(wait_result is Ok);
        }
        wait_result?;
        let reset_result = {
            let slot = self.frame_data.get_current_mut();
            slot.command_list.reset(&mut slot.command_allocator)
        };
        proof {
            assert(reset_result is Ok);
        }
        reset_result?;

        let barrier_to_render = match self.swapchain.transition_current(
            ResourceState::Present,
            ResourceState::RenderTarget,
        ) {
            Ok(barrier) => barrier,
            Err(_) => {
                proof {
                    assert(false);
                }
                TransitionBarrier {
                    before: ResourceState::Present,
                    after: ResourceState::RenderTarget,
                }
            },
        };
        {
            let slot = self.frame_data.get_current_mut();
            slot.command_list.record(GpuCommand::Transition(barrier_to_render));
        }

        let record_result = self.egui_renderer.record(&self.lib.device, primitives, textures_delta);
        proof {
            assert(record_result is Ok);
        }
        record_result?;

        let free_list = {
            let slot = self.frame_data.get_current_mut();
            let mut taken: Vec<TextureId> = Vec::new();
            core::mem::swap(&mut slot.free_list, &mut taken);
            taken
        };
        let deferred = self.egui_renderer.apply_texture_delta(
            &self.lib.device,
            &mut self.lib.queue,
            free_list.as_slice(),
        )?;
        {
            let slot = self.frame_data.get_current_mut();
            slot.free_list = deferred;
        }

        let available = self.egui_renderer.textures_available();
        proof {
            let tm_now = self.egui_renderer.texture_manager.textures@;
            let old_cache = old(self).egui_renderer.texture_manager.textures@;
            let old_free = old(self).frame_data.slots()[old_index as int].free_list@;
            let meshes = self.egui_renderer.meshes@;
            let dc = self.egui_renderer.draw_count as int;
            assert forall|k: int| 0 <= k < live.len() implies {
                let id = (#[trigger] live[k]).texture_id->Managed_0;
                tm_now.contains_key(id) <==> ((old_cache.contains_key(id) && !frees_id(
                    old_free,
                    old_free.len() as int,
                    id,
                )) || upserts_id(textures_delta.set@, textures_delta.set@.len() as int, id))
            } by {
                assert(tm_now.contains_key(live[k].texture_id->Managed_0) <==> ((
                old_cache.contains_key(live[k].texture_id->Managed_0) && !frees_id(
                    old_free,
                    old_free.len() as int,
                    live[k].texture_id->Managed_0,
                )) || upserts_id(
                    textures_delta.set@,
                    textures_delta.set@.len() as int,
                    live[k].texture_id->Managed_0,
                )));
            }
            if available {
                assert forall|k: int| 0 <= k < live.len() implies {
                    let id = (#[trigger] live[k]).texture_id->Managed_0;
                    ||| (old_cache.contains_key(id) && !frees_id(
                        old_free,
                        old_free.len() as int,
                        id,
                    ))
                    ||| upserts_id(textures_delta.set@, textures_delta.set@.len() as int, id)
                } by {
                    assert(tm_now.contains_key((#[trigger] meshes[k]).texture));
                    assert(meshes[k].texture == live[k].texture_id->Managed_0);
                }
                assert(live_textures_available(live, old_cache, old_free, textures_delta.set@));
            } else {
                let k0 = choose|k: int|
                    0 <= k < dc && !tm_now.contains_key((#[trigger] meshes[k]).texture);
                assert(meshes[k0].texture == live[k0].texture_id->Managed_0);
                assert(!live_textures_available(live, old_cache, old_free, textures_delta.set@));
            }
            assert(available == live_textures_available(
                live,
                old_cache,
                old_free,
                textures_delta.set@,
            ));
        }
        if !available {
            return Err(GpuError::TextureMissing);
        }

        let handles = self.swapchain.current_render_target_handle();
        Ok(
            FrameResources {
                render_target_handle: handles.0,
                render_target_handle_srgb: handles.1,
                viewport: self.swapchain.viewport,
                scissor: self.swapchain.scissor,
            },
        )
    }

    /// Closes one frame around the user callback's result: on the
    /// callback's error the frame is abandoned with that error; a
    /// callback that did not leave the recorder recording is caught as
    /// its own hazard; otherwise the overlay is composited above the
    /// user's output, the back buffer is transitioned back, the recorder
    /// is closed and submitted, the slot's fence is signaled, the frame
    /// is presented and the ring advances — and none of that can fail.
    pub fn finish_frame(&mut self, frame_resources: &FrameResources, app_result: Result<
        (),
        GpuError,
    >) -> (r: Result<(), GpuError>)
        requires
            old(self).mid_frame_wf(*frame_resources),
        ensures
            app_result is Err ==> r == app_result && final(self).swapchain.presents == old(self).swapchain.presents,
            ({
                let slots = old(self).frame_data.slots();
                let index = old(self).frame_data.current_index();
                let recorder_open = slots[index as int].command_list.state is Recording;
                &&& (app_result is Ok && !recorder_open ==> r == Err::<(), GpuError>(
                    GpuError::RecorderNotRecording,
                ) && final(self).swapchain.presents == old(self).swapchain.presents)
                &&& (app_result is Ok && recorder_open ==> {
                    &&& r is Ok
                    &&& final(self).wf()
                    &&& final(self).swapchain.presents == old(self).swapchain.presents + 1
                    &&& final(self).swapchain.render_targets@.len() == old(self).swapchain.render_targets@.len()
                    &&& final(self).swapchain.current_back_buffer == ((old(self).swapchain.current_back_buffer + 1) as int) % (old(self).swapchain.render_targets@.len() as int)
                    &&& final(self).frame_data.slots().len() == slots.len()
                    &&& final(self).frame_data.current_index() == next_index(index, slots.len())
                    &&& final(self).frame_data.slots()[index as int].free_list@
                        == slots[index as int].free_list@
                    &&& final(self).egui_renderer == old(self).egui_renderer
                    &&& final(self).lib.queue.executed@ == old(self).lib.queue.executed@.push(
                        slots[index as int].command_list.commands@ + overlay_draw_commands(
                            old(self).egui_renderer.meshes@,
                            old(self).egui_renderer.draw_count as int,
                            *frame_resources,
                        ) + seq![
                            GpuCommand::Transition(
                                TransitionBarrier {
                                    before: ResourceState::RenderTarget,
                                    after: ResourceState::Present,
                                },
                            ),
                        ],
                    )
                })
            }),
    {
        let ghost old_index = old(self).frame_data.current_index();

        match app_result {
            Err(error) => {
                // The callback's failure is fatal for the frame and is
                // propagated without retry.
                return Err(error);
            },
            Ok(()) => {},
        }

        let still_recording = self.frame_data.get_current().command_list.is_recording();
        if !still_recording {
            return Err(GpuError::RecorderNotRecording);
        }

        {
            let slot = self.frame_data.get_current_mut();
            self.egui_renderer.draw(&mut slot.command_list, frame_resources);
        }

        let barrier_to_present = match self.swapchain.transition_current(
            ResourceState::RenderTarget,
            ResourceState::Present,
        ) {
            Ok(barrier) => barrier,
            Err(_) => {
                proof {
                    assert(false);
                }
                TransitionBarrier {
                    before: ResourceState::RenderTarget,
                    after: ResourceState::Present,
                }
            },
        };
        let close_result = {
            let slot = self.frame_data.get_current_mut();
            slot.command_list.record(GpuCommand::Transition(barrier_to_present));
            let closed = slot.command_list.close();
            proof {
                assert(closed is Ok);
            }
            closed
        };
        close_result?;

        {
            let slot = self.frame_data.get_current_mut();
            self.lib.queue.execute(&slot.command_list);
            self.lib.queue.signal(&mut slot.fence, 1);
            proof {
                assert(slot.command_list.commands@ =~= old(self).frame_data.slots()[old_index as int].command_list.commands@
                    + overlay_draw_commands(
                    old(self).egui_renderer.meshes@,
                    old(self).egui_renderer.draw_count as int,
                    *frame_resources,
                ) + seq![
                    GpuCommand::Transition(
                        TransitionBarrier {
                            before: ResourceState::RenderTarget,
                            after: ResourceState::Present,
                        },
                    ),
                ]);
            }
        }

        // The present operation is appended to the main queue.
        let present_result = self.swapchain.present();
        proof {
            assert(present_result is Ok);
        }
        present_result?;

        self.frame_data.increment_frame();

        proof {
            let ghost slots0 = old(self).frame_data.slots();
            assert forall|k: int|
                0 <= k < self.frame_data.slots().len() implies slot_wf(
                &self.frame_data.slots()[k],
            ) by {
                if k != old_index as int {
                    assert(self.frame_data.slots()[k] == slots0[k]);
                    assert(slot_wf(&slots0[k]));
                }
            }
            let ghost targets0 = old(self).swapchain.render_targets@;
            assert forall|k: int|
                0 <= k < self.swapchain.render_targets@.len() implies (
            #[trigger] self.swapchain.render_targets@[k]).state is Present by {
                if k != old(self).swapchain.current_back_buffer as int {
                    assert(self.swapchain.render_targets@[k] == targets0[k]);
                }
            }
        }

        Ok(())
    }

    /// Drives one frame from the UI toolkit's tessellated output:
    /// opens the frame (`begin_frame`), invokes the user draw callback
    /// with the frame's resources — user content first — and closes the
    /// frame (`finish_frame`), which composites the overlay on top,
    /// submits, presents with a vertical-sync interval of one and
    /// advances the ring.
    ///
    /// The user callback is the one step outside the library's control:
    /// its error is propagated as fatal, and a callback that does not
    /// leave the recorder recording fails the frame.  Everything else is
    /// exact — see `begin_frame` and `finish_frame` for the two halves'
    /// own contracts.
    pub fn draw(&mut self, primitives: &[ClippedPrimitive], textures_delta: TexturesDelta) -> (r:
        Result<(), GpuError>)
        requires
            old(self).wf(),
            textures_delta_wf(&textures_delta),
            old(self).swapchain.presents < u64::MAX,
            forall|k: int|
                0 <= k < live_meshes(primitives@, primitives@.len() as int).len() ==> {
                    let m = #[trigger] live_meshes(primitives@, primitives@.len() as int)[k];
                    &&& m.indices@.len() * vstd::layout::size_of::<u32>() <= usize::MAX
                    &&& m.vertices@.len() * vstd::layout::size_of::<
                        crate::egui_renderer::OverlayVertex,
                    >() <= usize::MAX
                    &&& m.indices@.len() <= u32::MAX
                },
        ensures
            r is Err ==> final(self).swapchain.presents == old(self).swapchain.presents,
            !live_textures_available(
                live_meshes(primitives@, primitives@.len() as int),
                old(self).egui_renderer.texture_manager.textures@,
                old(self).frame_data.slots()[old(self).frame_data.current_index() as int].free_list@,
                textures_delta.set@,
            ) ==> r == Err::<(), GpuError>(GpuError::TextureMissing),
            r is Ok ==> {
                let live = live_meshes(primitives@, primitives@.len() as int);
                let slots = old(self).frame_data.slots();
                let index = old(self).frame_data.current_index();
                let old_free = slots[index as int].free_list@;
                &&& final(self).wf()
                &&& final(self).swapchain.presents == old(self).swapchain.presents + 1
                &&& final(self).swapchain.render_targets@.len() == old(self).swapchain.render_targets@.len()
                &&& final(self).swapchain.current_back_buffer == ((old(self).swapchain.current_back_buffer + 1) as int) % (old(self).swapchain.render_targets@.len() as int)
                &&& final(self).frame_data.slots().len() == slots.len()
                &&& final(self).frame_data.current_index() == next_index(index, slots.len())
                &&& final(self).frame_data.slots()[index as int].free_list@
                    == textures_delta.free@
                &&& final(self).egui_renderer.draw_count == live.len()
                &&& forall|id: u64|
                    #[trigger] final(self).egui_renderer.texture_manager.textures@.contains_key(id)
                        <==> ((old(self).egui_renderer.texture_manager.textures@.contains_key(id)
                        && !frees_id(old_free, old_free.len() as int, id)) || upserts_id(
                        textures_delta.set@,
                        textures_delta.set@.len() as int,
                        id,
                    ))
                &&& exists|user_commands: Seq<GpuCommand>|
                    final(self).lib.queue.executed@ == (old(self).lib.queue.executed@
                        + upsert_submissions(
                        textures_delta.set@,
                        textures_delta.set@.len() as int,
                        Set::new(
                            |id: u64|
                                old(self).egui_renderer.texture_manager.textures@.contains_key(id)
                                    && !frees_id(old_free, old_free.len() as int, id),
                        ),
                    )).push(
                        seq![
                            GpuCommand::Transition(
                                TransitionBarrier {
                                    before: ResourceState::Present,
                                    after: ResourceState::RenderTarget,
                                },
                            ),
                        ] + user_commands + overlay_draw_commands(
                            final(self).egui_renderer.meshes@,
                            live.len() as int,
                            old(self).spec_frame_resources(),
                        ) + seq![
                            GpuCommand::Transition(
                                TransitionBarrier {
                                    before: ResourceState::RenderTarget,
                                    after: ResourceState::Present,
                                },
                            ),
                        ],
                    )
            },
    {
        let ghost old_index = old(self).frame_data.current_index();
        let frame_resources = self.begin_frame(primitives, textures_delta)?;

        let ghost pre_app_commands =
            self.frame_data.slots()[old_index as int].command_list.commands@;
        let app_result = {
            let slot = self.frame_data.get_current_mut();
            self.app.draw(&mut slot.command_list, &frame_resources)
        };
        let ghost post_app_commands =
            self.frame_data.slots()[old_index as int].command_list.commands@;
        proof {
            assert(pre_app_commands.is_prefix_of(post_app_commands) || app_result is Err);
        }

        let r = self.finish_frame(&frame_resources, app_result);
        proof {
            if r is Ok {
                let user_commands = post_app_commands.subrange(1, post_app_commands.len() as int);
                assert(post_app_commands =~= seq![
                    GpuCommand::Transition(
                        TransitionBarrier {
                            before: ResourceState::Present,
                            after: ResourceState::RenderTarget,
                        },
                    ),
                ] + user_commands);
            }
        }
        r
    }
}

} // verus!
