//! The overlay renderer: keeps GPU-side vertex and index buffers for the
//! UI toolkit's tessellated primitives and a cache of its textures, and
//! records the draw pass that composites the overlay above the
//! application's output.
//!
//! Primitive slots are recycled positionally across frames.  A slot's
//! buffers grow exactly to the incoming primitive and never shrink;
//! slots beyond this frame's live count keep their buffers allocated but
//! unused.  Texture upserts and frees arrive as a delta per recorded
//! frame; the previous frame's free list is applied before the upserts,
//! so a texture id freed and immediately reused is safely recreated, and
//! this frame's free list is returned to be applied one frame later.

use vstd::prelude::*;

use crate::GpuError;
use crate::command_list::{CommandList, GpuCommand};
use crate::gpulib::{GpuDevice, GpuQueue};
use crate::texture_manager::{
    ImageDelta, SrvDescriptorHeap, TextureId, TextureManager, managed_count, frees_id,
    spec_aligned_row_pitch, upserts_id,
};
use crate::vector_constant_buffer::{BufferLocation, IndexFormat, VectorConstantBuffer};
use crate::FrameResources;

verus! {

/// One vertex of the overlay: the bit patterns of the toolkit's
/// two-dimensional position, texture coordinates, and packed color.  The
/// renderer moves vertices; it never interprets them.
#[derive(Clone, Copy, Debug, PartialEq, Eq, Structural)]
pub struct OverlayVertex {
    pub x_bits: u32,
    pub y_bits: u32,
    pub u_bits: u32,
    pub v_bits: u32,
    pub color: u32,
}

/// One tessellated mesh handed over by the UI toolkit.
pub struct MeshPrimitive {
    pub indices: Vec<u32>,
    pub vertices: Vec<OverlayVertex>,
    pub texture_id: TextureId,
}

/// One clipped primitive of the tessellated UI.  Paint callbacks are not
/// supported yet and are silently skipped.
pub enum ClippedPrimitive {
    Mesh(MeshPrimitive),
    Callback,
}

/// The texture changes of one recorded UI frame: upserts to apply this
/// frame, and ids whose free must be deferred by one frame.
pub struct TexturesDelta {
    pub set: Vec<(TextureId, ImageDelta)>,
    pub free: Vec<TextureId>,
}

/// Every managed upsert of the delta carries a well-formed image whose
/// aligned upload fits the address space.
pub open spec fn textures_delta_wf(delta: &TexturesDelta) -> bool {
    forall|i: int|
        0 <= i < delta.set@.len() && (#[trigger] delta.set@[i].0) is Managed ==> {
            &&& delta.set@[i].1.image.wf()
            &&& spec_aligned_row_pitch(delta.set@[i].1.image.width as nat) <= usize::MAX
            &&& delta.set@[i].1.image.height * spec_aligned_row_pitch(
                delta.set@[i].1.image.width as nat,
            ) <= usize::MAX
        }
}

/// The root signature of the overlay pipeline: four 32-bit root
/// constants (the pixel-space transform) and one texture descriptor
/// table, with one static sampler.
#[derive(Clone, Copy, Debug, PartialEq, Eq, Structural)]
pub struct RootSignature {
    pub num_root_constants: u32,
    pub num_descriptor_tables: u32,
    pub num_static_samplers: u32,
}

/// The overlay's graphics pipeline configuration: three vertex input
/// elements (position, texture coordinates, color) blended onto one
/// render target.
#[derive(Clone, Copy, Debug, PartialEq, Eq, Structural)]
pub struct PipelineState {
    pub num_input_elements: u32,
    pub num_render_targets: u32,
}

/// One primitive slot: the grown-on-demand buffers and the texture the
/// slot's last primitive sampled.
pub struct EguiMesh {
    pub index_buffer: VectorConstantBuffer<u32>,
    pub vertex_buffer: VectorConstantBuffer<OverlayVertex>,
    pub texture: u64,
}

/// The meshes of the first `n` primitives that the renderer can draw:
/// the tessellated meshes with a managed texture, in order.  Paint
/// callbacks and user-texture meshes occupy no slot.
pub open spec fn live_meshes(prims: Seq<ClippedPrimitive>, n: int) -> Seq<MeshPrimitive>
    decreases n,
{
    if n <= 0 {
        Seq::empty()
    } else {
        let rest = live_meshes(prims, n - 1);
        match prims[n - 1] {
            ClippedPrimitive::Mesh(m) => if m.texture_id is Managed {
                rest.push(m)
            } else {
                rest
            },
            ClippedPrimitive::Callback => rest,
        }
    }
}

/// Taking more primitives never removes or reorders earlier live meshes.
pub proof fn lemma_live_meshes_prefix(prims: Seq<ClippedPrimitive>, n1: int, n2: int)
    requires
        0 <= n1 <= n2,
    ensures
        live_meshes(prims, n1).len() <= live_meshes(prims, n2).len(),
        forall|k: int|
            0 <= k < live_meshes(prims, n1).len() ==> live_meshes(prims, n2)[k] == live_meshes(
                prims,
                n1,
            )[k],
    decreases n2 - n1,
{
    if n1 < n2 {
        lemma_live_meshes_prefix(prims, n1, n2 - 1);
    }
}

/// A texture id that is no longer in the cache cannot be dereferenced by
/// any command whose recorded references all point into the cache: once
/// a frame's free list has been applied and the id was not re-upserted,
/// no command recorded in or after that frame reaches it.  Keeping the
/// id alive for the one frame that may still reference it is exactly
/// what the deferred free list is for.
pub proof fn lemma_freed_texture_not_referenced(
    textures: Map<u64, crate::texture_manager::TextureEntry>,
    cmds: Seq<GpuCommand>,
    id: u64,
)
    requires
        forall|j: int, t: u64|
            #![trigger crate::command_list::command_references_texture(cmds[j], t)]
            0 <= j < cmds.len() && crate::command_list::command_references_texture(cmds[j], t)
                ==> textures.contains_key(t),
        !textures.contains_key(id),
    ensures
        forall|j: int|
            0 <= j < cmds.len() ==> !crate::command_list::command_references_texture(cmds[j], id),
{
}

/// The fixed preamble of the overlay draw pass: output and clip state,
/// the overlay pipeline, and the pixel-space transform derived from the
/// viewport.
pub open spec fn overlay_setup_commands(frame_resources: FrameResources) -> Seq<GpuCommand> {
    seq![
        GpuCommand::SetRenderTargets { handle: frame_resources.render_target_handle },
        GpuCommand::SetViewports { viewport: frame_resources.viewport },
        GpuCommand::SetScissorRects { scissor: frame_resources.scissor },
        GpuCommand::SetRootSignature,
        GpuCommand::SetPipelineState,
        GpuCommand::SetPrimitiveTopology,
        GpuCommand::SetPixelSpaceTransform {
            width: frame_resources.viewport.width,
            height: frame_resources.viewport.height,
        },
    ]
}

/// The five commands that draw one live slot: bind its texture's heap
/// and table, bind its buffers, and issue the indexed draw.
pub open spec fn overlay_mesh_commands(slot: EguiMesh) -> Seq<GpuCommand> {
    seq![
        GpuCommand::BindTextureHeap { texture: slot.texture },
        GpuCommand::BindTextureTable { texture: slot.texture },
        GpuCommand::SetVertexBuffer { vertex_view: slot.vertex_buffer.spec_vertex_buffer_view() },
        GpuCommand::SetIndexBuffer {
            index_view: slot.index_buffer.spec_index_buffer_view(IndexFormat::U32),
        },
        GpuCommand::DrawIndexed { index_count: slot.index_buffer.contents@.len() as u32 },
    ]
}

/// The whole overlay draw pass over the first `n` slots: the preamble,
/// then each live slot's commands in slot order.
pub open spec fn overlay_draw_commands(
    meshes: Seq<EguiMesh>,
    n: int,
    frame_resources: FrameResources,
) -> Seq<GpuCommand>
    decreases n,
{
    if n <= 0 {
        overlay_setup_commands(frame_resources)
    } else {
        overlay_draw_commands(meshes, n - 1, frame_resources) + overlay_mesh_commands(
            meshes[n - 1],
        )
    }
}

/// The overlay renderer.
pub struct EguiRenderer {
    pub texture_manager: TextureManager,
    /// The texture delta of the frame recorded last, not yet applied.
    pub textures_delta: TexturesDelta,
    /// The primitive slots; only the first `draw_count` are live.
    pub meshes: Vec<EguiMesh>,
    /// How many slots this frame's primitives filled.  Stale slots
    /// beyond it keep their buffers but are not drawn.
    pub draw_count: usize,
    pub root_signature: RootSignature,
    pub pipeline: PipelineState,
}

impl EguiRenderer {
    /// Every slot's buffers are well formed, the live count never
    /// exceeds the slot count, the texture cache is consistent, and the
    /// pending delta's images are usable.
    pub open spec fn wf(&self) -> bool {
        &&& self.draw_count <= self.meshes@.len()
        &&& forall|k: int|
            0 <= k < self.meshes@.len() ==> (#[trigger] self.meshes@[k]).index_buffer.wf()
                && self.meshes@[k].vertex_buffer.wf()
        &&& self.texture_manager.wf()
        &&& textures_delta_wf(&self.textures_delta)
    }

    /// Builds the root signature of the overlay pipeline: root parameter
    /// zero holds the four 32-bit constants of the pixel-space
    /// transform, root parameter one the texture table, and a single
    /// static bilinear sampler serves the pixel shader.
    pub fn create_root_signature(_device: &GpuDevice) -> (r: Result<RootSignature, GpuError>)
        ensures
            r is Ok,
            r->Ok_0 == (RootSignature {
                num_root_constants: 4,
                num_descriptor_tables: 1,
                num_static_samplers: 1,
            }),
    {
        Ok(RootSignature { num_root_constants: 4, num_descriptor_tables: 1, num_static_samplers: 1 })
    }

    /// Builds the overlay's pipeline configuration: three per-vertex
    /// input elements, premultiplied-alpha blending onto a single
    /// render target.  Compiling the overlay's shaders is the shader
    /// toolchain's business, done before the scaffold runs.
    pub fn create_pipeline(_device: &GpuDevice, _root_signature: &RootSignature) -> (r: Result<
        PipelineState,
        GpuError,
    >)
        ensures
            r is Ok,
            r->Ok_0 == (PipelineState { num_input_elements: 3, num_render_targets: 1 }),
    {
        Ok(PipelineState { num_input_elements: 3, num_render_targets: 1 })
    }

    /// Creates the overlay renderer with an empty texture cache, no
    /// primitive slots, and an empty pending delta.
    pub fn new(device: &GpuDevice) -> (r: Result<EguiRenderer, GpuError>)
        ensures
            r is Ok,
            r->Ok_0.wf(),
            r->Ok_0.meshes@.len() == 0,
            r->Ok_0.draw_count == 0,
            r->Ok_0.textures_delta.set@.len() == 0,
            r->Ok_0.textures_delta.free@.len() == 0,
            r->Ok_0.texture_manager.textures@ == Map::<
                u64,
                crate::texture_manager::TextureEntry,
            >::empty(),
    {
        let root_signature = Self::create_root_signature(device)?;
        let pipeline = Self::create_pipeline(device, &root_signature)?;
        let texture_manager = TextureManager::new(device)?;
        Ok(
            EguiRenderer {
                texture_manager,
                textures_delta: TexturesDelta { set: Vec::new(), free: Vec::new() },
                meshes: Vec::new(),
                draw_count: 0,
                root_signature,
                pipeline,
            },
        )
    }

    /// Stores the tessellated output of one recorded UI frame: fills the
    /// primitive slots from the clipped primitives and keeps the frame's
    /// texture delta for `apply_texture_delta`.
    pub fn record(
        &mut self,
        device: &GpuDevice,
        primitives: &[ClippedPrimitive],
        textures_delta: TexturesDelta,
    ) -> (r: Result<(), GpuError>)
        requires
            old(self).wf(),
            textures_delta_wf(&textures_delta),
        ensures
            final(self).wf(),
            final(self).texture_manager == old(self).texture_manager,
            r is Err ==> r->Err_0 == GpuError::ResourceTooLarge && final(self).textures_delta
                == old(self).textures_delta && final(self).draw_count == old(self).draw_count,
            (forall|k: int|
                0 <= k < live_meshes(primitives@, primitives@.len() as int).len() ==> {
                    let m = #[trigger] live_meshes(primitives@, primitives@.len() as int)[k];
                    &&& m.indices@.len() * vstd::layout::size_of::<u32>() <= usize::MAX
                    &&& m.vertices@.len() * vstd::layout::size_of::<OverlayVertex>() <= usize::MAX
                }) ==> r is Ok,
            r is Ok ==> {
                let live = live_meshes(primitives@, primitives@.len() as int);
                &&& final(self).textures_delta == textures_delta
                &&& final(self).draw_count == live.len()
                &&& final(self).meshes@.len() == if live.len() > old(self).meshes@.len() {
                    live.len() as int
                } else {
                    old(self).meshes@.len() as int
                }
                &&& forall|k: int|
                    0 <= k < live.len() ==> {
                        let slot = #[trigger] final(self).meshes@[k];
                        &&& slot.texture == live[k].texture_id->Managed_0
                        &&& slot.index_buffer.contents@ == live[k].indices@
                        &&& slot.vertex_buffer.contents@ == live[k].vertices@
                    }
                &&& forall|k: int|
                    live.len() <= k < old(self).meshes@.len() ==> #[trigger] final(self).meshes@[k]
                        == old(self).meshes@[k]
                &&& forall|k: int|
                    0 <= k < live.len() && k < old(self).meshes@.len() ==> {
                        &&& (#[trigger] final(self).meshes@[k]).index_buffer.max_size >= old(self).meshes@[k].index_buffer.max_size
                        &&& final(self).meshes@[k].vertex_buffer.max_size >= old(self).meshes@[k].vertex_buffer.max_size
                    }
            },
    {
        self.update_primitives(device, primitives)?;
        self.textures_delta = textures_delta;
        Ok(())
    }

    /// Fills the primitive slots from this frame's clipped primitives:
    /// ensures a slot with its pair of buffers exists per drawable
    /// primitive, grows the buffers exactly to the primitive when they
    /// are too small, uploads the new contents, and remembers how many
    /// slots are live.
    fn update_primitives(&mut self, device: &GpuDevice, primitives: &[ClippedPrimitive]) -> (r:
        Result<(), GpuError>)
        requires
            old(self).wf(),
        ensures
            final(self).wf(),
            final(self).texture_manager == old(self).texture_manager,
            final(self).textures_delta == old(self).textures_delta,
            r is Err ==> r->Err_0 == GpuError::ResourceTooLarge && final(self).draw_count == old(self).draw_count,
            (forall|k: int|
                0 <= k < live_meshes(primitives@, primitives@.len() as int).len() ==> {
                    let m = #[trigger] live_meshes(primitives@, primitives@.len() as int)[k];
                    &&& m.indices@.len() * vstd::layout::size_of::<u32>() <= usize::MAX
                    &&& m.vertices@.len() * vstd::layout::size_of::<OverlayVertex>() <= usize::MAX
                }) ==> r is Ok,
            r is Ok ==> {
                let live = live_meshes(primitives@, primitives@.len() as int);
                &&& final(self).draw_count == live.len()
                &&& final(self).meshes@.len() == if live.len() > old(self).meshes@.len() {
                    live.len() as int
                } else {
                    old(self).meshes@.len() as int
                }
                &&& forall|k: int|
                    0 <= k < live.len() ==> {
                        let slot = #[trigger] final(self).meshes@[k];
                        &&& slot.texture == live[k].texture_id->Managed_0
                        &&& slot.index_buffer.contents@ == live[k].indices@
                        &&& slot.vertex_buffer.contents@ == live[k].vertices@
                    }
                &&& forall|k: int|
                    live.len() <= k < old(self).meshes@.len() ==> #[trigger] final(self).meshes@[k]
                        == old(self).meshes@[k]
                &&& forall|k: int|
                    0 <= k < live.len() && k < old(self).meshes@.len() ==> {
                        &&& (#[trigger] final(self).meshes@[k]).index_buffer.max_size >= old(self).meshes@[k].index_buffer.max_size
                        &&& final(self).meshes@[k].vertex_buffer.max_size >= old(self).meshes@[k].vertex_buffer.max_size
                    }
            },
    {
        let ghost old_meshes = old(self).meshes@;
        let ghost prims = primitives@;
        let mut slot: usize = 0;
        let mut i: usize = 0;
        while i < primitives.len()
            invariant
                i <= prims.len(),
                prims == primitives@,
                slot <= i,
                slot == live_meshes(prims, i as int).len(),
                slot <= self.meshes@.len(),
                self.meshes@.len() == if slot > old_meshes.len() {
                    slot as int
                } else {
                    old_meshes.len() as int
                },
                self.draw_count == old(self).draw_count,
                self.draw_count <= old_meshes.len(),
                self.texture_manager == old(self).texture_manager,
                self.textures_delta == old(self).textures_delta,
                self.texture_manager.wf(),
                textures_delta_wf(&self.textures_delta),
                forall|k: int|
                    0 <= k < self.meshes@.len() ==> (#[trigger] self.meshes@[k]).index_buffer.wf()
                        && self.meshes@[k].vertex_buffer.wf(),
                forall|k: int|
                    0 <= k < slot ==> {
                        let s = #[trigger] self.meshes@[k];
                        &&& s.texture == live_meshes(prims, i as int)[k].texture_id->Managed_0
                        &&& s.index_buffer.contents@ == live_meshes(prims, i as int)[k].indices@
                        &&& s.vertex_buffer.contents@ == live_meshes(prims, i as int)[k].vertices@
                    },
                forall|k: int|
                    slot <= k < old_meshes.len() ==> #[trigger] self.meshes@[k] == old_meshes[k],
                forall|k: int|
                    0 <= k < slot && k < old_meshes.len() ==> {
                        &&& (#[trigger] self.meshes@[k]).index_buffer.max_size
                            >= old_meshes[k].index_buffer.max_size
                        &&& self.meshes@[k].vertex_buffer.max_size
                            >= old_meshes[k].vertex_buffer.max_size
                    },
            decreases prims.len() - i,
        {
            let ghost live_before = live_meshes(prims, i as int);
            match &primitives[i] {
                ClippedPrimitive::Callback => {},
                ClippedPrimitive::Mesh(m) => {
                    match m.texture_id {
                        TextureId::User(_) => {},
                        TextureId::Managed(texture) => {
                            proof {
                                lemma_live_meshes_prefix(prims, i as int, i + 1);
                                assert(live_meshes(prims, i + 1) == live_before.push(
                                    prims[i as int]->Mesh_0,
                                ));
                                lemma_live_meshes_prefix(prims, i + 1, prims.len() as int);
                                assert(live_meshes(prims, i + 1)[slot as int] == prims[i as int]->Mesh_0);
                                assert(slot < live_meshes(prims, prims.len() as int).len());
                                assert(live_meshes(prims, prims.len() as int)[slot as int]
                                    == prims[i as int]->Mesh_0);
                            }
                            if self.meshes.len() == slot {
                                let index_buffer = VectorConstantBuffer::new(
                                    device,
                                    m.indices.len(),
                                    BufferLocation::GpuUpload,
                                    None,
                                )?;
                                let vertex_buffer = VectorConstantBuffer::new(
                                    device,
                                    m.vertices.len(),
                                    BufferLocation::GpuUpload,
                                    None,
                                )?;
                                self.meshes.push(
                                    EguiMesh { index_buffer, vertex_buffer, texture },
                                );
                            }
                            let mesh = &mut self.meshes[slot];
                            mesh.texture = texture;
                            mesh.index_buffer.upload(device, m.indices.as_slice())?;
                            mesh.vertex_buffer.upload(device, m.vertices.as_slice())?;
                            slot += 1;
                        },
                    }
                },
            }
            proof {
                if !(prims[i as int] matches ClippedPrimitive::Mesh(m)
                    && m.texture_id is Managed) {
                    assert(live_meshes(prims, i + 1) == live_before);
                }
            }
            i += 1;
        }
        self.draw_count = slot;
        proof {
            lemma_live_meshes_prefix(prims, i as int, prims.len() as int);
        }
        Ok(())
    }

    /// Applies the previous frame's deferred texture frees, then this
    /// frame's texture upserts — in that order, so a texture id freed
    /// and immediately reused is recreated — and hands back this frame's
    /// free list, to be applied one frame later.  The returned list is
    /// exactly the recorded delta's free list.
    pub fn apply_texture_delta(
        &mut self,
        device: &GpuDevice,
        queue: &mut GpuQueue,
        free_list: &[TextureId],
    ) -> (r: Result<Vec<TextureId>, GpuError>)
        requires
            old(self).wf(),
        ensures
            r is Ok,
            final(self).wf(),
            r->Ok_0@ == old(self).textures_delta.free@,
            final(self).textures_delta.free@.len() == 0,
            final(self).textures_delta.set@ == old(self).textures_delta.set@,
            final(self).meshes@ == old(self).meshes@,
            final(self).draw_count == old(self).draw_count,
            forall|id: u64|
                #[trigger] final(self).texture_manager.textures@.contains_key(id) <==> ((old(self).texture_manager.textures@.contains_key(id) && !frees_id(
                    free_list@,
                    free_list@.len() as int,
                    id,
                )) || upserts_id(
                    old(self).textures_delta.set@,
                    old(self).textures_delta.set@.len() as int,
                    id,
                )),
            forall|id: u64|
                old(self).texture_manager.textures@.contains_key(id) && !frees_id(
                    free_list@,
                    free_list@.len() as int,
                    id,
                ) ==> #[trigger] final(self).texture_manager.textures@[id] == old(self).texture_manager.textures@[id],
            final(queue).executed@ == old(queue).executed@
                + crate::texture_manager::upsert_submissions(
                old(self).textures_delta.set@,
                old(self).textures_delta.set@.len() as int,
                Set::new(
                    |id: u64|
                        old(self).texture_manager.textures@.contains_key(id) && !frees_id(
                            free_list@,
                            free_list@.len() as int,
                            id,
                        ),
                ),
            ),
            final(queue).executed@.len() == old(queue).executed@.len() + managed_count(
                old(self).textures_delta.set@,
                old(self).textures_delta.set@.len() as int,
            ),
    {
        self.texture_manager.free(free_list);
        let ghost mid = self.texture_manager.textures@;
        proof {
            assert(mid.dom() =~= Set::new(
                |id: u64|
                    old(self).texture_manager.textures@.contains_key(id) && !frees_id(
                        free_list@,
                        free_list@.len() as int,
                        id,
                    ),
            ));
        }
        self.texture_manager.set(device, queue, self.textures_delta.set.as_slice())?;
        proof {
            assert forall|id: u64|
                old(self).texture_manager.textures@.contains_key(id) && !frees_id(
                    free_list@,
                    free_list@.len() as int,
                    id,
                ) implies #[trigger] self.texture_manager.textures@[id] == old(
                self,
            ).texture_manager.textures@[id] by {
                assert(mid.contains_key(id));
                assert(mid[id] == old(self).texture_manager.textures@[id]);
                assert(self.texture_manager.textures@[id] == mid[id]);
            }
        }
        let mut deferred: Vec<TextureId> = Vec::new();
        core::mem::swap(&mut self.textures_delta.free, &mut deferred);
        Ok(deferred)
    }

    /// Whether every texture a live slot samples is still in the cache.
    /// The frame orchestrator checks this after applying the texture
    /// delta and reports a missing texture as a hazard instead of
    /// recording a dangling reference.
    pub fn textures_available(&self) -> (r: bool)
        requires
            self.wf(),
        ensures
            r == forall|k: int|
                0 <= k < self.draw_count ==> self.texture_manager.textures@.contains_key(
                    (#[trigger] self.meshes@[k]).texture,
                ),
    {
        let mut k: usize = 0;
        while k < self.draw_count
            invariant
                self.wf(),
                k <= self.draw_count,
                forall|j: int|
                    0 <= j < k ==> self.texture_manager.textures@.contains_key(
                        (#[trigger] self.meshes@[j]).texture,
                    ),
            decreases self.draw_count - k,
        {
            match self.texture_manager.get_descriptor_heap(self.meshes[k].texture) {
                Some(_) => {},
                None => {
                    return false;
                },
            }
            k += 1;
        }
        true
    }

    /// Records the overlay draw pass: binds the pixel-space transform
    /// derived from the viewport, then draws each live slot with its
    /// texture's descriptor heap and its buffers.  Every texture a live
    /// slot samples must still be cached: the one-frame deferral of
    /// frees guarantees it, and this contract is where that guarantee is
    /// consumed.
    pub fn draw(&self, list: &mut CommandList, frame_resources: &FrameResources)
        requires
            self.wf(),
            old(list).state is Recording,
            forall|k: int|
                0 <= k < self.draw_count ==> self.texture_manager.textures@.contains_key(
                    (#[trigger] self.meshes@[k]).texture,
                ),
            forall|k: int|
                0 <= k < self.draw_count ==> (#[trigger] self.meshes@[k]).index_buffer.contents@.len()
                    <= u32::MAX,
        ensures
            final(list).state is Recording,
            final(list).commands@ == old(list).commands@ + overlay_draw_commands(
                self.meshes@,
                self.draw_count as int,
                *frame_resources,
            ),
            final(list).commands@.len() == old(list).commands@.len() + 7 + 5 * self.draw_count,
            final(list).commands@.subrange(0, old(list).commands@.len() as int) == old(list).commands@,
            final(list).commands@[old(list).commands@.len() as int] == (GpuCommand::SetRenderTargets {
                handle: frame_resources.render_target_handle,
            }),
            final(list).commands@[old(list).commands@.len() as int + 1] == (GpuCommand::SetViewports {
                viewport: frame_resources.viewport,
            }),
            final(list).commands@[old(list).commands@.len() as int + 2] == (GpuCommand::SetScissorRects {
                scissor: frame_resources.scissor,
            }),
            final(list).commands@[old(list).commands@.len() as int + 3] == GpuCommand::SetRootSignature,
            final(list).commands@[old(list).commands@.len() as int + 4] == GpuCommand::SetPipelineState,
            final(list).commands@[old(list).commands@.len() as int + 5]
                == GpuCommand::SetPrimitiveTopology,
            final(list).commands@[old(list).commands@.len() as int + 6]
                == (GpuCommand::SetPixelSpaceTransform {
                width: frame_resources.viewport.width,
                height: frame_resources.viewport.height,
            }),
            forall|k: int|
                0 <= k < self.draw_count ==> {
                    let base = old(list).commands@.len() + 7 + 5 * k;
                    let slot = #[trigger] self.meshes@[k];
                    &&& final(list).commands@[base] == (GpuCommand::BindTextureHeap {
                        texture: slot.texture,
                    })
                    &&& final(list).commands@[base + 1] == (GpuCommand::BindTextureTable {
                        texture: slot.texture,
                    })
                    &&& final(list).commands@[base + 2] == (GpuCommand::SetVertexBuffer {
                        vertex_view: slot.vertex_buffer.spec_vertex_buffer_view(),
                    })
                    &&& final(list).commands@[base + 3] == (GpuCommand::SetIndexBuffer {
                        index_view: slot.index_buffer.spec_index_buffer_view(IndexFormat::U32),
                    })
                    &&& final(list).commands@[base + 4] == (GpuCommand::DrawIndexed {
                        index_count: slot.index_buffer.contents@.len() as u32,
                    })
                },
            forall|j: int, id: u64|
                #![trigger crate::command_list::command_references_texture(final(list).commands@[j], id)]
                old(list).commands@.len() <= j < final(list).commands@.len()
                    && crate::command_list::command_references_texture(
                    final(list).commands@[j],
                    id,
                ) ==> self.texture_manager.textures@.contains_key(id),
    {
        let ghost base_len = old(list).commands@.len();
        list.record(
            GpuCommand::SetRenderTargets { handle: frame_resources.render_target_handle },
        );
        list.record(GpuCommand::SetViewports { viewport: frame_resources.viewport });
        list.record(GpuCommand::SetScissorRects { scissor: frame_resources.scissor });
        list.record(GpuCommand::SetRootSignature);
        list.record(GpuCommand::SetPipelineState);
        list.record(GpuCommand::SetPrimitiveTopology);
        list.record(
            GpuCommand::SetPixelSpaceTransform {
                width: frame_resources.viewport.width,
                height: frame_resources.viewport.height,
            },
        );
        proof {
            assert(list.commands@ =~= old(list).commands@ + overlay_draw_commands(
                self.meshes@,
                0,
                *frame_resources,
            ));
        }

        let mut draw_index: usize = 0;
        while draw_index < self.draw_count
            invariant
                self.wf(),
                forall|k: int|
                    0 <= k < self.draw_count ==> self.texture_manager.textures@.contains_key(
                        (#[trigger] self.meshes@[k]).texture,
                    ),
                forall|k: int|
                    0 <= k < self.draw_count ==> (#[trigger] self.meshes@[k]).index_buffer.contents@.len()
                        <= u32::MAX,
                draw_index <= self.draw_count,
                list.state is Recording,
                list.commands@ == old(list).commands@ + overlay_draw_commands(
                    self.meshes@,
                    draw_index as int,
                    *frame_resources,
                ),
                list.commands@.len() == base_len + 7 + 5 * draw_index,
                list.commands@.subrange(0, base_len as int) == old(list).commands@,
                list.commands@[base_len as int] == (GpuCommand::SetRenderTargets {
                    handle: frame_resources.render_target_handle,
                }),
                list.commands@[base_len as int + 1] == (GpuCommand::SetViewports {
                    viewport: frame_resources.viewport,
                }),
                list.commands@[base_len as int + 2] == (GpuCommand::SetScissorRects {
                    scissor: frame_resources.scissor,
                }),
                list.commands@[base_len as int + 3] == GpuCommand::SetRootSignature,
                list.commands@[base_len as int + 4] == GpuCommand::SetPipelineState,
                list.commands@[base_len as int + 5] == GpuCommand::SetPrimitiveTopology,
                list.commands@[base_len as int + 6] == (GpuCommand::SetPixelSpaceTransform {
                    width: frame_resources.viewport.width,
                    height: frame_resources.viewport.height,
                }),
                forall|k: int|
                    0 <= k < draw_index ==> {
                        let base = base_len + 7 + 5 * k;
                        let slot = #[trigger] self.meshes@[k];
                        &&& list.commands@[base] == (GpuCommand::BindTextureHeap {
                            texture: slot.texture,
                        })
                        &&& list.commands@[base + 1] == (GpuCommand::BindTextureTable {
                            texture: slot.texture,
                        })
                        &&& list.commands@[base + 2] == (GpuCommand::SetVertexBuffer {
                            vertex_view: slot.vertex_buffer.spec_vertex_buffer_view(),
                        })
                        &&& list.commands@[base + 3] == (GpuCommand::SetIndexBuffer {
                            index_view: slot.index_buffer.spec_index_buffer_view(IndexFormat::U32),
                        })
                        &&& list.commands@[base + 4] == (GpuCommand::DrawIndexed {
                            index_count: slot.index_buffer.contents@.len() as u32,
                        })
                    },
                forall|j: int, id: u64|
                    #![trigger crate::command_list::command_references_texture(list.commands@[j], id)]
                    base_len <= j < list.commands@.len()
                        && crate::command_list::command_references_texture(
                        list.commands@[j],
                        id,
                    ) ==> self.texture_manager.textures@.contains_key(id),
            decreases self.draw_count - draw_index,
        {
            let mesh = &self.meshes[draw_index];
            let texture = match self.texture_manager.get_descriptor_heap(mesh.texture) {
                Some(heap) => *heap,
                None => {
                    proof {
                        assert(false);
                    }
                    SrvDescriptorHeap { texture: 0 }
                },
            };
            list.record(GpuCommand::BindTextureHeap { texture: texture.texture });
            list.record(GpuCommand::BindTextureTable { texture: texture.texture });
            list.record(
                GpuCommand::SetVertexBuffer { vertex_view: mesh.vertex_buffer.vertex_buffer_view() },
            );
            list.record(
                GpuCommand::SetIndexBuffer {
                    index_view: mesh.index_buffer.index_buffer_view(IndexFormat::U32),
                },
            );
            list.record(
                GpuCommand::DrawIndexed { index_count: mesh.index_buffer.len() as u32 },
            );
            proof {
                assert(list.commands@ =~= old(list).commands@ + overlay_draw_commands(
                    self.meshes@,
                    draw_index + 1,
                    *frame_resources,
                ));
            }
            draw_index += 1;
        }
    }
}

} // verus!
