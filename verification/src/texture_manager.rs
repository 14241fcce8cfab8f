//! The texture cache of the overlay renderer.  Each cached texture is a
//! GPU resource plus a single-descriptor shader-visible heap, keyed by
//! the toolkit's numeric texture identifier.  An upsert copies image rows
//! into an upload buffer with a 256-byte-aligned row pitch and records a
//! GPU copy wrapped in resource-state transitions; each upload is
//! submitted and fenced on its own, trading throughput for simplicity.
//! A free removes the entry outright: not destroying a texture still
//! referenced by an in-flight frame is the caller's business, done by
//! deferring the free by one frame.

use vstd::prelude::*;

use std::collections::HashMap;

use crate::GpuError;
use crate::command_list::{CommandAllocator, CommandList, GpuCommand};
use crate::gpulib::{Fence, GpuDevice, GpuQueue};
use crate::resource::{GpuTexture, ResourceState, transition};

verus! {

broadcast use vstd::std_specs::hash::group_hash_axioms;

/// Upload row pitches are aligned to this many bytes.
pub const TEXTURE_PITCH_ALIGNMENT: u64 = 256;

/// A texture identifier of the UI toolkit: either managed by the toolkit
/// or supplied by the user.  User textures are not supported yet and are
/// silently skipped wherever they appear.
#[derive(Clone, Copy, Debug, PartialEq, Eq, Structural)]
pub enum TextureId {
    Managed(u64),
    User(u64),
}

/// An image in tightly packed 8-bit RGBA rows.
pub struct ImageData {
    pub width: u32,
    pub height: u32,
    pub bytes: Vec<u8>,
}

impl ImageData {
    /// Four bytes per texel, rows packed without padding.
    pub open spec fn wf(&self) -> bool {
        self.bytes@.len() == 4 * self.width * self.height
    }
}

/// An upsert of one texture: the image to copy and where to place it,
/// defaulting to the texture's origin.
pub struct ImageDelta {
    pub image: ImageData,
    pub pos: Option<(u32, u32)>,
}

/// A shader-visible descriptor heap holding the single resource view of
/// one cached texture.
#[derive(Clone, Copy, Debug, PartialEq, Eq, Structural)]
pub struct SrvDescriptorHeap {
    pub texture: u64,
}

/// One cached texture: the GPU resource and its descriptor heap.
pub struct TextureEntry {
    pub texture: GpuTexture,
    pub heap: SrvDescriptorHeap,
}

/// The destination row stride of an upload: the texel row rounded up to
/// the pitch alignment.
pub open spec fn spec_aligned_row_pitch(width: nat) -> nat {
    ((4 * width + 255) / 256) * 256
}

/// The row pitch is the least multiple of the alignment that holds a
/// texel row.
pub proof fn lemma_aligned_row_pitch_properties(width: nat)
    ensures
        spec_aligned_row_pitch(width) % 256 == 0,
        spec_aligned_row_pitch(width) >= 4 * width,
        spec_aligned_row_pitch(width) < 4 * width + 256,
{
    let row: int = 4 * (width as int);
    let q: int = (row + 255) / 256;
    vstd::arithmetic::div_mod::lemma_fundamental_div_mod(row + 255, 256);
    let rem: int = (row + 255) % 256;
    vstd::arithmetic::div_mod::lemma_mod_bound(row + 255, 256);
    assert(q * 256 == row + 255 - rem);
    vstd::arithmetic::div_mod::lemma_mod_multiples_basic(q, 256);
}

/// A two-dimensional index flattened with a row stride stays below the
/// flattened bound of its row count.
pub proof fn lemma_flat_index_bound(r: int, c: int, rows: int, stride: int)
    requires
        0 <= r < rows,
        0 <= c < stride,
    ensures
        0 <= r * stride + c < rows * stride,
{
    assert(0 <= r * stride + c < rows * stride) by (nonlinear_arith)
        requires
            0 <= r < rows,
            0 <= c < stride,
    ;
}

/// Computes the aligned row pitch for a `width`-texel row.
pub fn aligned_row_pitch(width: u32) -> (r: u64)
    ensures
        r == spec_aligned_row_pitch(width as nat),
{
    ((4 * (width as u64) + (TEXTURE_PITCH_ALIGNMENT - 1)) / TEXTURE_PITCH_ALIGNMENT)
        * TEXTURE_PITCH_ALIGNMENT
}

/// Whether the first `n` entries of a free list free the managed id.
pub open spec fn frees_id(list: Seq<TextureId>, n: int, id: u64) -> bool {
    exists|i: int| 0 <= i < n && list[i] == TextureId::Managed(id)
}

/// Whether the first `n` entries of an upsert list upsert the managed id.
pub open spec fn upserts_id<D>(delta: Seq<(TextureId, D)>, n: int, id: u64) -> bool {
    exists|i: int| 0 <= i < n && delta[i].0 == TextureId::Managed(id)
}

/// How many of the first `n` upsert entries carry a managed id.
pub open spec fn managed_count<D>(delta: Seq<(TextureId, D)>, n: int) -> int
    decreases n,
{
    if n <= 0 {
        0
    } else {
        managed_count(delta, n - 1) + if delta[n - 1].0 is Managed {
            1int
        } else {
            0int
        }
    }
}

/// The commands recorded for one texture upload: transition in, copy,
/// transition back to readable.
pub open spec fn upload_commands(
    id: u64,
    width: u32,
    height: u32,
    dst_x: u32,
    dst_y: u32,
    fresh: bool,
) -> Seq<GpuCommand> {
    let before = if fresh {
        ResourceState::Common
    } else {
        ResourceState::GenericRead
    };
    seq![
        GpuCommand::Transition(
            crate::resource::TransitionBarrier { before, after: ResourceState::CopyDest },
        ),
        GpuCommand::CopyTextureRegion { texture: id, dst_x, dst_y, width, height },
        GpuCommand::Transition(
            crate::resource::TransitionBarrier {
                before: ResourceState::CopyDest,
                after: ResourceState::GenericRead,
            },
        ),
    ]
}

/// The command lists that applying the first `n` upsert entries submits,
/// in input order: one fenced upload per managed entry, none for a user
/// entry.  `cached` is the set of ids cached before the batch began; an
/// id is uploaded into a fresh texture exactly when neither the cache
/// nor an earlier entry of the batch holds it.
pub open spec fn upsert_submissions(
    delta: Seq<(TextureId, ImageDelta)>,
    n: int,
    cached: Set<u64>,
) -> Seq<Seq<GpuCommand>>
    decreases n,
{
    if n <= 0 {
        Seq::empty()
    } else {
        let rest = upsert_submissions(delta, n - 1, cached);
        match delta[n - 1].0 {
            TextureId::Managed(id) => rest.push(
                upload_commands(
                    id,
                    delta[n - 1].1.image.width,
                    delta[n - 1].1.image.height,
                    if delta[n - 1].1.pos is Some {
                        (delta[n - 1].1.pos->0).0
                    } else {
                        0
                    },
                    if delta[n - 1].1.pos is Some {
                        (delta[n - 1].1.pos->0).1
                    } else {
                        0
                    },
                    !(cached.contains(id) || upserts_id(delta, n - 1, id)),
                ),
            ),
            TextureId::User(_) => rest,
        }
    }
}

/// The texture cache, with the allocator, recorder and fence its
/// synchronous uploads use.
pub struct TextureManager {
    pub textures: HashMap<u64, TextureEntry>,
    pub command_allocator: CommandAllocator,
    pub command_list: CommandList,
    pub fence: Fence,
}

impl TextureManager {
    /// Between operations every cached texture is readable and views
    /// itself, the recorder is closed, and the upload fence is signaled.
    pub open spec fn wf(&self) -> bool {
        &&& forall|id: u64|
            #[trigger] self.textures@.contains_key(id) ==> {
                &&& self.textures@[id].heap.texture == id
                &&& self.textures@[id].texture.state is GenericRead
            }
        &&& self.command_list.state is Closed
        &&& self.fence.value == 1
    }

    /// Creates an empty cache with its own allocator, recorder and
    /// fence; the fence starts signaled.
    pub fn new(device: &GpuDevice) -> (r: Result<TextureManager, GpuError>)
        ensures
            r is Ok,
            r->Ok_0.wf(),
            r->Ok_0.textures@ == Map::<u64, TextureEntry>::empty(),
    {
        let textures: HashMap<u64, TextureEntry> = HashMap::new();
        let command_allocator = device.create_command_allocator();
        let command_list = device.create_command_list();
        let fence = device.create_fence(1);
        Ok(TextureManager { textures, command_allocator, command_list, fence })
    }

    /// The descriptor heap of the given cached texture, if present.
    pub fn get_descriptor_heap(&self, texture: u64) -> (r: Option<&SrvDescriptorHeap>)
        ensures
            r is Some <==> self.textures@.contains_key(texture),
            r is Some ==> *r->0 == self.textures@[texture].heap,
    {
        match self.textures.get(&texture) {
            Some(entry) => Some(&entry.heap),
            None => None,
        }
    }

    /// Fills an upload buffer with the image's rows, each row padded
    /// with zeros to the given stride.
    pub fn fill_buffer_aligned(image: &ImageData, aligned_row_bytes: usize) -> (out: Vec<u8>)
        requires
            image.wf(),
            aligned_row_bytes >= 4 * image.width,
            image.height * aligned_row_bytes <= usize::MAX,
        ensures
            out@.len() == image.height * aligned_row_bytes,
            forall|r: int, c: int|
                0 <= r < image.height && 0 <= c < 4 * image.width ==> #[trigger] out@[r
                    * aligned_row_bytes + c] == image.bytes@[r * (4 * image.width) + c],
            forall|r: int, c: int|
                0 <= r < image.height && 4 * image.width <= c < aligned_row_bytes ==> #[trigger] out@[r
                    * aligned_row_bytes + c] == 0,
    {
        let height: usize = image.height as usize;
        if height == 0 {
            let out: Vec<u8> = Vec::new();
            assert(image.height * aligned_row_bytes == 0) by (nonlinear_arith)
                requires
                    image.height == 0,
            ;
            return out;
        }
        assert(4 * image.width <= 4 * image.width * image.height) by (nonlinear_arith)
            requires
                image.height >= 1,
        ;
        let row_bytes: usize = 4 * (image.width as usize);
        let total_bytes: usize = image.bytes.len();
        let mut out: Vec<u8> = Vec::new();
        let mut row: usize = 0;
        while row < height
            invariant
                image.wf(),
                image.bytes@.len() <= usize::MAX,
                height == image.height,
                row_bytes == 4 * image.width,
                aligned_row_bytes >= row_bytes,
                image.height * aligned_row_bytes <= usize::MAX,
                row <= height,
                out@.len() == row * aligned_row_bytes,
                forall|r: int, c: int|
                    0 <= r < row && 0 <= c < row_bytes ==> #[trigger] out@[r * aligned_row_bytes
                        + c] == image.bytes@[r * row_bytes + c],
                forall|r: int, c: int|
                    0 <= r < row && row_bytes <= c < aligned_row_bytes ==> #[trigger] out@[r
                        * aligned_row_bytes + c] == 0,
            decreases height - row,
        {
            assert((row + 1) * aligned_row_bytes <= image.height * aligned_row_bytes)
                by (nonlinear_arith)
                requires
                    row < image.height,
                    aligned_row_bytes >= 0,
            ;
            assert(row * row_bytes + row_bytes <= 4 * image.width * image.height)
                by (nonlinear_arith)
                requires
                    row < image.height,
                    row_bytes == 4 * image.width,
            ;
            let mut col: usize = 0;
            while col < row_bytes
                invariant
                    image.wf(),
                    image.bytes@.len() <= usize::MAX,
                    height == image.height,
                    row_bytes == 4 * image.width,
                    aligned_row_bytes >= row_bytes,
                    row < height,
                    col <= row_bytes,
                    row * row_bytes + row_bytes <= image.bytes@.len(),
                    (row + 1) * aligned_row_bytes <= usize::MAX,
                    out@.len() == row * aligned_row_bytes + col,
                    forall|r: int, c: int|
                        0 <= r < row && 0 <= c < row_bytes ==> #[trigger] out@[r * aligned_row_bytes
                            + c] == image.bytes@[r * row_bytes + c],
                    forall|r: int, c: int|
                        0 <= r < row && row_bytes <= c < aligned_row_bytes ==> #[trigger] out@[r
                            * aligned_row_bytes + c] == 0,
                    forall|c: int|
                        0 <= c < col ==> #[trigger] out@[row * aligned_row_bytes + c]
                            == image.bytes@[row * row_bytes + c],
                decreases row_bytes - col,
            {
                out.push(image.bytes[row * row_bytes + col]);
                proof {
                    assert forall|r2: int, c2: int|
                        0 <= r2 < row && 0 <= c2 < row_bytes implies #[trigger] out@[r2
                        * aligned_row_bytes + c2] == image.bytes@[r2 * row_bytes + c2] by {
                        lemma_flat_index_bound(r2, c2, row as int, aligned_row_bytes as int);
                    }
                    assert forall|r2: int, c2: int|
                        0 <= r2 < row && row_bytes <= c2 < aligned_row_bytes implies #[trigger] out@[r2
                        * aligned_row_bytes + c2] == 0 by {
                        lemma_flat_index_bound(r2, c2, row as int, aligned_row_bytes as int);
                    }
                }
                col += 1;
            }
            while col < aligned_row_bytes
                invariant
                    image.wf(),
                    height == image.height,
                    row_bytes == 4 * image.width,
                    aligned_row_bytes >= row_bytes,
                    row < height,
                    row_bytes <= col <= aligned_row_bytes,
                    (row + 1) * aligned_row_bytes <= usize::MAX,
                    out@.len() == row * aligned_row_bytes + col,
                    forall|r: int, c: int|
                        0 <= r < row && 0 <= c < row_bytes ==> #[trigger] out@[r * aligned_row_bytes
                            + c] == image.bytes@[r * row_bytes + c],
                    forall|r: int, c: int|
                        0 <= r < row && row_bytes <= c < aligned_row_bytes ==> #[trigger] out@[r
                            * aligned_row_bytes + c] == 0,
                    forall|c: int|
                        0 <= c < row_bytes ==> #[trigger] out@[row * aligned_row_bytes + c]
                            == image.bytes@[row * row_bytes + c],
                    forall|c: int|
                        row_bytes <= c < col ==> #[trigger] out@[row * aligned_row_bytes + c] == 0,
                decreases aligned_row_bytes - col,
            {
                out.push(0u8);
                proof {
                    assert forall|r2: int, c2: int|
                        0 <= r2 < row && 0 <= c2 < row_bytes implies #[trigger] out@[r2
                        * aligned_row_bytes + c2] == image.bytes@[r2 * row_bytes + c2] by {
                        lemma_flat_index_bound(r2, c2, row as int, aligned_row_bytes as int);
                    }
                    assert forall|r2: int, c2: int|
                        0 <= r2 < row && row_bytes <= c2 < aligned_row_bytes implies #[trigger] out@[r2
                        * aligned_row_bytes + c2] == 0 by {
                        lemma_flat_index_bound(r2, c2, row as int, aligned_row_bytes as int);
                    }
                }
                col += 1;
            }
            proof {
                assert((row + 1) * aligned_row_bytes == row * aligned_row_bytes
                    + aligned_row_bytes) by (nonlinear_arith);
            }
            row += 1;
        }
        out
    }

    /// Uploads one managed texture: fills an aligned upload buffer,
    /// creates the texture and its heap on first reference, and submits
    /// the fenced copy, transitioning the texture through the copy state
    /// and back to readable.
    fn set_one(&mut self, device: &GpuDevice, queue: &mut GpuQueue, id: u64, delta: &ImageDelta)
        -> (r: Result<(), GpuError>)
        requires
            old(self).wf(),
            delta.image.wf(),
            spec_aligned_row_pitch(delta.image.width as nat) <= usize::MAX,
            delta.image.height * spec_aligned_row_pitch(delta.image.width as nat) <= usize::MAX,
        ensures
            r is Ok,
            final(self).wf(),
            old(self).textures@.contains_key(id) ==> final(self).textures@ == old(self).textures@,
            !old(self).textures@.contains_key(id) ==> final(self).textures@ == old(self).textures@.insert(
                id,
                TextureEntry {
                    texture: GpuTexture {
                        width: delta.image.width,
                        height: delta.image.height,
                        state: ResourceState::GenericRead,
                    },
                    heap: SrvDescriptorHeap { texture: id },
                },
            ),
            final(queue).executed@ == old(queue).executed@.push(
                upload_commands(
                    id,
                    delta.image.width,
                    delta.image.height,
                    if delta.pos is Some {
                        (delta.pos->0).0
                    } else {
                        0
                    },
                    if delta.pos is Some {
                        (delta.pos->0).1
                    } else {
                        0
                    },
                    !old(self).textures@.contains_key(id),
                ),
            ),
            final(queue).executed@.len() == old(queue).executed@.len() + 1,
    {
        let width = delta.image.width;
        let height = delta.image.height;

        proof {
            lemma_aligned_row_pitch_properties(width as nat);
        }
        let aligned_row_bytes = aligned_row_pitch(width);
        let aligned_usize = aligned_row_bytes as usize;

        let upload_bytes = Self::fill_buffer_aligned(&delta.image, aligned_usize);
        let upload_buffer = device.create_buffer(upload_bytes.len() as u64);

        let was_present = self.textures.contains_key(&id);
        let removed = if was_present {
            self.textures.remove(&id)
        } else {
            None
        };
        let mut entry = match removed {
            Some(entry) => entry,
            None => TextureEntry {
                texture: device.create_texture(width, height),
                heap: SrvDescriptorHeap { texture: id },
            },
        };

        let (dst_x, dst_y) = match delta.pos {
            Some(pos) => pos,
            None => (0, 0),
        };

        queue.wait(&self.fence, 1)?;
        self.fence.signal(0);

        self.command_list.reset(&mut self.command_allocator)?;

        let before = if was_present {
            ResourceState::GenericRead
        } else {
            ResourceState::Common
        };
        let barrier_in = transition(&mut entry.texture.state, before, ResourceState::CopyDest)?;
        self.command_list.record(GpuCommand::Transition(barrier_in));
        self.command_list.record(
            GpuCommand::CopyTextureRegion { texture: id, dst_x, dst_y, width, height },
        );
        let barrier_out = transition(
            &mut entry.texture.state,
            ResourceState::CopyDest,
            ResourceState::GenericRead,
        )?;
        self.command_list.record(GpuCommand::Transition(barrier_out));
        self.command_list.close()?;

        proof {
            assert(self.command_list.commands@ =~= upload_commands(
                id,
                width,
                height,
                dst_x,
                dst_y,
                !was_present,
            ));
        }
        queue.execute(&self.command_list);
        queue.signal(&mut self.fence, 1);

        let ghost old_map = old(self).textures@;
        self.textures.insert(id, entry);
        proof {
            if old_map.contains_key(id) {
                assert(self.textures@ =~= old_map);
            }
        }

        Ok(())
    }

    /// Creates, updates and resizes the cached textures named by the
    /// upsert list.  Managed entries are upserted in order, each with its
    /// own fenced submission; user-texture entries are skipped.  An
    /// already cached texture keeps its resource and dimensions — the
    /// copy lands inside it; a new one is created with the upsert's
    /// dimensions.
    pub fn set(
        &mut self,
        device: &GpuDevice,
        queue: &mut GpuQueue,
        delta: &[(TextureId, ImageDelta)],
    ) -> (r: Result<(), GpuError>)
        requires
            old(self).wf(),
            forall|i: int|
                0 <= i < delta@.len() && (#[trigger] delta@[i].0) is Managed ==> {
                    &&& delta@[i].1.image.wf()
                    &&& spec_aligned_row_pitch(delta@[i].1.image.width as nat) <= usize::MAX
                    &&& delta@[i].1.image.height * spec_aligned_row_pitch(
                        delta@[i].1.image.width as nat,
                    ) <= usize::MAX
                },
        ensures
            r is Ok,
            final(self).wf(),
            forall|id: u64|
                #[trigger] final(self).textures@.contains_key(id) <==> (old(self).textures@.contains_key(id) || upserts_id(delta@, delta@.len() as int, id)),
            forall|id: u64|
                #[trigger] old(self).textures@.contains_key(id) ==> final(self).textures@.contains_key(id) && final(self).textures@[id] == old(self).textures@[id],
            forall|id: u64|
                !old(self).textures@.contains_key(id) && #[trigger] upserts_id(
                    delta@,
                    delta@.len() as int,
                    id,
                ) ==> {
                    &&& final(self).textures@[id].heap.texture == id
                    &&& final(self).textures@[id].texture.state is GenericRead
                    &&& exists|i: int|
                        0 <= i < delta@.len() && #[trigger] delta@[i].0 == TextureId::Managed(id)
                            && final(self).textures@[id].texture.width == delta@[i].1.image.width
                            && final(self).textures@[id].texture.height == delta@[i].1.image.height
                },
            final(queue).executed@ == old(queue).executed@ + upsert_submissions(
                delta@,
                delta@.len() as int,
                old(self).textures@.dom(),
            ),
            final(queue).executed@.len() == old(queue).executed@.len() + managed_count(
                delta@,
                delta@.len() as int,
            ),
    {
        let ghost old_map = old(self).textures@;
        let ghost old_executed = old(queue).executed@;
        let ghost old_executed_len = old(queue).executed@.len();
        let mut i: usize = 0;
        while i < delta.len()
            invariant
                i <= delta@.len(),
                self.wf(),
                forall|j: int|
                    0 <= j < delta@.len() && (#[trigger] delta@[j].0) is Managed ==> {
                        &&& delta@[j].1.image.wf()
                        &&& spec_aligned_row_pitch(delta@[j].1.image.width as nat) <= usize::MAX
                        &&& delta@[j].1.image.height * spec_aligned_row_pitch(
                            delta@[j].1.image.width as nat,
                        ) <= usize::MAX
                    },
                forall|id: u64|
                    #[trigger] self.textures@.contains_key(id) <==> (old_map.contains_key(id)
                        || upserts_id(delta@, i as int, id)),
                forall|id: u64|
                    #[trigger] old_map.contains_key(id) ==> self.textures@.contains_key(id)
                        && self.textures@[id] == old_map[id],
                forall|id: u64|
                    !old_map.contains_key(id) && #[trigger] self.textures@.contains_key(id) ==> {
                        &&& self.textures@[id].heap.texture == id
                        &&& self.textures@[id].texture.state is GenericRead
                        &&& exists|j: int|
                            0 <= j < delta@.len() && #[trigger] delta@[j].0 == TextureId::Managed(
                                id,
                            ) && self.textures@[id].texture.width == delta@[j].1.image.width
                                && self.textures@[id].texture.height == delta@[j].1.image.height
                    },
                queue.executed@ == old_executed + upsert_submissions(
                    delta@,
                    i as int,
                    old_map.dom(),
                ),
                queue.executed@.len() == old_executed_len + managed_count(delta@, i as int),
            decreases delta@.len() - i,
        {
            let (id, image_delta) = &delta[i];
            match id {
                TextureId::Managed(id_value) => {
                    let ghost was_cached = self.textures@.contains_key(*id_value);
                    self.set_one(device, queue, *id_value, image_delta)?;
                    proof {
                        assert(was_cached == (old_map.dom().contains(*id_value) || upserts_id(
                            delta@,
                            i as int,
                            *id_value,
                        )));
                        assert(queue.executed@ =~= old_executed + upsert_submissions(
                            delta@,
                            i + 1,
                            old_map.dom(),
                        ));
                    }
                },
                TextureId::User(_) => {},
            }
            i += 1;
        }
        proof {
            assert forall|id: u64|
                !old(self).textures@.contains_key(id) && #[trigger] upserts_id(
                    delta@,
                    delta@.len() as int,
                    id,
                ) implies self.textures@.contains_key(id) by {}
        }
        Ok(())
    }

    /// Removes the cache entries of the managed ids in the list.  The
    /// caller guarantees, by deferring frees one frame, that no in-flight
    /// frame still samples them.
    pub fn free(&mut self, textures: &[TextureId])
        requires
            old(self).wf(),
        ensures
            final(self).wf(),
            forall|id: u64|
                #[trigger] final(self).textures@.contains_key(id) <==> (old(self).textures@.contains_key(id) && !frees_id(textures@, textures@.len() as int, id)),
            forall|id: u64|
                #[trigger] final(self).textures@.contains_key(id) ==> final(self).textures@[id]
                    == old(self).textures@[id],
    {
        let ghost old_map = old(self).textures@;
        let mut i: usize = 0;
        while i < textures.len()
            invariant
                i <= textures@.len(),
                self.wf(),
                forall|id: u64|
                    #[trigger] self.textures@.contains_key(id) <==> (old_map.contains_key(id)
                        && !frees_id(textures@, i as int, id)),
                forall|id: u64|
                    #[trigger] self.textures@.contains_key(id) ==> self.textures@[id]
                        == old_map[id],
            decreases textures@.len() - i,
        {
            match &textures[i] {
                TextureId::Managed(id_value) => {
                    self.textures.remove(id_value);
                },
                TextureId::User(_) => {},
            }
            i += 1;
        }
    }
}

} // verus!
