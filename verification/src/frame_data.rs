//! A fixed-size ring of reusable per-frame resources, indexed by the
//! current frame.  A degenerate ring of one slot is legal: frames are then
//! fully serialized.  Advancing past the last slot wraps around to the
//! first, so after as many advances as there are slots the ring is back at
//! the slot it started from.

use vstd::prelude::*;

verus! {

/// A ring of `frame_datas.len()` slots with a cursor on the current one.
pub struct FrameData<T> {
    current_frame: usize,
    frame_datas: Vec<T>,
}



/// The index reached from `start` by one advance on a ring of `count`
/// slots.
pub open spec fn next_index(start: nat, count: nat) -> nat
    recommends
        count > 0,
{
    (((start + 1) as int) % (count as int)) as nat
}

/// The index reached from `start` by `k` advances on a ring of `count`
/// slots.
pub open spec fn index_after(start: nat, k: nat, count: nat) -> nat
    recommends
        count > 0,
    decreases k,
{
    if k == 0 {
        start
    } else {
        next_index(index_after(start, (k - 1) as nat, count), count)
    }
}

/// Advancing `k` times lands on `(start + k) % count`: the ring is cyclic.
pub proof fn lemma_index_after_advances(start: nat, k: nat, count: nat)
    requires
        start < count,
    ensures
        index_after(start, k, count) == ((start + k) as int) % (count as int),
    decreases k,
{
    if k == 0 {
        assert((start as int) % (count as int) == start as int) by {
            vstd::arithmetic::div_mod::lemma_small_mod(start, count);
        }
    } else {
        lemma_index_after_advances(start, (k - 1) as nat, count);
        assert((1 + ((start + (k - 1)) as int) % (count as int)) % (count as int) == ((start
            + k) as int) % (count as int)) by {
            vstd::arithmetic::div_mod::lemma_add_mod_noop_right(
                1,
                (start + (k - 1)) as int,
                count as int,
            );
        }
    }
}

/// After as many advances as the ring has slots, the cursor is back where
/// it started.
pub proof fn lemma_full_cycle(start: nat, count: nat)
    requires
        start < count,
    ensures
        index_after(start, count, count) == start,
{
    lemma_index_after_advances(start, count, count);
    assert(((start + count) as int) % (count as int) == start as int) by {
        vstd::arithmetic::div_mod::lemma_mod_add_multiples_vanish(start as int, count as int);
        vstd::arithmetic::div_mod::lemma_small_mod(start, count);
    }
}

/// The cursor always stays inside the slot vector; this also means the
/// ring is never empty once it is well formed.
pub open spec fn ring_wf<T>(ring: &FrameData<T>) -> bool {
    ring.current_index() < ring.slots().len()
}

impl<T> FrameData<T> {
    /// The slots of the ring, in order.
    pub closed spec fn slots(&self) -> Seq<T> {
        self.frame_datas@
    }

    /// The index of the current slot.
    pub closed spec fn current_index(&self) -> nat {
        self.current_frame as nat
    }

    /// Wraps the given per-slot data into a ring that starts at slot 0.
    pub fn new(init_data: Vec<T>) -> (ring: Self)
        ensures
            ring.slots() == init_data@,
            ring.current_index() == 0,
            init_data@.len() > 0 ==> ring_wf(&ring),
    {
        FrameData { current_frame: 0, frame_datas: init_data }
    }

    /// Builds a ring of `frame_count` slots, the slot at each index
    /// initialized by `init_fn` on that index.
    pub fn from_fn<F: Fn(usize) -> T>(frame_count: usize, init_fn: F) -> (ring: Self)
        requires
            forall|i: usize| i < frame_count ==> call_requires(init_fn, (i,)),
        ensures
            ring.slots().len() == frame_count,
            ring.current_index() == 0,
            forall|i: int|
                0 <= i < frame_count ==> call_ensures(init_fn, (i as usize,), #[trigger] ring.slots()[i]),
            frame_count > 0 ==> ring_wf(&ring),
    {
        let mut frame_datas: Vec<T> = Vec::new();
        let mut i: usize = 0;
        while i < frame_count
            invariant
                i <= frame_count,
                frame_datas@.len() == i,
                forall|j: usize| j < frame_count ==> call_requires(init_fn, (j,)),
                forall|j: int|
                    0 <= j < i ==> call_ensures(init_fn, (j as usize,), #[trigger] frame_datas@[j]),
            decreases frame_count - i,
        {
            frame_datas.push(init_fn(i));
            i += 1;
        }
        FrameData { current_frame: 0, frame_datas }
    }

    /// Builds a ring of `frame_count` slots from a fallible per-slot
    /// initializer.  The first failure aborts construction of the whole
    /// ring: there are no partial rings.
    pub fn try_from_fn<E, F: Fn(usize) -> Result<T, E>>(frame_count: usize, init_fn: F) -> (r:
        Result<Self, E>)
        requires
            forall|i: usize| i < frame_count ==> call_requires(init_fn, (i,)),
        ensures
            r is Ok ==> {
                let ring = r->Ok_0;
                &&& ring.slots().len() == frame_count
                &&& ring.current_index() == 0
                &&& forall|i: int|
                    0 <= i < frame_count ==> call_ensures(
                        init_fn,
                        (i as usize,),
                        Ok(#[trigger] ring.slots()[i]),
                    )
                &&& frame_count > 0 ==> ring_wf(&ring)
            },
            r is Err ==> exists|i: usize, res: Result<T, E>|
                #![auto]
                i < frame_count && res is Err && res->Err_0 == r->Err_0 && call_ensures(
                    init_fn,
                    (i,),
                    res,
                ),
    {
        let mut frame_datas: Vec<T> = Vec::new();
        let mut i: usize = 0;
        while i < frame_count
            invariant
                i <= frame_count,
                frame_datas@.len() == i,
                forall|j: usize| j < frame_count ==> call_requires(init_fn, (j,)),
                forall|j: int|
                    0 <= j < i ==> call_ensures(
                        init_fn,
                        (j as usize,),
                        Ok(#[trigger] frame_datas@[j]),
                    ),
            decreases frame_count - i,
        {
            let slot = init_fn(i);
            match slot {
                Ok(data) => frame_datas.push(data),
                Err(e) => {
                    assert(exists|j: usize, res: Result<T, E>|
                        #![auto]
                        j < frame_count && res is Err && res->Err_0 == e && call_ensures(
                            init_fn,
                            (j,),
                            res,
                        )) by {
                        assert(i < frame_count && slot is Err && slot->Err_0 == e
                            && call_ensures(init_fn, (i,), slot));
                    }
                    return Err(e);
                },
            }
            i += 1;
        }
        Ok(FrameData { current_frame: 0, frame_datas })
    }

    /// Moves the cursor to the next slot, wrapping past the last one.
    pub fn increment_frame(&mut self)
        requires
            ring_wf(old(self)),
        ensures
            ring_wf(final(self)),
            final(self).slots() == old(self).slots(),
            final(self).current_index() == next_index(
                old(self).current_index(),
                old(self).slots().len(),
            ),
    {
        let count = self.frame_datas.len();
        self.current_frame = (self.current_frame + 1) % count;
    }

    /// The slot under the cursor.
    pub fn get_current(&self) -> (slot: &T)
        requires
            ring_wf(self),
        ensures
            *slot == self.slots()[self.current_index() as int],
    {
        &self.frame_datas[self.current_frame]
    }

    /// The slot under the cursor, for exclusive use while the frame owns
    /// it.  Only the current slot changes; the cursor and the other slots
    /// stay as they are.
    pub fn get_current_mut(&mut self) -> (slot: &mut T)
        requires
            ring_wf(old(self)),
        ensures
            ring_wf(final(self)),
            *slot == old(self).slots()[old(self).current_index() as int],
            final(self).current_index() == old(self).current_index(),
            final(self).slots() == old(self).slots().update(
                old(self).current_index() as int,
                *final(slot),
            ),
    {
        &mut self.frame_datas[self.current_frame]
    }
}

impl<T: Default + Clone> FrameData<T> {
    /// Builds a ring of `frame_count` slots, each holding a clone of the
    /// type's default value.
    pub fn new_default(frame_count: usize) -> (ring: Self)
        ensures
            ring.slots().len() == frame_count,
            ring.current_index() == 0,
            frame_count > 0 ==> ring_wf(&ring),
    {
        let initial = T::default();
        let mut frame_datas: Vec<T> = Vec::new();
        let mut i: usize = 0;
        while i < frame_count
            invariant
                i <= frame_count,
                frame_datas@.len() == i,
            decreases frame_count - i,
        {
            frame_datas.push(initial.clone());
            i += 1;
        }
        FrameData { current_frame: 0, frame_datas }
    }
}

} // verus!
