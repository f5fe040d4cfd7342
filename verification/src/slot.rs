//! Slot allocator: a free list over a fixed number of numbered slots.
//!
//! Every slot carries a generation that grows by one each time the slot is
//! freed. A handle names a slot together with the generation it was issued
//! under, so a handle that was freed never becomes live again, even when its
//! slot is handed out anew.

use crate::error::Error;
use vstd::prelude::*;
use vstd::set_lib::*;

verus! {

/// Stable identifier of one allocation: a slot number and the generation of
/// the slot at the time the handle was issued.
#[derive(Clone, Copy, Debug, PartialEq, Eq, Structural)]
pub struct Handle {
    pub index: usize,
    pub generation: u64,
}

/// State of one slot.
#[derive(Clone, Copy, Debug, PartialEq, Eq, Structural)]
pub struct Slot {
    /// How often the slot has been freed.
    pub generation: u64,
    /// Whether a live handle names the slot.
    pub occupied: bool,
}

/// A request to an allocator.
pub enum SlotOp {
    Allocate,
    Free(Handle),
}

/// Mathematical picture of an allocator: the slots that were ever handed out,
/// in index order, and the fixed number of slots that may exist.
pub struct SlotTable {
    pub slots: Seq<Slot>,
    pub capacity: nat,
}

impl SlotTable {
    /// No more slots than the capacity, and an occupied slot can still be freed.
    pub open spec fn wf(self) -> bool {
        &&& self.slots.len() <= self.capacity
        &&& forall|i: int|
            0 <= i < self.slots.len() && (#[trigger] self.slots[i]).occupied
                ==> self.slots[i].generation < u64::MAX
    }

    /// Slot `i` is in use.
    pub open spec fn occupied(self, i: int) -> bool {
        0 <= i < self.slots.len() && self.slots[i].occupied
    }

    /// Generation of slot `i`; a slot that was never handed out has generation 0.
    pub open spec fn generation(self, i: int) -> u64 {
        if 0 <= i < self.slots.len() {
            self.slots[i].generation
        } else {
            0
        }
    }

    /// `h` names a slot in use, under the slot's current generation.
    pub open spec fn is_live(self, h: Handle) -> bool {
        self.occupied(h.index as int) && self.generation(h.index as int) == h.generation
    }

    /// `h` was issued and freed: its slot has moved on to a later generation.
    pub open spec fn retired(self, h: Handle) -> bool {
        h.index < self.slots.len() && h.generation < self.generation(h.index as int)
    }

    /// Slot `i` can be handed out: it exists, is free, and its generation
    /// counter is not exhausted.
    pub open spec fn vacant(self, i: int) -> bool {
        &&& 0 <= i < self.capacity
        &&& !self.occupied(i)
        &&& self.generation(i) < u64::MAX
    }

    /// Slot `i` is the lowest-numbered slot that can be handed out.
    pub open spec fn lowest_vacant(self, i: int) -> bool {
        &&& self.vacant(i)
        &&& forall|j: int| 0 <= j < i ==> !self.vacant(j)
    }

    /// No slot can be handed out.
    pub open spec fn full(self) -> bool {
        forall|i: int| !self.vacant(i)
    }

    /// The lowest-numbered vacant slot, where there is a vacant slot.
    pub open spec fn first_vacant(self) -> int {
        choose|i: int| self.lowest_vacant(i)
    }

    /// The numbers of the slots in use.
    pub open spec fn live_indices(self) -> Set<int> {
        Set::new(|i: int| self.occupied(i))
    }

    /// How many slots are in use.
    pub open spec fn live_count(self) -> nat {
        self.live_indices().len()
    }

    /// The numbers of the vacant slots.
    pub open spec fn vacant_indices(self) -> Set<int> {
        Set::new(|i: int| self.vacant(i))
    }

    /// How many slots are vacant.
    pub open spec fn vacant_count(self) -> nat {
        self.vacant_indices().len()
    }

    /// The table of `capacity` slots of which none was handed out yet.
    pub open spec fn empty(capacity: nat) -> SlotTable {
        SlotTable { slots: Seq::empty(), capacity }
    }

    /// The table after slot `i` was handed out. Slot `i` is either one that
    /// was handed out before, or the first one that never was.
    pub open spec fn occupy(self, i: int) -> SlotTable {
        if i == self.slots.len() {
            SlotTable {
                slots: self.slots.push(Slot { generation: 0, occupied: true }),
                capacity: self.capacity,
            }
        } else {
            SlotTable {
                slots: self.slots.update(
                    i,
                    Slot { generation: self.slots[i].generation, occupied: true },
                ),
                capacity: self.capacity,
            }
        }
    }

    /// The table after slot `i` was freed: the slot is free and its
    /// generation has grown by one.
    pub open spec fn release(self, i: int) -> SlotTable {
        SlotTable {
            slots: self.slots.update(
                i,
                Slot { generation: (self.slots[i].generation + 1) as u64, occupied: false },
            ),
            capacity: self.capacity,
        }
    }

    /// The table after a request for a slot: the lowest-numbered vacant slot
    /// is handed out; a full table stays as it is.
    pub open spec fn allocated(self) -> SlotTable {
        if self.full() {
            self
        } else {
            self.occupy(self.first_vacant())
        }
    }

    /// The table after a request to free `h`: the slot of a live handle is
    /// released; for any other handle the table stays as it is.
    pub open spec fn freed(self, h: Handle) -> SlotTable {
        if self.is_live(h) {
            self.release(h.index as int)
        } else {
            self
        }
    }

    /// The table after one request.
    pub open spec fn step(self, op: SlotOp) -> SlotTable {
        match op {
            SlotOp::Allocate => self.allocated(),
            SlotOp::Free(h) => self.freed(h),
        }
    }

    /// The table after the requests `ops`, made in order.
    pub open spec fn run(self, ops: Seq<SlotOp>) -> SlotTable
        decreases ops.len(),
    {
        if ops.len() == 0 {
            self
        } else {
            self.run(ops.drop_last()).step(ops.last())
        }
    }
}

impl SlotTable {
    /// The slots in use are among the slots ever handed out, so they are
    /// finitely many and at most `capacity`.
    pub proof fn lemma_live_count_bounded(self)
        requires
            self.wf(),
        ensures
            self.live_indices().finite(),
            self.live_count() <= self.slots.len(),
            self.live_count() <= self.capacity,
    {
        lemma_int_range(0, self.slots.len() as int);
        assert(self.live_indices().subset_of(set_int_range(0, self.slots.len() as int)));
        lemma_len_subset(self.live_indices(), set_int_range(0, self.slots.len() as int));
    }

    /// The vacant slots are finitely many, at most `capacity`, and none is
    /// vacant exactly when the table is full.
    pub proof fn lemma_vacant_count(self)
        ensures
            self.vacant_indices().finite(),
            self.vacant_count() <= self.capacity,
            self.vacant_count() == 0 <==> self.full(),
    {
        lemma_int_range(0, self.capacity as int);
        assert(self.vacant_indices().subset_of(set_int_range(0, self.capacity as int)));
        lemma_len_subset(self.vacant_indices(), set_int_range(0, self.capacity as int));
        if self.vacant_count() == 0 {
            assert forall|i: int| !self.vacant(i) by {
                if self.vacant(i) {
                    assert(self.vacant_indices().contains(i));
                }
            }
        } else {
            let i = self.vacant_indices().choose();
            assert(self.vacant_indices().contains(i));
        }
    }

    /// Handing out a vacant slot keeps the table well formed and adds exactly
    /// that slot to the slots in use.
    pub proof fn lemma_occupy(self, i: int)
        requires
            self.wf(),
            self.vacant(i),
            i <= self.slots.len(),
        ensures
            self.occupy(i).wf(),
            self.occupy(i).live_indices() == self.live_indices().insert(i),
            self.occupy(i).live_count() == self.live_count() + 1,
            self.live_count() < self.capacity,
    {
        assert(self.occupy(i).live_indices() =~= self.live_indices().insert(i));
        assert(!self.live_indices().contains(i));
        self.lemma_live_count_bounded();
        self.occupy(i).lemma_live_count_bounded();
    }

    /// Handing out a vacant slot leaves one vacant slot fewer.
    pub proof fn lemma_occupy_vacancies(self, i: int)
        requires
            self.wf(),
            self.vacant(i),
            i <= self.slots.len(),
        ensures
            self.occupy(i).vacant_indices() == self.vacant_indices().remove(i),
            self.occupy(i).vacant_count() == self.vacant_count() - 1,
    {
        self.lemma_vacant_count();
        assert(self.occupy(i).vacant_indices() =~= self.vacant_indices().remove(i));
        assert(self.vacant_indices().contains(i));
    }

    /// Freeing an occupied slot keeps the table well formed and takes exactly
    /// that slot out of the slots in use.
    pub proof fn lemma_release(self, i: int)
        requires
            self.wf(),
            self.occupied(i),
        ensures
            self.release(i).wf(),
            self.release(i).live_indices() == self.live_indices().remove(i),
            self.release(i).live_count() == self.live_count() - 1,
    {
        assert(self.release(i).live_indices() =~= self.live_indices().remove(i));
        assert(self.live_indices().contains(i));
        self.lemma_live_count_bounded();
    }

    /// Freeing an occupied slot leaves one vacant slot more, unless the
    /// generation counter of the slot is used up by it.
    pub proof fn lemma_release_vacancies(self, i: int)
        requires
            self.wf(),
            self.occupied(i),
        ensures
            self.release(i).vacant_count() == self.vacant_count() + (if self.generation(i) + 1
                < u64::MAX {
                1nat
            } else {
                0nat
            }),
    {
        self.lemma_vacant_count();
        if self.generation(i) + 1 < u64::MAX {
            assert(self.release(i).vacant_indices() =~= self.vacant_indices().insert(i));
        } else {
            assert(self.release(i).vacant_indices() =~= self.vacant_indices());
        }
    }

    /// Where slot `i` is vacant, there is a lowest-numbered vacant slot, and
    /// it is `first_vacant`, at most `i`.
    pub proof fn lemma_first_vacant_exists(self, i: int)
        requires
            self.vacant(i),
        ensures
            !self.full(),
            self.lowest_vacant(self.first_vacant()),
            self.first_vacant() <= i,
        decreases i,
    {
        if exists|j: int| 0 <= j < i && self.vacant(j) {
            let j = choose|j: int| 0 <= j < i && self.vacant(j);
            self.lemma_first_vacant_exists(j);
        } else {
            assert(self.lowest_vacant(i));
        }
    }

    /// There is only one lowest-numbered vacant slot: where `i` is it, a
    /// request for a slot hands out `i`.
    pub proof fn lemma_first_vacant_is(self, i: int)
        requires
            self.lowest_vacant(i),
        ensures
            !self.full(),
            self.first_vacant() == i,
            self.allocated() == self.occupy(i),
    {
        self.lemma_first_vacant_exists(i);
    }

    /// In a well-formed table the lowest-numbered vacant slot is one that
    /// was handed out before, or the first one that never was.
    pub proof fn lemma_first_vacant_in_reach(self)
        requires
            self.wf(),
            !self.full(),
        ensures
            self.lowest_vacant(self.first_vacant()),
            self.first_vacant() <= self.slots.len(),
    {
        let i = choose|i: int| self.vacant(i);
        self.lemma_first_vacant_exists(i);
        if self.first_vacant() > self.slots.len() {
            assert(self.vacant(self.slots.len() as int));
        }
    }

    /// Where two slots are vacant, two requests in a row are served.
    pub proof fn lemma_room_for_two(self)
        requires
            self.wf(),
            self.vacant_count() >= 2,
        ensures
            !self.full(),
            !self.allocated().full(),
            self.allocated().vacant_count() == self.vacant_count() - 1,
            self.allocated().allocated().vacant_count() == self.vacant_count() - 2,
    {
        self.lemma_vacant_count();
        self.lemma_first_vacant_in_reach();
        self.lemma_occupy_vacancies(self.first_vacant());
        self.lemma_occupy(self.first_vacant());
        let once = self.allocated();
        once.lemma_vacant_count();
        once.lemma_first_vacant_in_reach();
        once.lemma_occupy_vacancies(once.first_vacant());
    }

    /// Every request keeps a well-formed table well formed and its capacity
    /// as it is.
    pub proof fn lemma_step_wf(self, op: SlotOp)
        requires
            self.wf(),
        ensures
            self.step(op).wf(),
            self.step(op).capacity == self.capacity,
    {
        match op {
            SlotOp::Allocate => {
                if !self.full() {
                    self.lemma_first_vacant_in_reach();
                    self.lemma_occupy(self.first_vacant());
                }
            },
            SlotOp::Free(h) => {
                if self.is_live(h) {
                    self.lemma_release(h.index as int);
                }
            },
        }
    }

    /// A handle that was freed stays dead under every request.
    pub proof fn lemma_step_keeps_retired(self, op: SlotOp, h: Handle)
        requires
            self.wf(),
            self.retired(h),
        ensures
            self.step(op).retired(h),
            !self.step(op).is_live(h),
    {
        if op is Allocate && !self.full() {
            self.lemma_first_vacant_in_reach();
        }
    }
}

/// Whatever requests are made of an allocator of `capacity` slots, in
/// whatever order, the number of live handles never exceeds `capacity`.
pub proof fn lemma_live_never_exceeds_capacity(capacity: nat, ops: Seq<SlotOp>)
    ensures
        SlotTable::empty(capacity).run(ops).wf(),
        SlotTable::empty(capacity).run(ops).capacity == capacity,
        SlotTable::empty(capacity).run(ops).live_count() <= capacity,
{
    lemma_run_wf(SlotTable::empty(capacity), ops);
}

/// Requests made of a well-formed table leave a well-formed table of the
/// same capacity, with at most that many live handles.
pub proof fn lemma_run_wf(table: SlotTable, ops: Seq<SlotOp>)
    requires
        table.wf(),
    ensures
        table.run(ops).wf(),
        table.run(ops).capacity == table.capacity,
        table.run(ops).live_count() <= table.capacity,
    decreases ops.len(),
{
    if ops.len() > 0 {
        lemma_run_wf(table, ops.drop_last());
        table.run(ops.drop_last()).lemma_step_wf(ops.last());
    }
    table.run(ops).lemma_live_count_bounded();
}

/// A request for a slot right after a handle was freed is served from the
/// slots handed out before: the slot comes from the free list, it is the
/// freed slot or a lower one, and no new slot is taken into use. The one
/// exception is a slot whose generation counter is used up by the free.
pub proof fn lemma_allocate_reuses_freed_slot(table: SlotTable, h: Handle)
    requires
        table.wf(),
        table.is_live(h),
        h.generation + 1 < u64::MAX,
    ensures
        !table.freed(h).full(),
        table.freed(h).first_vacant() <= h.index,
        table.freed(h).allocated() == table.freed(h).occupy(table.freed(h).first_vacant()),
        table.freed(h).allocated().slots.len() == table.slots.len(),
        table.freed(h).allocated().occupied(table.freed(h).first_vacant()),
{
    table.freed(h).lemma_first_vacant_exists(h.index as int);
}

/// A live handle stays live until it is freed itself: requests for slots
/// and frees of other handles leave it alone.
pub proof fn lemma_live_handle_stays_live(table: SlotTable, h: Handle, op: SlotOp)
    requires
        table.wf(),
        table.is_live(h),
        op != SlotOp::Free(h),
    ensures
        table.step(op).is_live(h),
{
    if op is Allocate && !table.full() {
        table.lemma_first_vacant_in_reach();
    }
}

/// A handle that was freed is never live again, whatever requests follow:
/// its slot may be handed out anew, but under a later generation.
pub proof fn lemma_freed_handle_stays_dead(table: SlotTable, h: Handle, ops: Seq<SlotOp>)
    requires
        table.wf(),
        table.is_live(h),
    ensures
        table.freed(h).run(ops).retired(h),
        !table.freed(h).run(ops).is_live(h),
    decreases ops.len(),
{
    table.lemma_release(h.index as int);
    if ops.len() > 0 {
        lemma_freed_handle_stays_dead(table, h, ops.drop_last());
        lemma_run_wf(table.freed(h), ops.drop_last());
        table.freed(h).run(ops.drop_last()).lemma_step_keeps_retired(ops.last(), h);
    }
}

/// Free-list allocator over at most `capacity` slots.
pub struct SlotAllocator {
    slots: Vec<Slot>,
    capacity: usize,
    live: usize,
    vacant: usize,
    /// No slot below this index is vacant.
    hint: usize,
}

impl View for SlotAllocator {
    type V = SlotTable;

    closed spec fn view(&self) -> SlotTable {
        SlotTable { slots: self.slots@, capacity: self.capacity as nat }
    }
}

impl SlotAllocator {
    /// What holds of the private bookkeeping: the count of live slots is
    /// right, and the search hint skips no vacant slot.
    pub closed spec fn bookkeeping(&self) -> bool {
        &&& self.live == self@.live_count()
        &&& self.vacant == self@.vacant_count()
        &&& self.hint <= self.slots.len()
        &&& forall|j: int| 0 <= j < self.hint ==> !self@.vacant(j)
    }

    /// Well-formedness: every constructor establishes it and every method
    /// keeps it.
    pub open spec fn wf(&self) -> bool {
        &&& self@.wf()
        &&& self@.capacity <= usize::MAX
        &&& self.bookkeeping()
    }

    /// An allocator with `capacity` slots, none of them in use.
    pub fn new(capacity: usize) -> (a: SlotAllocator)
        ensures
            a.wf(),
            a@ == SlotTable::empty(capacity as nat),
    {
        let a = SlotAllocator { slots: Vec::new(), capacity, live: 0, vacant: capacity, hint: 0 };
        proof {
            assert(a@.live_indices() =~= Set::empty());
            lemma_int_range(0, capacity as int);
            assert(a@.vacant_indices() =~= set_int_range(0, capacity as int));
        }
        a
    }

    /// The fixed number of slots.
    pub fn capacity(&self) -> (n: usize)
        ensures
            n == self@.capacity,
    {
        self.capacity
    }

    /// The number of live handles, which never exceeds the capacity.
    pub fn len(&self) -> (n: usize)
        requires
            self.wf(),
        ensures
            n == self@.live_count(),
            n <= self@.capacity,
    {
        proof {
            self@.lemma_live_count_bounded();
        }
        self.live
    }

    /// The number of slots that were ever handed out.
    pub fn touched(&self) -> (n: usize)
        ensures
            n == self@.slots.len(),
    {
        self.slots.len()
    }

    /// The number of vacant slots: so many requests in a row are served.
    pub fn vacancies(&self) -> (n: usize)
        requires
            self.wf(),
        ensures
            n == self@.vacant_count(),
            n == 0 <==> self@.full(),
    {
        proof {
            self@.lemma_vacant_count();
        }
        self.vacant
    }

    /// Whether `h` is live, in constant time.
    pub fn is_live(&self, h: Handle) -> (b: bool)
        ensures
            b == self@.is_live(h),
    {
        if h.index < self.slots.len() {
            let slot = self.slots[h.index];
            slot.occupied && slot.generation == h.generation
        } else {
            false
        }
    }

    /// The live handle of slot `index`, if the slot is in use.
    pub fn handle_at(&self, index: usize) -> (r: Option<Handle>)
        ensures
            match r {
                Some(h) => h.index == index && self@.is_live(h),
                None => !self@.occupied(index as int),
            },
    {
        if index < self.slots.len() {
            let slot = self.slots[index];
            if slot.occupied {
                Some(Handle { index, generation: slot.generation })
            } else {
                None
            }
        } else {
            None
        }
    }

    /// Hands out the lowest-numbered vacant slot. Slots that were freed are
    /// therefore used again before a slot that was never handed out.
    /// Fails with `CapacityExceeded` when no slot is vacant.
    pub fn allocate(&mut self) -> (r: Result<Handle, Error>)
        requires
            old(self).wf(),
        ensures
            final(self).wf(),
            match r {
                Ok(h) => {
                    &&& old(self)@.lowest_vacant(h.index as int)
                    &&& h.index <= old(self)@.slots.len()
                    &&& h.generation == old(self)@.generation(h.index as int)
                    &&& final(self)@ == old(self)@.occupy(h.index as int)
                    &&& final(self)@.is_live(h)
                },
                Err(e) => {
                    &&& e == Error::CapacityExceeded
                    &&& old(self)@.full()
                    &&& final(self)@ == old(self)@
                },
            },
            final(self)@ == old(self)@.allocated(),
    {
        let mut i: usize = self.hint;
        while i < self.slots.len() && (self.slots[i].occupied || self.slots[i].generation
            == u64::MAX)
            invariant
                self.wf(),
                *self == *old(self),
                self.hint <= i <= self.slots.len(),
                forall|j: int| 0 <= j < i ==> !self@.vacant(j),
            decreases self.slots.len() - i,
        {
            i = i + 1;
        }
        if i < self.slots.len() {
            let generation: u64 = self.slots[i].generation;
            proof {
                self@.lemma_occupy(i as int);
                self@.lemma_occupy_vacancies(i as int);
            }
            self.slots[i] = Slot { generation, occupied: true };
            self.live = self.live + 1;
            self.vacant = self.vacant - 1;
            self.hint = i + 1;
            proof {
                assert(self@.slots =~= old(self)@.occupy(i as int).slots);
                assert forall|j: int| 0 <= j < self.hint implies !self@.vacant(j) by {
                    assert(!old(self)@.vacant(j) || j == i);
                }
                old(self)@.lemma_first_vacant_is(i as int);
            }
            Ok(Handle { index: i, generation })
        } else if self.slots.len() < self.capacity {
            proof {
                self@.lemma_occupy(i as int);
                self@.lemma_occupy_vacancies(i as int);
            }
            self.slots.push(Slot { generation: 0, occupied: true });
            self.live = self.live + 1;
            self.vacant = self.vacant - 1;
            self.hint = i + 1;
            proof {
                assert(self@.slots =~= old(self)@.occupy(i as int).slots);
                assert forall|j: int| 0 <= j < self.hint implies !self@.vacant(j) by {
                    assert(!old(self)@.vacant(j) || j == i);
                }
                old(self)@.lemma_first_vacant_is(i as int);
            }
            Ok(Handle { index: i, generation: 0 })
        } else {
            Err(Error::CapacityExceeded)
        }
    }

    /// Returns the slot of `h` to the free list and retires `h`.
    /// Fails with `InvalidHandle` when `h` is not live: out of range,
    /// already freed, or of an earlier generation.
    pub fn free(&mut self, h: Handle) -> (r: Result<(), Error>)
        requires
            old(self).wf(),
        ensures
            final(self).wf(),
            match r {
                Ok(()) => {
                    &&& old(self)@.is_live(h)
                    &&& final(self)@ == old(self)@.release(h.index as int)
                    &&& final(self)@.retired(h)
                },
                Err(e) => {
                    &&& e == Error::InvalidHandle
                    &&& !old(self)@.is_live(h)
                    &&& final(self)@ == old(self)@
                },
            },
            final(self)@ == old(self)@.freed(h),
    {
        if !self.is_live(h) {
            return Err(Error::InvalidHandle);
        }
        proof {
            self@.lemma_release(h.index as int);
            self@.lemma_release_vacancies(h.index as int);
            self@.release(h.index as int).lemma_vacant_count();
        }
        self.slots[h.index] = Slot { generation: h.generation + 1, occupied: false };
        self.live = self.live - 1;
        if h.generation + 1 < u64::MAX {
            self.vacant = self.vacant + 1;
        }
        if h.index < self.hint {
            self.hint = h.index;
        }
        proof {
            assert(self@.slots =~= old(self)@.release(h.index as int).slots);
            assert forall|j: int| 0 <= j < self.hint implies !self@.vacant(j) by {
                assert(!old(self)@.vacant(j));
            }
        }
        Ok(())
    }
}

} // verus!
