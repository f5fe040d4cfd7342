//! Component storage and state singletons.
//!
//! A `Column` keeps one value per live handle of its own slot allocator.
//! A `Singleton` keeps at most one value of a type.

use crate::error::Error;
use crate::slot::{Handle, SlotAllocator, SlotTable};
use vstd::pervasive::unreached;
use vstd::prelude::*;

verus! {

/// Values of one component type, addressed by handle.
pub struct Column<T> {
    alloc: SlotAllocator,
    values: Vec<Option<T>>,
}

impl<T> View for Column<T> {
    type V = Map<Handle, T>;

    /// The value of every live handle.
    open spec fn view(&self) -> Map<Handle, T> {
        Map::new(|h: Handle| self.slots().is_live(h), |h: Handle| self.value_at(h.index as int))
    }
}

impl<T> Column<T> {
    /// The slots of the column's allocator.
    pub closed spec fn slots(&self) -> SlotTable {
        self.alloc@
    }

    /// The value kept in slot `i`, where the slot is in use.
    pub closed spec fn value_at(&self, i: int) -> T {
        self.values@[i]->Some_0
    }

    /// What holds of the private storage: a value is kept exactly for the
    /// slots in use.
    pub closed spec fn storage_wf(&self) -> bool {
        &&& self.alloc.wf()
        &&& self.values@.len() == self.alloc@.slots.len()
        &&& forall|i: int|
            0 <= i < self.values@.len() ==> (#[trigger] self.values@[i]).is_some()
                == self.alloc@.occupied(i)
    }

    /// Well-formedness: every constructor establishes it and every method
    /// keeps it.
    pub open spec fn wf(&self) -> bool {
        &&& self.slots().wf()
        &&& self.slots().capacity <= usize::MAX
        &&& self.storage_wf()
    }

    /// A handle that was freed names no value, so `get`, `get_mut` and
    /// `remove` report `NotFound` for it. By
    /// `lemma_freed_handle_stays_dead` of the slot allocator this stays so
    /// whatever is inserted or removed afterwards.
    pub proof fn lemma_retired_is_gone(&self, h: Handle)
        requires
            self.slots().retired(h),
        ensures
            !self@.dom().contains(h),
    {
    }

    /// An empty column with room for `capacity` values.
    pub fn new(capacity: usize) -> (c: Column<T>)
        ensures
            c.wf(),
            c@ == Map::<Handle, T>::empty(),
            c.slots() == SlotTable::empty(capacity as nat),
    {
        let c = Column { alloc: SlotAllocator::new(capacity), values: Vec::new() };
        assert(c@ =~= Map::<Handle, T>::empty());
        c
    }

    /// The fixed number of values the column can hold.
    pub fn capacity(&self) -> (n: usize)
        ensures
            n == self.slots().capacity,
    {
        self.alloc.capacity()
    }

    /// The number of live handles, which never exceeds the capacity.
    pub fn len(&self) -> (n: usize)
        requires
            self.wf(),
        ensures
            n == self.slots().live_count(),
            n <= self.slots().capacity,
    {
        self.alloc.len()
    }

    /// The number of vacant slots: so many insertions in a row succeed.
    pub fn vacancies(&self) -> (n: usize)
        requires
            self.wf(),
        ensures
            n == self.slots().vacant_count(),
            n == 0 <==> self.slots().full(),
    {
        self.alloc.vacancies()
    }

    /// Whether `h` is live, in constant time.
    pub fn contains(&self, h: Handle) -> (b: bool)
        ensures
            b == self@.dom().contains(h),
    {
        self.alloc.is_live(h)
    }

    /// The number of slots that were ever used; every live handle has an
    /// index below it.
    pub fn touched(&self) -> (n: usize)
        ensures
            n == self.slots().slots.len(),
    {
        self.alloc.touched()
    }

    /// The live handle of slot `index`, if the slot is in use.
    pub fn handle_at(&self, index: usize) -> (r: Option<Handle>)
        ensures
            match r {
                Some(h) => h.index == index && self@.dom().contains(h),
                None => !self.slots().occupied(index as int),
            },
    {
        self.alloc.handle_at(index)
    }

    /// Every live handle with its value, by ascending slot index. The
    /// traversal is made anew at each call.
    pub fn iter(&self) -> (r: Vec<(Handle, &T)>)
        requires
            self.wf(),
        ensures
            forall|k: int|
                0 <= k < r@.len() ==> self@.dom().contains((#[trigger] r@[k]).0) && *r@[k].1
                    == self@[r@[k].0],
            forall|i: int, j: int|
                0 <= i < j < r@.len() ==> (#[trigger] r@[i]).0.index < (#[trigger] r@[j]).0.index,
            forall|h: Handle|
                self@.dom().contains(h) ==> exists|k: int|
                    0 <= k < r@.len() && (#[trigger] r@[k]).0 == h,
    {
        let mut out: Vec<(Handle, &T)> = Vec::new();
        let n: usize = self.values.len();
        let mut i: usize = 0;
        while i < n
            invariant
                self.wf(),
                n == self.values@.len(),
                i <= n,
                forall|k: int|
                    0 <= k < out@.len() ==> self@.dom().contains((#[trigger] out@[k]).0)
                        && *out@[k].1 == self@[out@[k].0] && out@[k].0.index < i,
                forall|a: int, b: int|
                    0 <= a < b < out@.len() ==> (#[trigger] out@[a]).0.index < (
                    #[trigger] out@[b]).0.index,
                forall|h: Handle|
                    self@.dom().contains(h) && h.index < i ==> exists|k: int|
                        0 <= k < out@.len() && (#[trigger] out@[k]).0 == h,
            decreases n - i,
        {
            match self.alloc.handle_at(i) {
                Some(h) => {
                    match &self.values[i] {
                        Some(v) => {
                            let ghost before = out@;
                            out.push((h, v));
                            proof {
                                assert forall|g: Handle|
                                    self@.dom().contains(g) && g.index < i + 1 implies exists|
                                    k: int,
                                |
                                    0 <= k < out@.len() && (#[trigger] out@[k]).0 == g by {
                                    if g.index < i {
                                        let k = choose|k: int|
                                            0 <= k < before.len() && (#[trigger] before[k]).0 == g;
                                        assert(out@[k].0 == g);
                                    } else {
                                        assert(out@[before.len() as int].0 == g);
                                    }
                                }
                            }
                        },
                        None => unreached(),
                    }
                },
                None => {},
            }
            i = i + 1;
        }
        out
    }

    /// Stores `value` in the lowest-numbered vacant slot and returns its
    /// fresh handle. Fails with `CapacityExceeded` when no slot is vacant;
    /// the column is then unchanged.
    pub fn insert(&mut self, value: T) -> (r: Result<Handle, Error>)
        requires
            old(self).wf(),
        ensures
            final(self).wf(),
            match r {
                Ok(h) => {
                    &&& old(self).slots().lowest_vacant(h.index as int)
                    &&& h.generation == old(self).slots().generation(h.index as int)
                    &&& !old(self)@.dom().contains(h)
                    &&& !old(self).slots().retired(h)
                    &&& final(self).slots() == old(self).slots().occupy(h.index as int)
                    &&& final(self)@ == old(self)@.insert(h, value)
                },
                Err(e) => {
                    &&& e == Error::CapacityExceeded
                    &&& old(self).slots().full()
                    &&& final(self).slots() == old(self).slots()
                    &&& final(self)@ == old(self)@
                },
            },
    {
        match self.alloc.allocate() {
            Ok(h) => {
                if h.index < self.values.len() {
                    self.values[h.index] = Some(value);
                } else {
                    self.values.push(Some(value));
                }
                assert(self@ =~= old(self)@.insert(h, value));
                Ok(h)
            },
            Err(e) => {
                assert(self@ =~= old(self)@);
                Err(e)
            },
        }
    }

    /// The value of `h`. Fails with `NotFound` when `h` is not live.
    pub fn get(&self, h: Handle) -> (r: Result<&T, Error>)
        requires
            self.wf(),
        ensures
            match r {
                Ok(v) => self@.dom().contains(h) && *v == self@[h],
                Err(e) => e == Error::NotFound && !self@.dom().contains(h),
            },
    {
        if !self.alloc.is_live(h) {
            return Err(Error::NotFound);
        }
        match &self.values[h.index] {
            Some(v) => Ok(v),
            None => unreached(),
        }
    }

    /// Mutable access to the value of `h`: the column afterwards holds what
    /// the caller leaves behind the reference, and is otherwise unchanged.
    /// Fails with `NotFound` when `h` is not live.
    pub fn get_mut(&mut self, h: Handle) -> (r: Result<&mut T, Error>)
        requires
            old(self).wf(),
        ensures
            final(self).wf(),
            final(self).slots() == old(self).slots(),
            match r {
                Ok(v) => {
                    &&& old(self)@.dom().contains(h)
                    &&& *v == old(self)@[h]
                    &&& final(self)@ == old(self)@.insert(h, *final(v))
                },
                Err(e) => {
                    &&& e == Error::NotFound
                    &&& !old(self)@.dom().contains(h)
                    &&& final(self)@ == old(self)@
                },
            },
    {
        if !self.alloc.is_live(h) {
            return Err(Error::NotFound);
        }
        match &mut self.values[h.index] {
            Some(v) => Ok(v),
            None => unreached(),
        }
    }

    /// Takes the value of `h` out and retires `h`. Fails with `NotFound`
    /// when `h` is not live; the column is then unchanged.
    pub fn remove(&mut self, h: Handle) -> (r: Result<T, Error>)
        requires
            old(self).wf(),
        ensures
            final(self).wf(),
            match r {
                Ok(v) => {
                    &&& old(self)@.dom().contains(h)
                    &&& v == old(self)@[h]
                    &&& final(self).slots() == old(self).slots().release(h.index as int)
                    &&& final(self).slots().retired(h)
                    &&& final(self)@ == old(self)@.remove(h)
                },
                Err(e) => {
                    &&& e == Error::NotFound
                    &&& !old(self)@.dom().contains(h)
                    &&& final(self).slots() == old(self).slots()
                    &&& final(self)@ == old(self)@
                },
            },
    {
        match self.alloc.free(h) {
            Ok(()) => {
                let taken = self.values[h.index].take();
                assert(self@ =~= old(self)@.remove(h));
                match taken {
                    Some(v) => Ok(v),
                    None => unreached(),
                }
            },
            Err(_) => {
                assert(self@ =~= old(self)@);
                Err(Error::NotFound)
            },
        }
    }
}

/// Holder of at most one value of a type: a state that exists once, not
/// per handle.
pub struct Singleton<T> {
    value: Option<T>,
}

impl<T> View for Singleton<T> {
    type V = Option<T>;

    closed spec fn view(&self) -> Option<T> {
        self.value
    }
}

impl<T> Singleton<T> {
    /// A holder with no value registered.
    pub fn new() -> (s: Singleton<T>)
        ensures
            s@ is None,
    {
        Singleton { value: None }
    }

    /// Whether a value is registered.
    pub fn is_present(&self) -> (b: bool)
        ensures
            b == (self@ is Some),
    {
        self.value.is_some()
    }

    /// Registers `value`. Fails with `AlreadyPresent` when a value is
    /// registered already; that value then stays.
    pub fn add_state(&mut self, value: T) -> (r: Result<(), Error>)
        ensures
            match r {
                Ok(()) => old(self)@ is None && final(self)@ == Some(value),
                Err(e) => {
                    &&& e == Error::AlreadyPresent
                    &&& old(self)@ is Some
                    &&& final(self)@ == old(self)@
                },
            },
    {
        if self.value.is_some() {
            Err(Error::AlreadyPresent)
        } else {
            self.value = Some(value);
            Ok(())
        }
    }

    /// The registered value, read only. Fails with `NotFound` when none is
    /// registered.
    pub fn peek_state(&self) -> (r: Result<&T, Error>)
        ensures
            match r {
                Ok(v) => self@ == Some(*v),
                Err(e) => e == Error::NotFound && self@ is None,
            },
    {
        match &self.value {
            Some(v) => Ok(v),
            None => Err(Error::NotFound),
        }
    }

    /// Mutable access to the registered value: the holder afterwards keeps
    /// what the caller leaves behind the reference. Fails with `NotFound`
    /// when none is registered.
    pub fn read_state(&mut self) -> (r: Result<&mut T, Error>)
        ensures
            match r {
                Ok(v) => old(self)@ == Some(*v) && final(self)@ == Some(*final(v)),
                Err(e) => e == Error::NotFound && old(self)@ is None && final(self)@ is None,
            },
    {
        match &mut self.value {
            Some(v) => Ok(v),
            None => Err(Error::NotFound),
        }
    }

    /// Takes the registered value out. Fails with `NotFound` when none is
    /// registered.
    pub fn remove_state(&mut self) -> (r: Result<T, Error>)
        ensures
            final(self)@ is None,
            match r {
                Ok(v) => old(self)@ == Some(v),
                Err(e) => e == Error::NotFound && old(self)@ is None,
            },
    {
        match self.value.take() {
            Some(v) => Ok(v),
            None => Err(Error::NotFound),
        }
    }
}

} // verus!
