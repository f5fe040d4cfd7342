//! The sprite pool: named animation clips and the sprites that play them.

use crate::error::Error;
use crate::slot::{Handle, SlotTable};
use crate::sprite::{Clip, ClipDef, SpriteInstance};
use crate::table::Column;
use crate::text::same_text;
use vstd::pervasive::unreached;
use vstd::prelude::*;

verus! {

/// Whether a clip named `name` is in the table `clips`.
pub open spec fn known(clips: Seq<Clip>, name: Seq<char>) -> bool {
    exists|i: int| 0 <= i < clips.len() && (#[trigger] clips[i]).name == name
}

/// The number of the clip named `name` in `clips`, where there is one.
pub open spec fn clip_named(clips: Seq<Clip>, name: Seq<char>) -> int {
    choose|i: int| 0 <= i < clips.len() && (#[trigger] clips[i]).name == name
}

/// No two clips of the table share a name.
pub open spec fn distinct_names(clips: Seq<Clip>) -> bool {
    forall|i: int, j: int|
        0 <= i < j < clips.len() ==> (#[trigger] clips[i]).name != (#[trigger] clips[j]).name
}

/// What one tick does to a sprite of a pool with the clip table `clips`:
/// it advances on its clip; a sprite whose clip number is not in the table
/// stays as it is.
pub open spec fn ticked(clips: Seq<Clip>, s: SpriteInstance, delta: u64) -> SpriteInstance {
    if s.clip < clips.len() {
        s.advanced(clips[s.clip as int], delta)
    } else {
        s
    }
}

/// What one tick does to the sprites of a pool: each of them is ticked.
pub open spec fn ticked_all(
    clips: Seq<Clip>,
    sprites: Map<Handle, SpriteInstance>,
    delta: u64,
) -> Map<Handle, SpriteInstance> {
    sprites.map_values(|s: SpriteInstance| ticked(clips, s, delta))
}

/// In a table of distinct names, the clip of a given name is the one that
/// `clip_named` picks.
pub proof fn lemma_clip_named(clips: Seq<Clip>, name: Seq<char>, i: int)
    requires
        distinct_names(clips),
        0 <= i < clips.len(),
        clips[i].name == name,
    ensures
        known(clips, name),
        clip_named(clips, name) == i,
{
    let j = clip_named(clips, name);
    assert(clips[j].name == name);
}

/// Asking twice in a row for the same clip leaves the sprites as asking
/// once does: the second request finds the sprite on that clip and changes
/// nothing.
pub proof fn lemma_change_state_twice(sprites: Map<Handle, SpriteInstance>, h: Handle, clip: usize)
    requires
        sprites.dom().contains(h),
    ensures
        ({
            let once = sprites.insert(h, sprites[h].switched(clip as int));
            once.insert(h, once[h].switched(clip as int)) == once
        }),
{
    let once = sprites.insert(h, sprites[h].switched(clip as int));
    assert(once.insert(h, once[h].switched(clip as int)) =~= once);
}

/// Clip definitions and sprite instances.
pub struct SpritePool {
    clips: Vec<ClipDef>,
    sprites: Column<SpriteInstance>,
}

/// Mathematical picture of a pool: the clip table, the sprite of every live
/// handle, and the slots of the allocator.
pub struct PoolView {
    pub clips: Seq<Clip>,
    pub sprites: Map<Handle, SpriteInstance>,
    pub slots: SlotTable,
}

impl View for SpritePool {
    type V = PoolView;

    open spec fn view(&self) -> PoolView {
        PoolView { clips: self.clips(), sprites: self.sprites(), slots: self.slots() }
    }
}

impl SpritePool {
    /// The clip table.
    pub closed spec fn clips(&self) -> Seq<Clip> {
        self.clips@.map_values(|c: ClipDef| c@)
    }

    /// The sprite of every live handle.
    pub closed spec fn sprites(&self) -> Map<Handle, SpriteInstance> {
        self.sprites@
    }

    /// The slots of the pool's allocator.
    pub closed spec fn slots(&self) -> SlotTable {
        self.sprites.slots()
    }

    /// What holds of the private storage.
    pub closed spec fn storage_wf(&self) -> bool {
        self.sprites.wf()
    }

    /// Well-formedness: every constructor establishes it and every method
    /// keeps it.
    pub open spec fn wf(&self) -> bool {
        &&& self.slots().wf()
        &&& self.slots().capacity <= usize::MAX
        &&& distinct_names(self.clips())
        &&& self.storage_wf()
    }

    /// The handles that have a sprite are the live handles of the allocator.
    pub proof fn lemma_live(&self)
        ensures
            forall|h: Handle| #[trigger] self.sprites().dom().contains(h) <==> self.slots().is_live(h),
    {
    }

    /// A handle that was removed names no sprite, so every query reports
    /// `NotFound` for it. By `lemma_freed_handle_stays_dead` of the slot
    /// allocator this stays so whatever is added or removed afterwards.
    pub proof fn lemma_retired_is_gone(&self, h: Handle)
        requires
            self.slots().retired(h),
        ensures
            !self.sprites().dom().contains(h),
    {
    }

    /// A pool without clips or sprites, with room for `capacity` sprites.
    pub fn new(capacity: usize) -> (p: SpritePool)
        ensures
            p.wf(),
            p.clips() == Seq::<Clip>::empty(),
            p.sprites() == Map::<Handle, SpriteInstance>::empty(),
            p.slots() == SlotTable::empty(capacity as nat),
    {
        let p = SpritePool { clips: Vec::new(), sprites: Column::new(capacity) };
        assert(p.clips() =~= Seq::<Clip>::empty());
        p
    }

    /// The number of live sprites, which never exceeds the capacity.
    pub fn len(&self) -> (n: usize)
        requires
            self.wf(),
        ensures
            n == self.slots().live_count(),
            n <= self.slots().capacity,
    {
        self.sprites.len()
    }

    /// The fixed number of sprites the pool can hold.
    pub fn capacity(&self) -> (n: usize)
        ensures
            n == self.slots().capacity,
    {
        self.sprites.capacity()
    }

    /// The number of vacant slots: so many sprites can still be added.
    pub fn vacancies(&self) -> (n: usize)
        requires
            self.wf(),
        ensures
            n == self.slots().vacant_count(),
            n == 0 <==> self.slots().full(),
    {
        self.sprites.vacancies()
    }

    /// The number of clips registered.
    pub fn clip_count(&self) -> (n: usize)
        ensures
            n == self.clips().len(),
    {
        self.clips.len()
    }

    /// Whether `h` names a live sprite.
    pub fn contains(&self, h: Handle) -> (b: bool)
        ensures
            b == self.sprites().dom().contains(h),
    {
        self.sprites.contains(h)
    }

    /// The number of the clip named `name`.
    pub fn find_clip(&self, name: &str) -> (r: Option<usize>)
        requires
            self.wf(),
        ensures
            match r {
                Some(i) => known(self.clips(), name@) && i == clip_named(self.clips(), name@),
                None => !known(self.clips(), name@),
            },
    {
        let n: usize = self.clips.len();
        let mut i: usize = 0;
        while i < n
            invariant
                self.wf(),
                n == self.clips@.len(),
                i <= n,
                forall|k: int| 0 <= k < i ==> (#[trigger] self.clips()[k]).name != name@,
            decreases n - i,
        {
            if same_text(self.clips[i].name.as_str(), name) {
                proof {
                    lemma_clip_named(self.clips(), name@, i as int);
                }
                return Some(i);
            }
            i = i + 1;
        }
        None
    }

    /// The clip number `index`.
    pub fn clip(&self, index: usize) -> (r: Option<&ClipDef>)
        ensures
            match r {
                Some(c) => index < self.clips().len() && c@ == self.clips()[index as int],
                None => index >= self.clips().len(),
            },
    {
        if index < self.clips.len() {
            Some(&self.clips[index])
        } else {
            None
        }
    }

    /// Registers a clip and returns its number. Fails with `AlreadyPresent`
    /// when a clip of that name is registered; the pool is then unchanged.
    pub fn add_clip(&mut self, clip: ClipDef) -> (r: Result<usize, Error>)
        requires
            old(self).wf(),
        ensures
            final(self).wf(),
            final(self).sprites() == old(self).sprites(),
            final(self).slots() == old(self).slots(),
            match r {
                Ok(i) => {
                    &&& !known(old(self).clips(), clip@.name)
                    &&& i == old(self).clips().len()
                    &&& final(self).clips() == old(self).clips().push(clip@)
                },
                Err(e) => {
                    &&& e == Error::AlreadyPresent
                    &&& known(old(self).clips(), clip@.name)
                    &&& final(self).clips() == old(self).clips()
                },
            },
    {
        if self.find_clip(clip.name.as_str()).is_some() {
            return Err(Error::AlreadyPresent);
        }
        let i: usize = self.clips.len();
        self.clips.push(clip);
        proof {
            assert(self.clips() =~= old(self).clips().push(clip@));
            assert forall|a: int, b: int| 0 <= a < b < self.clips().len() implies (
            #[trigger] self.clips()[a]).name != (#[trigger] self.clips()[b]).name by {
                if b == i {
                    assert(old(self).clips()[a].name != clip@.name);
                } else {
                    assert(old(self).clips()[a].name != old(self).clips()[b].name);
                }
            }
        }
        Ok(i)
    }

    /// Every live handle with its sprite, by ascending slot index. The
    /// traversal is made anew at each call.
    pub fn iter(&self) -> (r: Vec<(Handle, &SpriteInstance)>)
        requires
            self.wf(),
        ensures
            forall|k: int|
                0 <= k < r@.len() ==> self.sprites().dom().contains((#[trigger] r@[k]).0)
                    && *r@[k].1 == self.sprites()[r@[k].0],
            forall|i: int, j: int|
                0 <= i < j < r@.len() ==> (#[trigger] r@[i]).0.index < (#[trigger] r@[j]).0.index,
            forall|h: Handle|
                self.sprites().dom().contains(h) ==> exists|k: int|
                    0 <= k < r@.len() && (#[trigger] r@[k]).0 == h,
    {
        self.sprites.iter()
    }

    /// The sprite of `h`. Fails with `NotFound` when `h` is not live.
    pub fn get(&self, h: Handle) -> (r: Result<&SpriteInstance, Error>)
        requires
            self.wf(),
        ensures
            match r {
                Ok(s) => self.sprites().dom().contains(h) && *s == self.sprites()[h],
                Err(e) => e == Error::NotFound && !self.sprites().dom().contains(h),
            },
    {
        self.sprites.get(h)
    }

    /// Mutable access to the sprite of `h`: the pool afterwards holds what
    /// the caller leaves behind the reference. Fails with `NotFound` when
    /// `h` is not live.
    pub fn get_mut(&mut self, h: Handle) -> (r: Result<&mut SpriteInstance, Error>)
        requires
            old(self).wf(),
        ensures
            final(self).wf(),
            final(self).clips() == old(self).clips(),
            final(self).slots() == old(self).slots(),
            match r {
                Ok(s) => {
                    &&& old(self).sprites().dom().contains(h)
                    &&& *s == old(self).sprites()[h]
                    &&& final(self).sprites() == old(self).sprites().insert(h, *final(s))
                },
                Err(e) => {
                    &&& e == Error::NotFound
                    &&& !old(self).sprites().dom().contains(h)
                    &&& final(self).sprites() == old(self).sprites()
                },
            },
    {
        self.sprites.get_mut(h)
    }

    /// Creates a sprite on the clip named `clip_name`, at its first frame,
    /// and returns its fresh handle with access to it. Fails with
    /// `UnknownClip` when no clip has that name, else with
    /// `CapacityExceeded` when the pool is full; the pool is then unchanged.
    pub fn add_sprite(&mut self, clip_name: &str, position: (i64, i64), depth: i64) -> (r: Result<
        (Handle, &mut SpriteInstance),
        Error,
    >)
        requires
            old(self).wf(),
        ensures
            final(self).wf(),
            final(self).clips() == old(self).clips(),
            match r {
                Ok((h, s)) => {
                    &&& known(old(self).clips(), clip_name@)
                    &&& *s == SpriteInstance::fresh(
                        clip_named(old(self).clips(), clip_name@),
                        old(self).clips()[clip_named(old(self).clips(), clip_name@)],
                        position,
                        depth,
                    )
                    &&& old(self).slots().lowest_vacant(h.index as int)
                    &&& h.generation == old(self).slots().generation(h.index as int)
                    &&& !old(self).sprites().dom().contains(h)
                    &&& final(self).slots() == old(self).slots().occupy(h.index as int)
                    &&& final(self).sprites() == old(self).sprites().insert(h, *final(s))
                },
                Err(e) => {
                    &&& final(self).slots() == old(self).slots()
                    &&& final(self).sprites() == old(self).sprites()
                    &&& if known(old(self).clips(), clip_name@) {
                        e == Error::CapacityExceeded && old(self).slots().full()
                    } else {
                        e == Error::UnknownClip
                    }
                },
            },
    {
        let c: usize = match self.find_clip(clip_name) {
            Some(c) => c,
            None => {
                return Err(Error::UnknownClip);
            },
        };
        let sprite = SpriteInstance::new(c, &self.clips[c], position, depth);
        let h: Handle = match self.sprites.insert(sprite) {
            Ok(h) => h,
            Err(e) => {
                return Err(e);
            },
        };
        match self.sprites.get_mut(h) {
            Ok(s) => Ok((h, s)),
            Err(_) => unreached(),
        }
    }

    /// Creates a sprite that equals the sprite of `source` in every field,
    /// in a slot of its own, and returns its fresh handle with access to it.
    /// Fails with `NotFound` when `source` is not live, else with
    /// `CapacityExceeded` when the pool is full; the pool is then unchanged.
    pub fn clone_add(&mut self, source: Handle) -> (r: Result<(Handle, &mut SpriteInstance), Error>)
        requires
            old(self).wf(),
        ensures
            final(self).wf(),
            final(self).clips() == old(self).clips(),
            match r {
                Ok((h, s)) => {
                    &&& old(self).sprites().dom().contains(source)
                    &&& *s == old(self).sprites()[source]
                    &&& h != source
                    &&& final(self).sprites()[source] == old(self).sprites()[source]
                    &&& old(self).slots().lowest_vacant(h.index as int)
                    &&& h.generation == old(self).slots().generation(h.index as int)
                    &&& !old(self).sprites().dom().contains(h)
                    &&& final(self).slots() == old(self).slots().occupy(h.index as int)
                    &&& final(self).sprites() == old(self).sprites().insert(h, *final(s))
                },
                Err(e) => {
                    &&& final(self).slots() == old(self).slots()
                    &&& final(self).sprites() == old(self).sprites()
                    &&& if old(self).sprites().dom().contains(source) {
                        e == Error::CapacityExceeded && old(self).slots().full()
                    } else {
                        e == Error::NotFound
                    }
                },
            },
    {
        let copy: SpriteInstance = match self.sprites.get(source) {
            Ok(s) => *s,
            Err(e) => {
                return Err(e);
            },
        };
        let h: Handle = match self.sprites.insert(copy) {
            Ok(h) => h,
            Err(e) => {
                return Err(e);
            },
        };
        match self.sprites.get_mut(h) {
            Ok(s) => Ok((h, s)),
            Err(_) => unreached(),
        }
    }

    /// Removes the sprite of `h` and retires `h`. Nothing else is removed
    /// with it. Fails with `NotFound` when `h` is not live; the pool is then
    /// unchanged.
    pub fn remove_sprite(&mut self, h: Handle) -> (r: Result<(), Error>)
        requires
            old(self).wf(),
        ensures
            final(self).wf(),
            final(self).clips() == old(self).clips(),
            match r {
                Ok(()) => {
                    &&& old(self).sprites().dom().contains(h)
                    &&& final(self).slots() == old(self).slots().release(h.index as int)
                    &&& final(self).slots().retired(h)
                    &&& final(self).sprites() == old(self).sprites().remove(h)
                },
                Err(e) => {
                    &&& e == Error::NotFound
                    &&& !old(self).sprites().dom().contains(h)
                    &&& final(self).slots() == old(self).slots()
                    &&& final(self).sprites() == old(self).sprites()
                },
            },
    {
        match self.sprites.remove(h) {
            Ok(_) => Ok(()),
            Err(e) => Err(e),
        }
    }

    /// Makes the sprite of `h` play the clip named `clip_name`. Asking for
    /// the clip that plays already changes nothing; another clip starts at
    /// its first frame with no time elapsed, and every flag is kept. Fails
    /// with `UnknownClip` when no clip has that name, else with `NotFound`
    /// when `h` is not live; the pool is then unchanged.
    pub fn change_state(&mut self, h: Handle, clip_name: &str) -> (r: Result<(), Error>)
        requires
            old(self).wf(),
        ensures
            final(self).wf(),
            final(self).clips() == old(self).clips(),
            final(self).slots() == old(self).slots(),
            match r {
                Ok(()) => {
                    &&& known(old(self).clips(), clip_name@)
                    &&& old(self).sprites().dom().contains(h)
                    &&& final(self).sprites() == old(self).sprites().insert(
                        h,
                        old(self).sprites()[h].switched(clip_named(old(self).clips(), clip_name@)),
                    )
                },
                Err(e) => {
                    &&& final(self).sprites() == old(self).sprites()
                    &&& if known(old(self).clips(), clip_name@) {
                        e == Error::NotFound && !old(self).sprites().dom().contains(h)
                    } else {
                        e == Error::UnknownClip
                    }
                },
            },
    {
        let c: usize = match self.find_clip(clip_name) {
            Some(c) => c,
            None => {
                return Err(Error::UnknownClip);
            },
        };
        match self.sprites.get_mut(h) {
            Ok(s) => {
                s.switch_clip(c);
                Ok(())
            },
            Err(e) => Err(e),
        }
    }

    /// Lets `delta` of time pass for every live sprite.
    pub fn advance(&mut self, delta: u64)
        requires
            old(self).wf(),
        ensures
            final(self).wf(),
            final(self).clips() == old(self).clips(),
            final(self).slots() == old(self).slots(),
            final(self).sprites() == ticked_all(old(self).clips(), old(self).sprites(), delta),
    {
        let n: usize = self.sprites.touched();
        let mut i: usize = 0;
        while i < n
            invariant
                self.wf(),
                self.clips() == old(self).clips(),
                self.slots() == old(self).slots(),
                self.clips@ == old(self).clips@,
                n == self.slots().slots.len(),
                i <= n,
                self.sprites().dom() == old(self).sprites().dom(),
                forall|h: Handle| #[trigger]
                    old(self).sprites().dom().contains(h) ==> self.sprites()[h] == (if h.index
                        < i {
                        ticked(old(self).clips(), old(self).sprites()[h], delta)
                    } else {
                        old(self).sprites()[h]
                    }),
            decreases n - i,
        {
            match self.sprites.handle_at(i) {
                Some(h) => {
                    match self.sprites.get_mut(h) {
                        Ok(s) => {
                            if s.clip < self.clips.len() {
                                s.advance(&self.clips[s.clip], delta);
                            }
                        },
                        Err(_) => unreached(),
                    }
                },
                None => {},
            }
            i = i + 1;
        }
        assert(self.sprites() =~= ticked_all(old(self).clips(), old(self).sprites(), delta));
    }
}

} // verus!
