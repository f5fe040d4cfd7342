//! The collision manager: axis-aligned rectangles addressed by handle.
//!
//! A rectangle either stands alone, as static geometry, or names the sprite
//! whose place and size it takes over when it is synchronised. Removing a
//! sprite does not remove the rectangles that name it.

use crate::error::Error;
use crate::pool::SpritePool;
use crate::slot::{Handle, SlotTable};
use crate::sprite::SpriteInstance;
use crate::table::Column;
use vstd::pervasive::unreached;
use vstd::prelude::*;

verus! {

/// What a rectangle follows.
#[derive(Clone, Copy, Debug, PartialEq, Eq, Structural)]
pub enum Link {
    /// Static geometry without a sprite.
    Unlinked,
    /// The sprite of this handle in the sprite pool.
    Sprite(Handle),
}

/// An axis-aligned rectangle, given by its centre and its full extents.
#[derive(Clone, Copy, Debug, PartialEq, Eq, Structural)]
pub struct CollisionRect {
    pub pos_x: i64,
    pub pos_y: i64,
    pub width: i64,
    pub height: i64,
    pub link: Link,
}

/// Distance between two coordinates.
pub open spec fn distance(a: int, b: int) -> int {
    if a < b {
        b - a
    } else {
        a - b
    }
}

/// Two rectangles overlap when, on each axis, their centres are closer than
/// the sum of their half extents. Rectangles that only touch do not overlap.
pub open spec fn overlaps(a: CollisionRect, b: CollisionRect) -> bool {
    &&& 2 * distance(a.pos_x as int, b.pos_x as int) < a.width + b.width
    &&& 2 * distance(a.pos_y as int, b.pos_y as int) < a.height + b.height
}

/// Overlap does not depend on the order of the two rectangles, and a
/// rectangle overlaps itself exactly when it has a width and a height.
pub proof fn lemma_overlap_symmetric(a: CollisionRect, b: CollisionRect)
    ensures
        overlaps(a, b) == overlaps(b, a),
        overlaps(a, a) == (a.width > 0 && a.height > 0),
{
}

/// Whether the centres `a` and `b` are closer than half of `extent_a +
/// extent_b`.
fn closer_than_half(a: i64, b: i64, extent_a: i64, extent_b: i64) -> (r: bool)
    ensures
        r == (2 * distance(a as int, b as int) < extent_a + extent_b),
{
    let gap: i128 = if a < b {
        b as i128 - a as i128
    } else {
        a as i128 - b as i128
    };
    2 * gap < extent_a as i128 + extent_b as i128
}

impl CollisionRect {
    /// The rectangle with the place and size of `sprite`, and everything
    /// else as it was.
    pub open spec fn synced(self, sprite: SpriteInstance) -> CollisionRect {
        CollisionRect {
            pos_x: sprite.pos_x,
            pos_y: sprite.pos_y,
            width: sprite.width,
            height: sprite.height,
            link: self.link,
        }
    }

    /// Whether the rectangle overlaps `other`.
    pub fn overlaps_with(&self, other: &CollisionRect) -> (r: bool)
        ensures
            r == overlaps(*self, *other),
    {
        closer_than_half(self.pos_x, other.pos_x, self.width, other.width) && closer_than_half(
            self.pos_y,
            other.pos_y,
            self.height,
            other.height,
        )
    }

    /// Copies the place and size of `sprite` into the rectangle.
    pub fn sync_size_and_pos(&mut self, sprite: &SpriteInstance)
        ensures
            *final(self) == old(self).synced(*sprite),
    {
        self.pos_x = sprite.pos_x;
        self.pos_y = sprite.pos_y;
        self.width = sprite.width;
        self.height = sprite.height;
    }
}

/// What `sync_all` does to one rectangle, given the sprites alive: a
/// rectangle linked to a live sprite takes over its place and size, any
/// other rectangle stays as it is.
pub open spec fn followed(rect: CollisionRect, sprites: Map<Handle, SpriteInstance>) -> CollisionRect {
    match rect.link {
        Link::Sprite(s) => if sprites.dom().contains(s) {
            rect.synced(sprites[s])
        } else {
            rect
        },
        Link::Unlinked => rect,
    }
}

/// The rectangle is linked to a sprite that is not alive.
pub open spec fn dangling(rect: CollisionRect, sprites: Map<Handle, SpriteInstance>) -> bool {
    rect.link matches Link::Sprite(s) && !sprites.dom().contains(s)
}

/// What `sync_all` does to the rectangles of a manager: each of them
/// follows its sprite.
pub open spec fn followed_all(
    rects: Map<Handle, CollisionRect>,
    sprites: Map<Handle, SpriteInstance>,
) -> Map<Handle, CollisionRect> {
    rects.map_values(|rect: CollisionRect| followed(rect, sprites))
}

/// The pair `(a, b)` belongs in the list of colliding pairs of `rects`.
pub open spec fn colliding_pair(rects: Map<Handle, CollisionRect>, a: Handle, b: Handle) -> bool {
    &&& rects.dom().contains(a)
    &&& rects.dom().contains(b)
    &&& a.index < b.index
    &&& overlaps(rects[a], rects[b])
}

/// `list` holds exactly the colliding pairs of `rects`, each once, ordered
/// by the slot index of the first and then of the second rectangle.
pub open spec fn lists_collisions(
    list: Seq<(Handle, Handle)>,
    rects: Map<Handle, CollisionRect>,
) -> bool {
    &&& forall|k: int| 0 <= k < list.len() ==> colliding_pair(rects, (#[trigger] list[k]).0, list[k].1)
    &&& forall|a: Handle, b: Handle| #[trigger]
        colliding_pair(rects, a, b) ==> exists|k: int|
            0 <= k < list.len() && #[trigger] list[k] == (a, b)
    &&& forall|i: int, j: int|
        0 <= i < j < list.len() ==> (#[trigger] list[i]).0.index < (#[trigger] list[j]).0.index || (
        list[i].0.index == list[j].0.index && list[i].1.index < list[j].1.index)
}

/// The pair of slot indices `(a, b)` comes before `(i, j)` when pairs are
/// visited by ascending first and then second index.
pub open spec fn visited(a: int, b: int, i: int, j: int) -> bool {
    a < i || (a == i && b < j)
}

/// `list` holds exactly the colliding pairs of `rects` that come before the
/// pair of slot indices `(i, j)`, each once and in order.
pub open spec fn lists_collisions_before(
    list: Seq<(Handle, Handle)>,
    rects: Map<Handle, CollisionRect>,
    i: int,
    j: int,
) -> bool {
    &&& forall|k: int|
        0 <= k < list.len() ==> colliding_pair(rects, (#[trigger] list[k]).0, list[k].1) && visited(
            list[k].0.index as int,
            list[k].1.index as int,
            i,
            j,
        )
    &&& forall|a: Handle, b: Handle| #[trigger]
        colliding_pair(rects, a, b) && visited(a.index as int, b.index as int, i, j) ==> exists|
            k: int,
        |
            0 <= k < list.len() && #[trigger] list[k] == (a, b)
    &&& forall|x: int, y: int|
        0 <= x < y < list.len() ==> (#[trigger] list[x]).0.index < (#[trigger] list[y]).0.index || (
        list[x].0.index == list[y].0.index && list[x].1.index < list[y].1.index)
}

/// Rectangles and a list of the pairs found overlapping at the last refresh.
pub struct CollisionManager {
    rects: Column<CollisionRect>,
    colliding: Vec<(Handle, Handle)>,
}

/// Mathematical picture of a manager: the rectangle of every live handle,
/// the slots of the allocator, and the list of colliding pairs as it was
/// last refreshed.
pub struct ManagerView {
    pub rects: Map<Handle, CollisionRect>,
    pub slots: SlotTable,
    pub cached: Seq<(Handle, Handle)>,
}

impl View for CollisionManager {
    type V = ManagerView;

    open spec fn view(&self) -> ManagerView {
        ManagerView { rects: self.rects(), slots: self.slots(), cached: self.cached() }
    }
}

impl CollisionManager {
    /// The rectangle of every live handle.
    pub closed spec fn rects(&self) -> Map<Handle, CollisionRect> {
        self.rects@
    }

    /// The slots of the manager's allocator.
    pub closed spec fn slots(&self) -> SlotTable {
        self.rects.slots()
    }

    /// The list of colliding pairs as it was last refreshed. It is not kept
    /// up to date: only `refresh_colliding_list` writes it.
    pub closed spec fn cached(&self) -> Seq<(Handle, Handle)> {
        self.colliding@
    }

    /// What holds of the private storage.
    pub closed spec fn storage_wf(&self) -> bool {
        self.rects.wf()
    }

    /// Well-formedness: every constructor establishes it and every method
    /// keeps it.
    pub open spec fn wf(&self) -> bool {
        &&& self.slots().wf()
        &&& self.slots().capacity <= usize::MAX
        &&& self.storage_wf()
    }

    /// The handles that have a rectangle are the live handles of the
    /// allocator.
    pub proof fn lemma_live(&self)
        ensures
            forall|h: Handle| #[trigger] self.rects().dom().contains(h) <==> self.slots().is_live(h),
    {
    }

    /// A handle that was removed names no rectangle, so every query reports
    /// `NotFound` for it. By `lemma_freed_handle_stays_dead` of the slot
    /// allocator this stays so whatever is added or removed afterwards.
    pub proof fn lemma_retired_is_gone(&self, h: Handle)
        requires
            self.slots().retired(h),
        ensures
            !self.rects().dom().contains(h),
    {
    }

    /// A manager without rectangles, with room for `capacity` of them.
    pub fn new(capacity: usize) -> (m: CollisionManager)
        ensures
            m.wf(),
            m.rects() == Map::<Handle, CollisionRect>::empty(),
            m.cached() == Seq::<(Handle, Handle)>::empty(),
            m.slots() == SlotTable::empty(capacity as nat),
    {
        CollisionManager { rects: Column::new(capacity), colliding: Vec::new() }
    }

    /// The number of live rectangles, which never exceeds the capacity.
    pub fn len(&self) -> (n: usize)
        requires
            self.wf(),
        ensures
            n == self.slots().live_count(),
            n <= self.slots().capacity,
    {
        self.rects.len()
    }

    /// The number of vacant slots: so many rectangles can still be added.
    pub fn vacancies(&self) -> (n: usize)
        requires
            self.wf(),
        ensures
            n == self.slots().vacant_count(),
            n == 0 <==> self.slots().full(),
    {
        self.rects.vacancies()
    }

    /// Whether `h` names a live rectangle.
    pub fn contains(&self, h: Handle) -> (b: bool)
        ensures
            b == self.rects().dom().contains(h),
    {
        self.rects.contains(h)
    }

    /// Every live handle with its rectangle, by ascending slot index. The
    /// traversal is made anew at each call.
    pub fn iter(&self) -> (r: Vec<(Handle, &CollisionRect)>)
        requires
            self.wf(),
        ensures
            forall|k: int|
                0 <= k < r@.len() ==> self.rects().dom().contains((#[trigger] r@[k]).0) && *r@[k].1
                    == self.rects()[r@[k].0],
            forall|i: int, j: int|
                0 <= i < j < r@.len() ==> (#[trigger] r@[i]).0.index < (#[trigger] r@[j]).0.index,
            forall|h: Handle|
                self.rects().dom().contains(h) ==> exists|k: int|
                    0 <= k < r@.len() && (#[trigger] r@[k]).0 == h,
    {
        self.rects.iter()
    }

    /// The rectangle of `h`. Fails with `NotFound` when `h` is not live.
    pub fn get(&self, h: Handle) -> (r: Result<&CollisionRect, Error>)
        requires
            self.wf(),
        ensures
            match r {
                Ok(c) => self.rects().dom().contains(h) && *c == self.rects()[h],
                Err(e) => e == Error::NotFound && !self.rects().dom().contains(h),
            },
    {
        self.rects.get(h)
    }

    /// Mutable access to the rectangle of `h`: the manager afterwards holds
    /// what the caller leaves behind the reference. Fails with `NotFound`
    /// when `h` is not live.
    pub fn get_mut(&mut self, h: Handle) -> (r: Result<&mut CollisionRect, Error>)
        requires
            old(self).wf(),
        ensures
            final(self).wf(),
            final(self).slots() == old(self).slots(),
            final(self).cached() == old(self).cached(),
            match r {
                Ok(c) => {
                    &&& old(self).rects().dom().contains(h)
                    &&& *c == old(self).rects()[h]
                    &&& final(self).rects() == old(self).rects().insert(h, *final(c))
                },
                Err(e) => {
                    &&& e == Error::NotFound
                    &&& !old(self).rects().dom().contains(h)
                    &&& final(self).rects() == old(self).rects()
                },
            },
    {
        self.rects.get_mut(h)
    }

    /// Adds a rectangle that stands alone and returns its fresh handle.
    /// Fails with `CapacityExceeded` when the manager is full; it is then
    /// unchanged.
    pub fn add_collision_rect(&mut self, position: (i64, i64), size: (i64, i64)) -> (r: Result<
        Handle,
        Error,
    >)
        requires
            old(self).wf(),
        ensures
            final(self).wf(),
            final(self).cached() == old(self).cached(),
            match r {
                Ok(h) => {
                    &&& old(self).slots().lowest_vacant(h.index as int)
                    &&& h.generation == old(self).slots().generation(h.index as int)
                    &&& !old(self).rects().dom().contains(h)
                    &&& final(self).slots() == old(self).slots().occupy(h.index as int)
                    &&& final(self).rects() == old(self).rects().insert(
                        h,
                        (CollisionRect {
                            pos_x: position.0,
                            pos_y: position.1,
                            width: size.0,
                            height: size.1,
                            link: Link::Unlinked,
                        }),
                    )
                },
                Err(e) => {
                    &&& e == Error::CapacityExceeded
                    &&& old(self).slots().full()
                    &&& final(self).slots() == old(self).slots()
                    &&& final(self).rects() == old(self).rects()
                },
            },
    {
        self.rects.insert(
            CollisionRect {
                pos_x: position.0,
                pos_y: position.1,
                width: size.0,
                height: size.1,
                link: Link::Unlinked,
            },
        )
    }

    /// Adds a rectangle linked to the sprite `sprite` of `sprites` and
    /// returns its fresh handle. Fails with `NotFound` when `sprite` is not
    /// live in `sprites`, else with `CapacityExceeded` when the manager is
    /// full; it is then unchanged.
    pub fn insert_collision_rect(
        &mut self,
        sprites: &SpritePool,
        sprite: Handle,
        position: (i64, i64),
        size: (i64, i64),
    ) -> (r: Result<Handle, Error>)
        requires
            old(self).wf(),
        ensures
            final(self).wf(),
            final(self).cached() == old(self).cached(),
            match r {
                Ok(h) => {
                    &&& sprites.sprites().dom().contains(sprite)
                    &&& old(self).slots().lowest_vacant(h.index as int)
                    &&& h.generation == old(self).slots().generation(h.index as int)
                    &&& !old(self).rects().dom().contains(h)
                    &&& final(self).slots() == old(self).slots().occupy(h.index as int)
                    &&& final(self).rects() == old(self).rects().insert(
                        h,
                        (CollisionRect {
                            pos_x: position.0,
                            pos_y: position.1,
                            width: size.0,
                            height: size.1,
                            link: Link::Sprite(sprite),
                        }),
                    )
                },
                Err(e) => {
                    &&& final(self).slots() == old(self).slots()
                    &&& final(self).rects() == old(self).rects()
                    &&& if sprites.sprites().dom().contains(sprite) {
                        e == Error::CapacityExceeded && old(self).slots().full()
                    } else {
                        e == Error::NotFound
                    }
                },
            },
    {
        if !sprites.contains(sprite) {
            return Err(Error::NotFound);
        }
        self.rects.insert(
            CollisionRect {
                pos_x: position.0,
                pos_y: position.1,
                width: size.0,
                height: size.1,
                link: Link::Sprite(sprite),
            },
        )
    }

    /// Removes the rectangle of `h` and retires `h`. A sprite linked to it
    /// stays. Fails with `NotFound` when `h` is not live; the manager is
    /// then unchanged.
    pub fn remove_collision_rect(&mut self, h: Handle) -> (r: Result<CollisionRect, Error>)
        requires
            old(self).wf(),
        ensures
            final(self).wf(),
            final(self).cached() == old(self).cached(),
            match r {
                Ok(c) => {
                    &&& old(self).rects().dom().contains(h)
                    &&& c == old(self).rects()[h]
                    &&& final(self).slots() == old(self).slots().release(h.index as int)
                    &&& final(self).slots().retired(h)
                    &&& final(self).rects() == old(self).rects().remove(h)
                },
                Err(e) => {
                    &&& e == Error::NotFound
                    &&& !old(self).rects().dom().contains(h)
                    &&& final(self).slots() == old(self).slots()
                    &&& final(self).rects() == old(self).rects()
                },
            },
    {
        self.rects.remove(h)
    }

    /// Whether the rectangles of `a` and `b` overlap, by their values at the
    /// time of the call; the list of colliding pairs is not consulted.
    /// Fails with `NotFound` when `a` or `b` is not live.
    pub fn check_if_colliding(&self, a: Handle, b: Handle) -> (r: Result<bool, Error>)
        requires
            self.wf(),
        ensures
            match r {
                Ok(hit) => {
                    &&& self.rects().dom().contains(a)
                    &&& self.rects().dom().contains(b)
                    &&& hit == overlaps(self.rects()[a], self.rects()[b])
                },
                Err(e) => {
                    &&& e == Error::NotFound
                    &&& !(self.rects().dom().contains(a) && self.rects().dom().contains(b))
                },
            },
    {
        let ra = match self.rects.get(a) {
            Ok(c) => c,
            Err(e) => {
                return Err(e);
            },
        };
        let rb = match self.rects.get(b) {
            Ok(c) => c,
            Err(e) => {
                return Err(e);
            },
        };
        Ok(ra.overlaps_with(rb))
    }

    /// Copies the place and size of the linked sprite into the rectangle of
    /// `h`. A rectangle that stands alone stays as it is. Fails with
    /// `NotFound` when `h` is not live, or when its linked sprite is not
    /// live in `sprites`; the manager is then unchanged.
    pub fn sync_size_and_pos(&mut self, h: Handle, sprites: &SpritePool) -> (r: Result<(), Error>)
        requires
            old(self).wf(),
            sprites.wf(),
        ensures
            final(self).wf(),
            final(self).slots() == old(self).slots(),
            final(self).cached() == old(self).cached(),
            match r {
                Ok(()) => {
                    &&& old(self).rects().dom().contains(h)
                    &&& !dangling(old(self).rects()[h], sprites.sprites())
                    &&& final(self).rects() == old(self).rects().insert(
                        h,
                        followed(old(self).rects()[h], sprites.sprites()),
                    )
                },
                Err(e) => {
                    &&& e == Error::NotFound
                    &&& final(self).rects() == old(self).rects()
                    &&& (!old(self).rects().dom().contains(h) || dangling(
                        old(self).rects()[h],
                        sprites.sprites(),
                    ))
                },
            },
    {
        let rect = match self.rects.get_mut(h) {
            Ok(c) => c,
            Err(e) => {
                return Err(e);
            },
        };
        match rect.link {
            Link::Unlinked => {
                assert(self.rects() =~= old(self).rects().insert(h, old(self).rects()[h]));
                Ok(())
            },
            Link::Sprite(s) => match sprites.get(s) {
                Ok(sprite) => {
                    rect.sync_size_and_pos(sprite);
                    Ok(())
                },
                Err(e) => {
                    assert(self.rects() =~= old(self).rects());
                    Err(e)
                },
            },
        }
    }

    /// Synchronises every rectangle that is linked to a live sprite of
    /// `sprites`; the others stay as they are.
    pub fn sync_all(&mut self, sprites: &SpritePool)
        requires
            old(self).wf(),
            sprites.wf(),
        ensures
            final(self).wf(),
            final(self).slots() == old(self).slots(),
            final(self).cached() == old(self).cached(),
            final(self).rects() == followed_all(old(self).rects(), sprites.sprites()),
    {
        let n: usize = self.rects.touched();
        let mut i: usize = 0;
        while i < n
            invariant
                self.wf(),
                sprites.wf(),
                self.slots() == old(self).slots(),
                self.cached() == old(self).cached(),
                n == self.slots().slots.len(),
                i <= n,
                self.rects().dom() == old(self).rects().dom(),
                forall|h: Handle| #[trigger]
                    old(self).rects().dom().contains(h) ==> self.rects()[h] == (if h.index < i {
                        followed(old(self).rects()[h], sprites.sprites())
                    } else {
                        old(self).rects()[h]
                    }),
            decreases n - i,
        {
            match self.rects.handle_at(i) {
                Some(h) => {
                    match self.rects.get_mut(h) {
                        Ok(rect) => {
                            if let Link::Sprite(s) = rect.link {
                                if let Ok(sprite) = sprites.get(s) {
                                    rect.sync_size_and_pos(sprite);
                                }
                            }
                        },
                        Err(_) => unreached(),
                    }
                },
                None => {},
            }
            i = i + 1;
        }
        assert(self.rects() =~= followed_all(old(self).rects(), sprites.sprites()));
    }

    /// Computes the list of colliding pairs anew from the rectangles as
    /// they are now.
    pub fn refresh_colliding_list(&mut self)
        requires
            old(self).wf(),
        ensures
            final(self).wf(),
            final(self).slots() == old(self).slots(),
            final(self).rects() == old(self).rects(),
            lists_collisions(final(self).cached(), final(self).rects()),
    {
        let mut list: Vec<(Handle, Handle)> = Vec::new();
        let n: usize = self.rects.touched();
        let mut i: usize = 0;
        while i < n
            invariant
                self.wf(),
                *self == *old(self),
                n == self.slots().slots.len(),
                i <= n,
                lists_collisions_before(list@, self.rects(), i as int, 0),
            decreases n - i,
        {
            match self.rects.handle_at(i) {
                Some(a) => {
                    let ra: CollisionRect = match self.rects.get(a) {
                        Ok(c) => *c,
                        Err(_) => unreached(),
                    };
                    let mut j: usize = i + 1;
                    while j < n
                        invariant
                            self.wf(),
                            *self == *old(self),
                            n == self.slots().slots.len(),
                            i < j <= n,
                            a.index == i,
                            self.rects().dom().contains(a),
                            ra == self.rects()[a],
                            lists_collisions_before(list@, self.rects(), i as int, j as int),
                        decreases n - j,
                    {
                        match self.rects.handle_at(j) {
                            Some(b) => {
                                let hit: bool = match self.rects.get(b) {
                                    Ok(rb) => ra.overlaps_with(rb),
                                    Err(_) => unreached(),
                                };
                                if hit {
                                    let ghost earlier = list@;
                                    list.push((a, b));
                                    proof {
                                        assert forall|p: Handle, q: Handle| #[trigger]
                                            colliding_pair(self.rects(), p, q) && visited(
                                                p.index as int,
                                                q.index as int,
                                                i as int,
                                                j + 1,
                                            ) implies exists|k: int|
                                            0 <= k < list@.len() && #[trigger] list@[k] == (p, q) by {
                                            if visited(p.index as int, q.index as int, i as int, j as int) {
                                                let k = choose|k: int|
                                                    0 <= k < earlier.len() && #[trigger] earlier[k] == (
                                                        p,
                                                        q,
                                                    );
                                                assert(list@[k] == (p, q));
                                            } else {
                                                assert(list@[earlier.len() as int] == (p, q));
                                            }
                                        }
                                    }
                                }
                            },
                            None => {},
                        }
                        j = j + 1;
                    }
                },
                None => {},
            }
            i = i + 1;
        }
        assert(lists_collisions(list@, self.rects()));
        self.colliding = list;
    }

    /// The list of colliding pairs as it was last refreshed. It may be out
    /// of date: `check_if_colliding` is what decides.
    pub fn colliding_list(&self) -> (list: &Vec<(Handle, Handle)>)
        ensures
            list@ == self.cached(),
    {
        &self.colliding
    }
}

} // verus!
