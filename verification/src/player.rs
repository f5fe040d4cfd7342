//! The character of the sample game: how it moves, comes down on the floor,
//! picks its animation, and leaves copies of itself behind.

use crate::camera::GlobalMouseClickPos;
use crate::collision::{overlaps, CollisionRect};
use crate::error::Error;
use crate::fixed::{saturate, saturating};
use crate::motion::TwoWayArrowKey;
use crate::pool::SpritePool;
use crate::slot::{Handle, SlotTable};
use crate::sprite::SpriteInstance;
use vstd::prelude::*;

verus! {

/// Height at which the character stands on the floor.
pub const GROUND_LEVEL: i64 = -16_000_000;

/// Upward speed up to which a character in the air is at the top of its jump.
pub const MID_AIR_SPEED: i64 = 500_000;

/// Draw-order key of a copy of the character.
pub const MINION_DEPTH: i64 = 500_000;

/// How far left of and above the click position a copy is placed.
pub const MINION_OFFSET: i64 = 16_000_000;

/// The sprite and the collision rectangle of the character.
#[derive(Clone, Copy, Debug, PartialEq, Eq, Structural)]
pub struct PlayerAccess {
    pub sprite: Handle,
    pub rect: Handle,
}

/// The collision rectangle of the floor.
#[derive(Clone, Copy, Debug, PartialEq, Eq, Structural)]
pub struct FloorCollisionAccess {
    pub rect: Handle,
}

/// The copies of the character that are alive, oldest first.
#[derive(Debug)]
pub struct MinionsSpawn {
    pub sprites: Vec<Handle>,
}

impl View for MinionsSpawn {
    type V = Seq<Handle>;

    open spec fn view(&self) -> Seq<Handle> {
        self.sprites@
    }
}

/// The animations of the character.
#[derive(Clone, Copy, Debug, PartialEq, Eq, Structural)]
pub enum PlayerAnim {
    JumpMidAir,
    JumpStart,
    JumpFall,
    RunRight,
    IdleRight,
}

impl PlayerAnim {
    /// The name of the clip that shows the animation.
    pub open spec fn name(self) -> Seq<char> {
        match self {
            PlayerAnim::JumpMidAir => "jump_mid_air"@,
            PlayerAnim::JumpStart => "jump_start"@,
            PlayerAnim::JumpFall => "jump_fall"@,
            PlayerAnim::RunRight => "run_right"@,
            PlayerAnim::IdleRight => "idle_right"@,
        }
    }

    /// The name of the clip that shows the animation.
    pub fn clip_name(&self) -> (text: &'static str)
        ensures
            text@ == self.name(),
    {
        match self {
            PlayerAnim::JumpMidAir => "jump_mid_air",
            PlayerAnim::JumpStart => "jump_start",
            PlayerAnim::JumpFall => "jump_fall",
            PlayerAnim::RunRight => "run_right",
            PlayerAnim::IdleRight => "idle_right",
        }
    }
}

/// The animation that fits the speeds: in the air by the vertical speed
/// (rising fast, near the top, falling), on the ground running or idle.
pub open spec fn chosen_anim(resolver: TwoWayArrowKey) -> PlayerAnim {
    if resolver.in_air {
        if resolver.vertical_speed >= 0 {
            if resolver.vertical_speed <= MID_AIR_SPEED {
                PlayerAnim::JumpMidAir
            } else {
                PlayerAnim::JumpStart
            }
        } else {
            PlayerAnim::JumpFall
        }
    } else if resolver.current_speed != 0 {
        PlayerAnim::RunRight
    } else {
        PlayerAnim::IdleRight
    }
}

/// The sprite moved by one tick of the resolver's speeds.
pub open spec fn moved(sprite: SpriteInstance, resolver: TwoWayArrowKey) -> SpriteInstance {
    SpriteInstance {
        pos_x: saturate(sprite.pos_x + resolver.current_speed),
        pos_y: saturate(sprite.pos_y + resolver.vertical_speed),
        ..sprite
    }
}

/// The character comes down: its rectangle overlaps the floor below ground
/// level.
pub open spec fn lands(rect: CollisionRect, floor: CollisionRect) -> bool {
    overlaps(rect, floor) && rect.pos_y < GROUND_LEVEL
}

/// The resolver after the character's rectangle was held against the floor:
/// above ground level the character is in the air; where it comes down it
/// is at rest on the ground.
pub open spec fn settled_resolver(
    resolver: TwoWayArrowKey,
    rect: CollisionRect,
    floor: CollisionRect,
) -> TwoWayArrowKey {
    let risen = if rect.pos_y > GROUND_LEVEL {
        TwoWayArrowKey { in_air: true, ..resolver }
    } else {
        resolver
    };
    if lands(rect, floor) {
        risen.landed()
    } else {
        risen
    }
}

/// The sprite after the character's rectangle was held against the floor:
/// where it comes down it is put on ground level.
pub open spec fn settled_sprite(
    sprite: SpriteInstance,
    rect: CollisionRect,
    floor: CollisionRect,
) -> SpriteInstance {
    if lands(rect, floor) {
        SpriteInstance { pos_y: GROUND_LEVEL, ..sprite }
    } else {
        sprite
    }
}

/// The sprite turned the way the character runs; at rest it keeps its side.
pub open spec fn faced(sprite: SpriteInstance, resolver: TwoWayArrowKey) -> SpriteInstance {
    if resolver.current_speed < 0 {
        SpriteInstance { flipped_x: true, ..sprite }
    } else if resolver.current_speed > 0 {
        SpriteInstance { flipped_x: false, ..sprite }
    } else {
        sprite
    }
}

/// How far a random number lifts a copy: from half a thousandth of a unit
/// down to just under half a thousandth up.
pub open spec fn jitter(noise: u32) -> int {
    noise % 1000 - 500
}

/// The copy of `source` that is placed at the click position.
pub open spec fn minion(
    source: SpriteInstance,
    click: GlobalMouseClickPos,
    noise: u32,
) -> SpriteInstance {
    SpriteInstance {
        depth: MINION_DEPTH,
        pos_x: saturate(click.x - MINION_OFFSET),
        pos_y: saturate(click.y + MINION_OFFSET + jitter(noise)),
        ..source
    }
}

/// The animation that fits the speeds.
pub fn choose_anim(resolver: &TwoWayArrowKey) -> (anim: PlayerAnim)
    ensures
        anim == chosen_anim(*resolver),
{
    if resolver.in_air {
        if resolver.vertical_speed >= 0 {
            if resolver.vertical_speed <= MID_AIR_SPEED {
                PlayerAnim::JumpMidAir
            } else {
                PlayerAnim::JumpStart
            }
        } else {
            PlayerAnim::JumpFall
        }
    } else if resolver.current_speed != 0 {
        PlayerAnim::RunRight
    } else {
        PlayerAnim::IdleRight
    }
}

/// Moves the sprite by one tick of the resolver's speeds.
pub fn move_player(sprite: &mut SpriteInstance, resolver: &TwoWayArrowKey)
    ensures
        *final(sprite) == moved(*old(sprite), *resolver),
{
    sprite.pos_x = saturating(sprite.pos_x as i128 + resolver.current_speed as i128);
    sprite.pos_y = saturating(sprite.pos_y as i128 + resolver.vertical_speed as i128);
}

/// Holds the character's rectangle against the floor and brings the sprite
/// and the resolver in line: in the air above ground level, on the ground
/// where the character comes down.
pub fn settle_player(
    sprite: &mut SpriteInstance,
    resolver: &mut TwoWayArrowKey,
    rect: &CollisionRect,
    floor: &CollisionRect,
)
    ensures
        *final(sprite) == settled_sprite(*old(sprite), *rect, *floor),
        *final(resolver) == settled_resolver(*old(resolver), *rect, *floor),
{
    if rect.pos_y > GROUND_LEVEL {
        resolver.in_air = true;
    }
    if rect.overlaps_with(floor) && rect.pos_y < GROUND_LEVEL {
        sprite.pos_y = GROUND_LEVEL;
        resolver.land();
    }
}

/// Turns the sprite the way the character runs.
pub fn face_player(sprite: &mut SpriteInstance, resolver: &TwoWayArrowKey)
    ensures
        *final(sprite) == faced(*old(sprite), *resolver),
{
    if resolver.current_speed < 0 {
        sprite.flipped_x = true;
    } else if resolver.current_speed > 0 {
        sprite.flipped_x = false;
    }
}

/// Makes `sprite`, a copy of the character, the copy that is placed at the
/// click position.
pub fn place_minion(sprite: &mut SpriteInstance, click: &GlobalMouseClickPos, noise: u32)
    ensures
        *final(sprite) == minion(*old(sprite), *click, noise),
{
    let lift: i64 = (noise % 1000) as i64 - 500;
    sprite.depth = MINION_DEPTH;
    sprite.pos_x = saturating(click.x as i128 - MINION_OFFSET as i128);
    sprite.pos_y = saturating(click.y as i128 + MINION_OFFSET as i128 + lift as i128);
}

/// The handle that the next request for a slot is given.
pub open spec fn next_handle(slots: SlotTable) -> Handle {
    Handle {
        index: slots.first_vacant() as usize,
        generation: slots.generation(slots.first_vacant()),
    }
}

/// The slots after every handle of `handles` was freed in turn; a handle
/// that is dead by then is passed over.
pub open spec fn freed_all(slots: SlotTable, handles: Seq<Handle>) -> SlotTable
    decreases handles.len(),
{
    if handles.len() == 0 {
        slots
    } else {
        freed_all(slots, handles.drop_last()).freed(handles.last())
    }
}

/// The first `i + 1` handles are the first `i` handles and handle `i`: as
/// a set, and as frees made in turn.
proof fn lemma_one_more(slots: SlotTable, handles: Seq<Handle>, i: int)
    requires
        0 <= i < handles.len(),
    ensures
        handles.take(i + 1).to_set() == handles.take(i).to_set().insert(handles[i]),
        freed_all(slots, handles.take(i + 1)) == freed_all(slots, handles.take(i)).freed(handles[i]),
{
    let done = handles.take(i);
    let next = handles.take(i + 1);
    assert(next.drop_last() =~= done);
    assert forall|g: Handle| next.to_set().contains(g) implies done.to_set().insert(
        handles[i],
    ).contains(g) by {
        let k = choose|k: int| 0 <= k < next.len() && next[k] == g;
        if k < i {
            assert(done[k] == g);
        }
    }
    assert forall|g: Handle| done.to_set().insert(handles[i]).contains(g) implies next.to_set().contains(
        g,
    ) by {
        if g == handles[i] {
            assert(next[i] == g);
        } else {
            let k = choose|k: int| 0 <= k < done.len() && done[k] == g;
            assert(next[k] == g);
        }
    }
    assert(next.to_set() =~= done.to_set().insert(handles[i]));
}

/// Whether `h` is among `handles`.
pub fn lists_handle(handles: &Vec<Handle>, h: Handle) -> (b: bool)
    ensures
        b == handles@.contains(h),
{
    let n: usize = handles.len();
    let mut i: usize = 0;
    while i < n
        invariant
            n == handles@.len(),
            i <= n,
            forall|k: int| 0 <= k < i ==> handles@[k] != h,
        decreases n - i,
    {
        if handles[i] == h {
            return true;
        }
        i = i + 1;
    }
    false
}

/// Leaves a copy of the character `player` at the click position and notes
/// it as the youngest minion. Fails with `NotFound` when `player` is not
/// live, else with `CapacityExceeded` when the pool is full; nothing is
/// changed then.
pub fn spawn_minion(
    pool: &mut SpritePool,
    minions: &mut MinionsSpawn,
    player: Handle,
    click: &GlobalMouseClickPos,
    noise: u32,
) -> (r: Result<Handle, Error>)
    requires
        old(pool).wf(),
    ensures
        final(pool).wf(),
        final(pool).clips() == old(pool).clips(),
        match r {
            Ok(h) => {
                &&& old(pool).sprites().dom().contains(player)
                &&& !old(pool).slots().full()
                &&& h == next_handle(old(pool).slots())
                &&& h != player
                &&& !old(pool).sprites().dom().contains(h)
                &&& final(pool).slots() == old(pool).slots().allocated()
                &&& final(pool).sprites() == old(pool).sprites().insert(
                    h,
                    minion(old(pool).sprites()[player], *click, noise),
                )
                &&& final(minions)@ == old(minions)@.push(h)
            },
            Err(e) => {
                &&& final(pool).slots() == old(pool).slots()
                &&& final(pool).sprites() == old(pool).sprites()
                &&& final(minions)@ == old(minions)@
                &&& if old(pool).sprites().dom().contains(player) {
                    e == Error::CapacityExceeded && old(pool).slots().full()
                } else {
                    e == Error::NotFound
                }
            },
        },
{
    match pool.clone_add(player) {
        Ok((h, sprite)) => {
            place_minion(sprite, click, noise);
            minions.sprites.push(h);
            proof {
                old(pool).slots().lemma_first_vacant_is(h.index as int);
            }
            Ok(h)
        },
        Err(e) => Err(e),
    }
}

/// Removes every minion that is still alive and forgets them all.
pub fn clear_minions(pool: &mut SpritePool, minions: &mut MinionsSpawn)
    requires
        old(pool).wf(),
    ensures
        final(pool).wf(),
        final(pool).clips() == old(pool).clips(),
        final(pool).slots() == freed_all(old(pool).slots(), old(minions)@),
        final(pool).sprites() == old(pool).sprites().remove_keys(old(minions)@.to_set()),
        final(minions)@ == Seq::<Handle>::empty(),
{
    let n: usize = minions.sprites.len();
    let mut i: usize = 0;
    while i < n
        invariant
            pool.wf(),
            pool.clips() == old(pool).clips(),
            minions.sprites@ == old(minions)@,
            n == minions.sprites@.len(),
            i <= n,
            pool.slots() == freed_all(old(pool).slots(), old(minions)@.take(i as int)),
            pool.sprites() == old(pool).sprites().remove_keys(old(minions)@.take(i as int).to_set()),
        decreases n - i,
    {
        let h: Handle = minions.sprites[i];
        proof {
            pool.lemma_live();
            lemma_one_more(old(pool).slots(), old(minions)@, i as int);
        }
        // A copy that is gone already is passed over.
        let _ = pool.remove_sprite(h);
        assert(pool.sprites() =~= old(pool).sprites().remove_keys(
            old(minions)@.take(i + 1).to_set(),
        ));
        i = i + 1;
    }
    proof {
        assert(old(minions)@.take(n as int) =~= old(minions)@);
    }
    minions.sprites = Vec::new();
}

} // verus!
