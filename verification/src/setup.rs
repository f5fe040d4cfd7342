//! Setup and teardown of the sample game.

use crate::camera::GlobalMouseClickPos;
use crate::collision::{CollisionManager, CollisionRect, Link, ManagerView};
use crate::error::Error;
use crate::game::{register, Table, TableView};
use crate::motion::TwoWayArrowKey;
use crate::player::{next_handle, FloorCollisionAccess, MinionsSpawn, PlayerAccess};
use crate::pool::{clip_named, known, PoolView, SpritePool};
use crate::slot::Handle;
use crate::sprite::{Clip, LoopMode, SpriteInstance};
use vstd::pervasive::unreached;
use vstd::prelude::*;

verus! {

/// Where the character starts, and where its rectangle is put.
pub const PLAYER_START_X: i64 = -16_000_000;

pub const PLAYER_START_Y: i64 = -16_000_000;

/// Width and height of the character's rectangle.
pub const PLAYER_SIZE: i64 = 32_000_000;

/// Where the background and the floor are put.
pub const GROUND_X: i64 = -512_000_000;

pub const GROUND_Y: i64 = -48_000_000;

/// Width and height of the background and of the floor.
pub const GROUND_SIZE: i64 = 1_024_000_000;

/// Draw-order key of the background.
pub const BACKGROUND_DEPTH: i64 = 900_000;

/// The sprite of the character at the start: on the clip `idle_right`,
/// which it plays over and over.
pub open spec fn player_sprite(clips: Seq<Clip>) -> SpriteInstance {
    let clip = clip_named(clips, "idle_right"@);
    SpriteInstance {
        looping: LoopMode::Loop,
        ..SpriteInstance::fresh(clip, clips[clip], (PLAYER_START_X, PLAYER_START_Y), 0)
    }
}

/// The sprite of the background: on the clip `bg_grass`, as large as the
/// floor.
pub open spec fn background_sprite(clips: Seq<Clip>) -> SpriteInstance {
    let clip = clip_named(clips, "bg_grass"@);
    SpriteInstance {
        width: GROUND_SIZE,
        height: GROUND_SIZE,
        ..SpriteInstance::fresh(clip, clips[clip], (GROUND_X, GROUND_Y), BACKGROUND_DEPTH)
    }
}

/// The resolver of the character at the start.
pub open spec fn player_resolver() -> TwoWayArrowKey {
    TwoWayArrowKey {
        left: false,
        right: false,
        max_speed: 3_000_000,
        min_speed: 2_000_000,
        acc: 5_000_000,
        deacc: 10_000_000,
        current_speed: 0,
        vertical_speed: 0,
        gravity_constant: 9_800_000,
        in_air: false,
        double_jumped: false,
    }
}

impl TableView {
    /// A state of the game itself is registered.
    pub open spec fn seeded(self) -> bool {
        ||| self.speed_resolver is Some
        ||| self.player_access is Some
        ||| self.global_click_pos is Some
        ||| self.minions_spawn is Some
        ||| self.floor_collision is Some
    }

    /// Why the game cannot be set up, if it cannot: the sprite pool or the
    /// collision manager is not registered (`NotFound`); a state of the
    /// game is registered already (`AlreadyPresent`); one of the clips
    /// `idle_right` and `bg_grass` is not registered (`UnknownClip`); the
    /// pool or the manager has no room for two more (`CapacityExceeded`).
    /// The first of these that holds is reported.
    pub open spec fn setup_error(self) -> Option<Error> {
        if self.sprite_master is None || self.collision_manager is None {
            Some(Error::NotFound)
        } else if self.seeded() {
            Some(Error::AlreadyPresent)
        } else if !known(self.sprite_master->Some_0.clips, "idle_right"@) || !known(
            self.sprite_master->Some_0.clips,
            "bg_grass"@,
        ) {
            Some(Error::UnknownClip)
        } else if self.sprite_master->Some_0.slots.vacant_count() < 2
            || self.collision_manager->Some_0.slots.vacant_count() < 2 {
            Some(Error::CapacityExceeded)
        } else {
            None
        }
    }

    /// The pool after the character and the background were added.
    pub open spec fn pool_seeded(self) -> PoolView {
        let pool = self.sprite_master->Some_0;
        PoolView {
            clips: pool.clips,
            sprites: pool.sprites.insert(next_handle(pool.slots), player_sprite(pool.clips)).insert(
                next_handle(pool.slots.allocated()),
                background_sprite(pool.clips),
            ),
            slots: pool.slots.allocated().allocated(),
        }
    }

    /// The collision manager after the rectangles of the character and of
    /// the floor were added.
    pub open spec fn collisions_seeded(self) -> ManagerView {
        let manager = self.collision_manager->Some_0;
        ManagerView {
            rects: manager.rects.insert(
                next_handle(manager.slots),
                (CollisionRect {
                    pos_x: PLAYER_START_X,
                    pos_y: PLAYER_START_Y,
                    width: PLAYER_SIZE,
                    height: PLAYER_SIZE,
                    link: Link::Sprite(next_handle(self.sprite_master->Some_0.slots)),
                }),
            ).insert(
                next_handle(manager.slots.allocated()),
                (CollisionRect {
                    pos_x: GROUND_X,
                    pos_y: GROUND_Y,
                    width: GROUND_SIZE,
                    height: GROUND_SIZE,
                    link: Link::Unlinked,
                }),
            ),
            slots: manager.slots.allocated().allocated(),
            cached: manager.cached,
        }
    }

    /// The table after the game was set up.
    pub open spec fn after_setup(self) -> TableView {
        TableView {
            sprite_master: Some(self.pool_seeded()),
            collision_manager: Some(self.collisions_seeded()),
            speed_resolver: Some(player_resolver()),
            player_access: Some(
                PlayerAccess {
                    sprite: next_handle(self.sprite_master->Some_0.slots),
                    rect: next_handle(self.collision_manager->Some_0.slots),
                },
            ),
            global_click_pos: Some(GlobalMouseClickPos { x: 0, y: 0 }),
            minions_spawn: Some(Seq::<Handle>::empty()),
            floor_collision: Some(
                FloorCollisionAccess {
                    rect: next_handle(self.collision_manager->Some_0.slots.allocated()),
                },
            ),
            ..self
        }
    }
}

/// What the setup makes of a table: a table that cannot be set up is left
/// as it is and the reason is reported; any other table is set up.
pub open spec fn setup_outcome(before: TableView, result: Result<(), Error>, after: TableView) -> bool {
    match before.setup_error() {
        Some(e) => result == Err::<(), Error>(e) && after == before,
        None => result == Ok::<(), Error>(()) && after == before.after_setup(),
    }
}

/// Adds the sprites of the character and of the background to a pool that
/// has the two clips and room for two sprites, and returns their handles.
fn seed_sprites(pool: &mut SpritePool) -> (r: (Handle, Handle))
    requires
        old(pool).wf(),
        known(old(pool).clips(), "idle_right"@),
        known(old(pool).clips(), "bg_grass"@),
        old(pool).slots().vacant_count() >= 2,
    ensures
        final(pool).wf(),
        r == (next_handle(old(pool).slots()), next_handle(old(pool).slots().allocated())),
        final(pool).sprites().dom().contains(r.0),
        final(pool)@ == (PoolView {
            clips: old(pool).clips(),
            sprites: old(pool).sprites().insert(r.0, player_sprite(old(pool).clips())).insert(
                r.1,
                background_sprite(old(pool).clips()),
            ),
            slots: old(pool).slots().allocated().allocated(),
        }),
{
    proof {
        old(pool).slots().lemma_room_for_two();
    }
    let player: Handle = match pool.add_sprite("idle_right", (PLAYER_START_X, PLAYER_START_Y), 0) {
        Ok((h, sprite)) => {
            sprite.looping = LoopMode::Loop;
            h
        },
        Err(_) => unreached(),
    };
    proof {
        old(pool).slots().lemma_first_vacant_is(player.index as int);
    }
    let ghost middle = pool.slots();
    let background: Handle = match pool.add_sprite("bg_grass", (GROUND_X, GROUND_Y), BACKGROUND_DEPTH) {
        Ok((h, sprite)) => {
            sprite.width = GROUND_SIZE;
            sprite.height = GROUND_SIZE;
            h
        },
        Err(_) => unreached(),
    };
    proof {
        middle.lemma_first_vacant_is(background.index as int);
    }
    (player, background)
}

/// Adds the rectangles of the character and of the floor to a manager that
/// has room for two rectangles, and returns their handles.
fn seed_rects(manager: &mut CollisionManager, pool: &SpritePool, player: Handle) -> (r: (
    Handle,
    Handle,
))
    requires
        old(manager).wf(),
        pool.sprites().dom().contains(player),
        old(manager).slots().vacant_count() >= 2,
    ensures
        final(manager).wf(),
        r == (next_handle(old(manager).slots()), next_handle(old(manager).slots().allocated())),
        final(manager)@ == (ManagerView {
            rects: old(manager).rects().insert(
                r.0,
                (CollisionRect {
                    pos_x: PLAYER_START_X,
                    pos_y: PLAYER_START_Y,
                    width: PLAYER_SIZE,
                    height: PLAYER_SIZE,
                    link: Link::Sprite(player),
                }),
            ).insert(
                r.1,
                (CollisionRect {
                    pos_x: GROUND_X,
                    pos_y: GROUND_Y,
                    width: GROUND_SIZE,
                    height: GROUND_SIZE,
                    link: Link::Unlinked,
                }),
            ),
            slots: old(manager).slots().allocated().allocated(),
            cached: old(manager).cached(),
        }),
{
    proof {
        old(manager).slots().lemma_room_for_two();
    }
    let body: Handle = match manager.insert_collision_rect(
        pool,
        player,
        (PLAYER_START_X, PLAYER_START_Y),
        (PLAYER_SIZE, PLAYER_SIZE),
    ) {
        Ok(h) => h,
        Err(_) => unreached(),
    };
    proof {
        old(manager).slots().lemma_first_vacant_is(body.index as int);
    }
    let ghost middle = manager.slots();
    let floor: Handle = match manager.add_collision_rect(
        (GROUND_X, GROUND_Y),
        (GROUND_SIZE, GROUND_SIZE),
    ) {
        Ok(h) => h,
        Err(_) => unreached(),
    };
    proof {
        middle.lemma_first_vacant_is(floor.index as int);
    }
    (body, floor)
}

/// Whether the game can be set up on the table.
fn check_setup(table: &Table) -> (r: Result<(), Error>)
    requires
        table.wf(),
    ensures
        match r {
            Ok(()) => table@.setup_error() is None,
            Err(e) => table@.setup_error() == Some(e),
        },
{
    let pool = match table.sprite_master.peek_state() {
        Ok(p) => p,
        Err(e) => {
            return Err(e);
        },
    };
    let manager = match table.collision_manager.peek_state() {
        Ok(m) => m,
        Err(e) => {
            return Err(e);
        },
    };
    if table.speed_resolver.is_present() || table.player_access.is_present()
        || table.global_click_pos.is_present() || table.minions_spawn.is_present()
        || table.floor_collision.is_present() {
        return Err(Error::AlreadyPresent);
    }
    if pool.find_clip("idle_right").is_none() || pool.find_clip("bg_grass").is_none() {
        return Err(Error::UnknownClip);
    }
    if pool.vacancies() < 2 || manager.vacancies() < 2 {
        return Err(Error::CapacityExceeded);
    }
    Ok(())
}

/// Sets the game up: adds the character, the background and the floor to
/// the stores, and registers the states of the game. A table on which the
/// game cannot be set up is left as it is.
pub fn prep_func(table: &mut Table) -> (r: Result<(), Error>)
    requires
        old(table).wf(),
    ensures
        final(table).wf(),
        setup_outcome(old(table)@, r, final(table)@),
{
    match check_setup(table) {
        Ok(()) => {},
        Err(e) => {
            return Err(e);
        },
    }
    let (player, background) = match table.sprite_master.read_state() {
        Ok(pool) => seed_sprites(pool),
        Err(_) => unreached(),
    };
    let (body, floor) = match table.sprite_master.peek_state() {
        Ok(pool) => match table.collision_manager.read_state() {
            Ok(manager) => seed_rects(manager, pool, player),
            Err(_) => unreached(),
        },
        Err(_) => unreached(),
    };
    register(
        &mut table.speed_resolver,
        TwoWayArrowKey::new(3_000_000, 2_000_000, 5_000_000, 10_000_000, 9_800_000),
    );
    register(&mut table.player_access, PlayerAccess { sprite: player, rect: body });
    register(&mut table.global_click_pos, GlobalMouseClickPos { x: 0, y: 0 });
    register(&mut table.minions_spawn, MinionsSpawn { sprites: Vec::new() });
    register(&mut table.floor_collision, FloorCollisionAccess { rect: floor });
    assert(table@ == old(table)@.after_setup());
    Ok(())
}

/// The teardown of the game, which has nothing to do: the table is left
/// as it is.
pub fn post_func(table: &mut Table)
    ensures
        final(table)@ == old(table)@,
        old(table).wf() ==> final(table).wf(),
{
}

} // verus!
