//! The frame driver's side of the game: the table that the engine starts
//! with, and the order of things within one tick.
//!
//! A tick hands the snapshot of the window and the input to the table, lets
//! the time of the tick pass for every sprite, runs the update of the game,
//! and brings the list of colliding pairs up to date.

use crate::camera::{RunningState, Uniform};
use crate::collision::{lists_collisions, CollisionManager, CollisionRect, ManagerView};
use crate::error::Error;
use crate::frame::{draw_noise, entry_point_with, frame_result, frame_table, Noise};
use crate::game::{read_copy, register, replace, Table, TableView};
use crate::input::{KeySet, KeyState, MouseState};
use crate::pool::{distinct_names, ticked_all, PoolView, SpritePool};
use crate::slot::{Handle, SlotTable};
use crate::sprite::{Clip, ClipDef, SpriteInstance};
use vstd::pervasive::unreached;
use vstd::prelude::*;

verus! {

/// What the window tells at the start of a tick.
#[derive(Clone, Copy, Debug, PartialEq, Eq, Structural)]
pub struct Snapshot {
    /// Time since the last tick, in microseconds.
    pub delta_time: u64,
    /// Window size in pixels.
    pub window_width: u32,
    pub window_height: u32,
    pub mouse: MouseState,
    pub keys: KeyState,
}

/// How a tick went: whether the game goes on, and why the update of the
/// game did not take place, if it did not.
#[derive(Clone, Copy, Debug)]
pub struct TickReport {
    pub running: RunningState,
    pub failure: Option<Error>,
}

impl TableView {
    /// The states of the engine are registered: what a tick needs before
    /// the update of the game is run.
    pub open spec fn drivable(self) -> bool {
        &&& self.running_state is Some
        &&& self.uniform is Some
        &&& self.mouse_state is Some
        &&& self.key_state is Some
        &&& self.sprite_master is Some
        &&& self.collision_manager is Some
    }

    /// The table after the snapshot was handed to it.
    pub open spec fn published(self, snapshot: Snapshot) -> TableView {
        TableView {
            uniform: Some(
                Uniform {
                    delta_time: snapshot.delta_time,
                    window_width: snapshot.window_width,
                    window_height: snapshot.window_height,
                    ..self.uniform->Some_0
                },
            ),
            mouse_state: Some(snapshot.mouse),
            key_state: Some(snapshot.keys),
            ..self
        }
    }

    /// The table after `delta` of time passed for every sprite.
    pub open spec fn animated(self, delta: u64) -> TableView {
        TableView {
            sprite_master: Some(
                PoolView {
                    clips: self.sprite_master->Some_0.clips,
                    sprites: ticked_all(
                        self.sprite_master->Some_0.clips,
                        self.sprite_master->Some_0.sprites,
                        delta,
                    ),
                    slots: self.sprite_master->Some_0.slots,
                },
            ),
            ..self
        }
    }

    /// The table on which the update of the game is run.
    pub open spec fn ready(self, snapshot: Snapshot) -> TableView {
        self.published(snapshot).animated(snapshot.delta_time)
    }

    /// The table with `cached` as the list of colliding pairs.
    pub open spec fn with_cached(self, cached: Seq<(Handle, Handle)>) -> TableView {
        TableView {
            collision_manager: Some(
                ManagerView {
                    rects: self.collision_manager->Some_0.rects,
                    slots: self.collision_manager->Some_0.slots,
                    cached,
                },
            ),
            ..self
        }
    }

    /// The table that the engine starts with: the game runs, the camera
    /// looks at the origin, nothing is pressed, the pool holds the clips
    /// and no sprite, the collision manager holds no rectangle.
    pub open spec fn engine(height_resolution: i64, capacity: nat, clips: Seq<Clip>) -> TableView {
        TableView {
            running_state: Some(RunningState::Running),
            uniform: Some(
                Uniform {
                    window_width: 0,
                    window_height: 0,
                    height_resolution,
                    global_offset_x: 0,
                    global_offset_y: 0,
                    delta_time: 0,
                },
            ),
            mouse_state: Some(
                MouseState {
                    x: 0,
                    y: 0,
                    left_pressed: false,
                    left_clicked: false,
                    left_released: false,
                    middle_pressed: false,
                    middle_clicked: false,
                    middle_released: false,
                    right_pressed: false,
                    right_clicked: false,
                    right_released: false,
                    wheel_delta: 0,
                },
            ),
            key_state: Some(KeyState { pressed: KeySet::nothing(), clicked: KeySet::nothing() }),
            sprite_master: Some(
                PoolView {
                    clips,
                    sprites: Map::<Handle, SpriteInstance>::empty(),
                    slots: SlotTable::empty(capacity),
                },
            ),
            collision_manager: Some(
                ManagerView {
                    rects: Map::<Handle, CollisionRect>::empty(),
                    slots: SlotTable::empty(capacity),
                    cached: Seq::<(Handle, Handle)>::empty(),
                },
            ),
            speed_resolver: None,
            player_access: None,
            global_click_pos: None,
            minions_spawn: None,
            floor_collision: None,
        }
    }
}

/// The report of one tick: `NotFound` where a state of the engine is not
/// registered; else whether the game goes on after the update, and why the
/// update did not take place, if it did not.
pub open spec fn tick_result(before: TableView, snapshot: Snapshot, noise: Noise) -> Result<
    TickReport,
    Error,
> {
    if !before.drivable() {
        Err(Error::NotFound)
    } else {
        Ok(
            TickReport {
                running: frame_table(before.ready(snapshot), noise).running_state->Some_0,
                failure: match frame_result(before.ready(snapshot)) {
                    Ok(()) => None,
                    Err(e) => Some(e),
                },
            },
        )
    }
}

/// What one tick makes of a table, with the random numbers `noise`: a
/// table that lacks a state of the engine is left as it is; any other table
/// takes the snapshot, lets the time pass for the sprites, goes through the
/// update of the game, and lists its colliding pairs anew.
pub open spec fn tick_outcome(
    before: TableView,
    snapshot: Snapshot,
    noise: Noise,
    result: Result<TickReport, Error>,
    after: TableView,
) -> bool {
    &&& result == tick_result(before, snapshot, noise)
    &&& if !before.drivable() {
        after == before
    } else {
        let updated = frame_table(before.ready(snapshot), noise);
        &&& after.collision_manager is Some
        &&& after == updated.with_cached(after.collision_manager->Some_0.cached)
        &&& lists_collisions(
            after.collision_manager->Some_0.cached,
            updated.collision_manager->Some_0.rects,
        )
    }
}

/// The views of the clips `clips`.
pub open spec fn clip_views(clips: Seq<ClipDef>) -> Seq<Clip> {
    clips.map_values(|c: ClipDef| c@)
}

/// Hands the snapshot to a table that has the states for it.
fn publish(table: &mut Table, snapshot: &Snapshot)
    requires
        old(table).wf(),
        old(table)@.uniform is Some,
        old(table)@.mouse_state is Some,
        old(table)@.key_state is Some,
    ensures
        final(table).wf(),
        final(table)@ == old(table)@.published(*snapshot),
{
    match table.uniform.read_state() {
        Ok(uniform) => {
            uniform.delta_time = snapshot.delta_time;
            uniform.window_width = snapshot.window_width;
            uniform.window_height = snapshot.window_height;
        },
        Err(_) => unreached(),
    }
    replace(&mut table.mouse_state, snapshot.mouse);
    replace(&mut table.key_state, snapshot.keys);
}

/// Lets `delta` of time pass for the sprites of a table that has a pool.
fn animate(table: &mut Table, delta: u64)
    requires
        old(table).wf(),
        old(table)@.sprite_master is Some,
    ensures
        final(table).wf(),
        final(table)@ == old(table)@.animated(delta),
{
    match table.sprite_master.read_state() {
        Ok(pool) => {
            pool.advance(delta);
        },
        Err(_) => unreached(),
    }
}

/// Lists the colliding pairs of a table that has a collision manager anew.
fn refresh(table: &mut Table)
    requires
        old(table).wf(),
        old(table)@.collision_manager is Some,
    ensures
        final(table).wf(),
        final(table)@.collision_manager is Some,
        final(table)@ == old(table)@.with_cached(final(table)@.collision_manager->Some_0.cached),
        lists_collisions(
            final(table)@.collision_manager->Some_0.cached,
            old(table)@.collision_manager->Some_0.rects,
        ),
{
    match table.collision_manager.read_state() {
        Ok(manager) => {
            manager.refresh_colliding_list();
        },
        Err(_) => unreached(),
    }
}

/// One tick of the frame loop with the random numbers `noise`. Fails with
/// `NotFound` when a state of the engine is not registered; the table is
/// then left as it is. A failure of the update of the game does not end
/// the tick: it is reported, and the table is as the update left it.
pub fn run_tick_with(table: &mut Table, snapshot: &Snapshot, noise: Noise) -> (r: Result<
    TickReport,
    Error,
>)
    requires
        old(table).wf(),
    ensures
        final(table).wf(),
        tick_outcome(old(table)@, *snapshot, noise, r, final(table)@),
{
    if !table.running_state.is_present() || !table.uniform.is_present()
        || !table.mouse_state.is_present() || !table.key_state.is_present()
        || !table.sprite_master.is_present() || !table.collision_manager.is_present() {
        return Err(Error::NotFound);
    }
    publish(table, snapshot);
    animate(table, snapshot.delta_time);
    let update = entry_point_with(table, noise);
    refresh(table);
    let running: RunningState = match read_copy(&table.running_state) {
        Ok(v) => v,
        Err(_) => unreached(),
    };
    Ok(
        TickReport {
            running,
            failure: match update {
                Ok(()) => None,
                Err(e) => Some(e),
            },
        },
    )
}

/// One tick of the frame loop, with random numbers drawn for it: what
/// `run_tick_with` does for the numbers drawn, whatever they are.
pub fn run_tick(table: &mut Table, snapshot: &Snapshot) -> (r: Result<TickReport, Error>)
    requires
        old(table).wf(),
    ensures
        final(table).wf(),
        exists|noise: Noise| tick_outcome(old(table)@, *snapshot, noise, r, final(table)@),
{
    let noise = draw_noise(&snapshot.mouse, &snapshot.keys);
    run_tick_with(table, snapshot, noise)
}

/// The table that the engine starts with: running state, camera, input, a
/// sprite pool that holds `clips` and has room for `max_sprites` sprites,
/// and a collision manager with room for as many rectangles. Fails with
/// `AlreadyPresent` when two of the clips share a name.
pub fn engine_table(height_resolution: i64, max_sprites: u32, clips: Vec<ClipDef>) -> (r: Result<
    Table,
    Error,
>)
    ensures
        match r {
            Ok(table) => {
                &&& table.wf()
                &&& distinct_names(clip_views(clips@))
                &&& table@ == TableView::engine(
                    height_resolution,
                    max_sprites as nat,
                    clip_views(clips@),
                )
            },
            Err(e) => e == Error::AlreadyPresent && !distinct_names(clip_views(clips@)),
        },
{
    let mut pool = SpritePool::new(max_sprites as usize);
    let total: usize = clips.len();
    let mut rest = clips;
    let ghost all = clip_views(clips@);
    let mut done: usize = 0;
    while rest.len() > 0
        invariant
            pool.wf(),
            all.len() == total,
            pool.sprites() == Map::<Handle, SpriteInstance>::empty(),
            pool.slots() == SlotTable::empty(max_sprites as nat),
            all == clip_views(clips@),
            done + rest@.len() == all.len(),
            pool.clips() == all.take(done as int),
            clip_views(rest@) == all.skip(done as int),
        decreases rest@.len(),
    {
        let ghost before = rest@;
        let clip = rest.remove(0);
        proof {
            assert(clip@ == all[done as int]) by {
                assert(clip_views(before)[0] == all.skip(done as int)[0]);
            }
            assert(clip_views(rest@) =~= all.skip(done + 1)) by {
                assert forall|k: int| 0 <= k < rest@.len() implies clip_views(rest@)[k] == all.skip(
                    done + 1,
                )[k] by {
                    assert(clip_views(before)[k + 1] == all.skip(done as int)[k + 1]);
                }
            }
        }
        match pool.add_clip(clip) {
            Ok(_) => {
                assert(pool.clips() =~= all.take(done + 1));
            },
            Err(e) => {
                proof {
                    let twin = choose|i: int|
                        0 <= i < done && (#[trigger] all.take(done as int)[i]).name == clip@.name;
                    assert(all[twin].name == all[done as int].name);
                }
                return Err(e);
            },
        }
        done = done + 1;
    }
    assert(pool.clips() =~= all);
    let mut table = Table::new();
    register(&mut table.running_state, RunningState::Running);
    register(
        &mut table.uniform,
        Uniform {
            window_width: 0,
            window_height: 0,
            height_resolution,
            global_offset_x: 0,
            global_offset_y: 0,
            delta_time: 0,
        },
    );
    register(&mut table.mouse_state, MouseState::new());
    register(&mut table.key_state, KeyState::new());
    register(&mut table.sprite_master, pool);
    register(&mut table.collision_manager, CollisionManager::new(max_sprites as usize));
    Ok(table)
}

} // verus!
