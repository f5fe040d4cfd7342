//! One tick of the sample game: input moves the camera and steers the
//! character, a click leaves a copy of the character behind, the character
//! moves, comes down on the floor and takes on the animation that fits.
//!
//! A tick first reads, then decides, and only then changes the table, so
//! that a tick that cannot take place leaves the table as it is.

use crate::camera::{
    pan_and_zoom, panned, shake_camera, shaken, track_click, tracked_click, GlobalMouseClickPos,
    RunningState, Shake, Uniform,
};
use crate::collision::{CollisionRect, ManagerView};
use crate::error::Error;
use crate::game::{read_copy, register, replace, Scene, Table, TableView};
use crate::input::{Key, KeyState, MouseState};
use crate::motion::TwoWayArrowKey;
use crate::player::{
    choose_anim, chosen_anim, clear_minions, face_player, faced, freed_all, lists_handle, minion,
    move_player, moved, next_handle, settle_player, settled_resolver, settled_sprite, spawn_minion,
    FloorCollisionAccess, MinionsSpawn, PlayerAccess, PlayerAnim,
};
use crate::pool::{clip_named, known, PoolView};
use crate::slot::Handle;
use crate::sprite::SpriteInstance;
use vstd::pervasive::unreached;
use vstd::prelude::*;

verus! {

/// The random numbers that one tick may use.
#[derive(Clone, Copy, Debug, PartialEq, Eq, Structural)]
pub struct Noise {
    /// Lifts the copy that is spawned.
    pub spawn: u32,
    /// Shakes the camera.
    pub shake: Shake,
}

/// What a tick reads before it changes anything: the plain states, and the
/// sprite and the rectangles that the handles of character and floor name.
#[derive(Clone, Copy, Debug, PartialEq, Eq, Structural)]
pub struct Inputs {
    pub running: RunningState,
    pub uniform: Uniform,
    pub mouse: MouseState,
    pub keys: KeyState,
    pub resolver: TwoWayArrowKey,
    pub player: PlayerAccess,
    pub click: GlobalMouseClickPos,
    pub floor: FloorCollisionAccess,
    pub sprite: SpriteInstance,
    pub rect: CollisionRect,
    pub floor_rect: CollisionRect,
}

/// What a tick decides before it changes anything.
#[derive(Clone, Copy, Debug, PartialEq, Eq, Structural)]
pub struct Plan {
    pub running: RunningState,
    pub uniform: Uniform,
    pub click: GlobalMouseClickPos,
    pub resolver: TwoWayArrowKey,
    /// The sprite of the character, moved and put on the ground where it
    /// came down, still on its old clip.
    pub sprite: SpriteInstance,
    pub anim: PlayerAnim,
}

impl Inputs {
    /// A left click while the middle button is up leaves a copy of the
    /// character behind.
    pub open spec fn spawns(self) -> bool {
        self.mouse.left_clicked && !self.mouse.middle_pressed
    }

    /// The key V removes the copies.
    pub open spec fn clears(self) -> bool {
        self.keys.clicked.holds(Key::KeyV)
    }

    /// The key Q closes the game.
    pub open spec fn running_after(self) -> RunningState {
        if self.keys.clicked.holds(Key::KeyQ) {
            RunningState::Closed
        } else {
            self.running
        }
    }

    /// The click position follows the buttons of the pointer.
    pub open spec fn click_after(self) -> GlobalMouseClickPos {
        tracked_click(self.click, self.mouse, self.uniform)
    }

    /// The camera follows the pointer, and the key Home shakes it.
    pub open spec fn uniform_after(self, noise: Noise) -> Uniform {
        let seen = panned(self.uniform, self.mouse, self.click_after());
        if self.keys.pressed.holds(Key::Home) {
            shaken(seen, noise.shake)
        } else {
            seen
        }
    }

    /// The resolver after the keys of this tick: Space jumps, A and D steer,
    /// and the time of the tick passes.
    pub open spec fn resolver_steered(self) -> TwoWayArrowKey {
        let risen = if self.keys.clicked.holds(Key::Space) {
            self.resolver.jumped()
        } else {
            self.resolver
        };
        (TwoWayArrowKey {
            left: self.keys.pressed.holds(Key::KeyA),
            right: self.keys.pressed.holds(Key::KeyD),
            ..risen
        }).updated(self.uniform.delta_time)
    }

    /// The sprite of the character, moved by its speeds.
    pub open spec fn sprite_moved(self) -> SpriteInstance {
        moved(self.sprite, self.resolver_steered())
    }

    /// The rectangle of the character, moved with its sprite.
    pub open spec fn rect_moved(self) -> CollisionRect {
        self.rect.synced(self.sprite_moved())
    }

    /// The rectangle of the floor at the time the character is held
    /// against it.
    pub open spec fn floor_met(self) -> CollisionRect {
        if self.floor.rect == self.player.rect {
            self.rect_moved()
        } else {
            self.floor_rect
        }
    }

    /// The resolver at the end of the tick: in the air or on the ground.
    pub open spec fn resolver_after(self) -> TwoWayArrowKey {
        settled_resolver(self.resolver_steered(), self.rect_moved(), self.floor_met())
    }

    /// The sprite of the character, moved and put on the ground where it
    /// came down.
    pub open spec fn sprite_settled(self) -> SpriteInstance {
        settled_sprite(self.sprite_moved(), self.rect_moved(), self.floor_met())
    }

    /// The animation of the character at the end of the tick.
    pub open spec fn anim(self) -> PlayerAnim {
        chosen_anim(self.resolver_after())
    }

    /// What the tick decides.
    pub open spec fn plan(self, noise: Noise) -> Plan {
        Plan {
            running: self.running_after(),
            uniform: self.uniform_after(noise),
            click: self.click_after(),
            resolver: self.resolver_after(),
            sprite: self.sprite_settled(),
            anim: self.anim(),
        }
    }
}

impl Plan {
    /// The sprite of the character at the end of the tick: on clip number
    /// `clip`, the clip of its animation, and turned the way it runs.
    pub open spec fn sprite_after(self, clip: int) -> SpriteInstance {
        faced(self.sprite.switched(clip), self.resolver)
    }
}

impl Scene {
    /// What a tick reads of these states.
    pub open spec fn inputs(self) -> Inputs {
        Inputs {
            running: self.running,
            uniform: self.uniform,
            mouse: self.mouse,
            keys: self.keys,
            resolver: self.resolver,
            player: self.player,
            click: self.click,
            floor: self.floor,
            sprite: self.pool.sprites[self.player.sprite],
            rect: self.collisions.rects[self.player.rect],
            floor_rect: self.collisions.rects[self.floor.rect],
        }
    }

    /// The number of the clip of the character's animation.
    pub open spec fn clip_after(self) -> int {
        clip_named(self.pool.clips, self.inputs().anim().name())
    }

    /// The sprite of the character at the end of the tick: moved, put on
    /// the ground where it came down, on the clip of its animation, and
    /// turned the way it runs.
    pub open spec fn sprite_after(self, noise: Noise) -> SpriteInstance {
        self.inputs().plan(noise).sprite_after(self.clip_after())
    }

    /// The rectangle of the character at the end of the tick.
    pub open spec fn rect_after(self, noise: Noise) -> CollisionRect {
        self.inputs().rect.synced(self.sprite_after(noise))
    }

    /// The copies after a spawn, where one takes place.
    pub open spec fn minions_spawned(self) -> Seq<Handle> {
        if self.inputs().spawns() {
            self.minions.push(next_handle(self.pool.slots))
        } else {
            self.minions
        }
    }

    /// The pool after a spawn, where one takes place: the copy is made of
    /// the character as it was before this tick moved it.
    pub open spec fn pool_spawned(self, noise: Noise) -> PoolView {
        if self.inputs().spawns() {
            PoolView {
                clips: self.pool.clips,
                sprites: self.pool.sprites.insert(
                    next_handle(self.pool.slots),
                    minion(
                        self.pool.sprites[self.player.sprite],
                        self.inputs().click_after(),
                        noise.spawn,
                    ),
                ),
                slots: self.pool.slots.allocated(),
            }
        } else {
            self.pool
        }
    }

    /// The pool after the copies were removed, where they are: the copy
    /// spawned in this tick goes with them.
    pub open spec fn pool_cleared(self, noise: Noise) -> PoolView {
        let spawned = self.pool_spawned(noise);
        if self.inputs().clears() {
            PoolView {
                clips: spawned.clips,
                sprites: spawned.sprites.remove_keys(self.minions_spawned().to_set()),
                slots: freed_all(spawned.slots, self.minions_spawned()),
            }
        } else {
            spawned
        }
    }

    /// The pool at the end of the tick.
    pub open spec fn pool_after(self, noise: Noise) -> PoolView {
        let cleared = self.pool_cleared(noise);
        PoolView {
            clips: cleared.clips,
            sprites: cleared.sprites.insert(self.player.sprite, self.sprite_after(noise)),
            slots: cleared.slots,
        }
    }

    /// The copies at the end of the tick.
    pub open spec fn minions_after(self) -> Seq<Handle> {
        if self.inputs().clears() {
            Seq::empty()
        } else {
            self.minions_spawned()
        }
    }

    /// The collision manager at the end of the tick.
    pub open spec fn collisions_after(self, noise: Noise) -> ManagerView {
        ManagerView {
            rects: self.collisions.rects.insert(self.player.rect, self.rect_after(noise)),
            slots: self.collisions.slots,
            cached: self.collisions.cached,
        }
    }

    /// The character or the floor is gone, or the character would be
    /// removed with the copies.
    pub open spec fn missing(self) -> bool {
        ||| !self.pool.sprites.dom().contains(self.player.sprite)
        ||| !self.collisions.rects.dom().contains(self.player.rect)
        ||| !self.collisions.rects.dom().contains(self.floor.rect)
        ||| (self.inputs().clears() && self.minions.contains(self.player.sprite))
    }

    /// Why this tick cannot take place, if it cannot: the character or the
    /// floor is gone, or the character would be removed with the copies
    /// (`NotFound`); the clip of the character's animation is not
    /// registered (`UnknownClip`); there is no room for a copy
    /// (`CapacityExceeded`). The first of these that holds is reported.
    pub open spec fn frame_error(self) -> Option<Error> {
        if self.missing() {
            Some(Error::NotFound)
        } else if !known(self.pool.clips, self.inputs().anim().name()) {
            Some(Error::UnknownClip)
        } else if self.inputs().spawns() && self.pool.slots.full() {
            Some(Error::CapacityExceeded)
        } else {
            None
        }
    }

    /// The states after one tick that takes place.
    pub open spec fn after_frame(self, noise: Noise) -> Scene {
        Scene {
            running: self.inputs().running_after(),
            uniform: self.inputs().uniform_after(noise),
            mouse: self.mouse,
            keys: self.keys,
            pool: self.pool_after(noise),
            collisions: self.collisions_after(noise),
            resolver: self.inputs().resolver_after(),
            player: self.player,
            click: self.inputs().click_after(),
            minions: self.minions_after(),
            floor: self.floor,
        }
    }
}

/// The result of one tick on a table: `NotFound` for a table that lacks a
/// state, the reason for a complete table whose tick cannot take place,
/// success for any other table.
pub open spec fn frame_result(before: TableView) -> Result<(), Error> {
    if !before.complete() {
        Err(Error::NotFound)
    } else {
        match before.scene().frame_error() {
            Some(e) => Err(e),
            None => Ok(()),
        }
    }
}

/// The table after one tick: a table whose tick succeeds is taken through
/// the tick, any other table is left as it is.
pub open spec fn frame_table(before: TableView, noise: Noise) -> TableView {
    if frame_result(before) is Ok {
        before.scene().after_frame(noise).table()
    } else {
        before
    }
}

/// What one tick makes of a table, with the random numbers `noise`.
pub open spec fn frame_outcome(
    before: TableView,
    noise: Noise,
    result: Result<(), Error>,
    after: TableView,
) -> bool {
    result == frame_result(before) && after == frame_table(before, noise)
}

/// Reads what a tick needs. Fails with `NotFound` when a state is not
/// registered, when the character or the floor is gone, or when the
/// character would be removed with the copies.
fn gather(table: &Table) -> (r: Result<Inputs, Error>)
    requires
        table.wf(),
    ensures
        match r {
            Ok(inputs) => {
                &&& table@.complete()
                &&& !table@.scene().missing()
                &&& inputs == table@.scene().inputs()
            },
            Err(e) => e == Error::NotFound && (!table@.complete() || table@.scene().missing()),
        },
{
    let running = match read_copy(&table.running_state) {
        Ok(v) => v,
        Err(e) => {
            return Err(e);
        },
    };
    let uniform = match read_copy(&table.uniform) {
        Ok(v) => v,
        Err(e) => {
            return Err(e);
        },
    };
    let mouse = match read_copy(&table.mouse_state) {
        Ok(v) => v,
        Err(e) => {
            return Err(e);
        },
    };
    let keys = match read_copy(&table.key_state) {
        Ok(v) => v,
        Err(e) => {
            return Err(e);
        },
    };
    let resolver = match read_copy(&table.speed_resolver) {
        Ok(v) => v,
        Err(e) => {
            return Err(e);
        },
    };
    let player = match read_copy(&table.player_access) {
        Ok(v) => v,
        Err(e) => {
            return Err(e);
        },
    };
    let click = match read_copy(&table.global_click_pos) {
        Ok(v) => v,
        Err(e) => {
            return Err(e);
        },
    };
    let floor = match read_copy(&table.floor_collision) {
        Ok(v) => v,
        Err(e) => {
            return Err(e);
        },
    };
    let pool = match table.sprite_master.peek_state() {
        Ok(p) => p,
        Err(e) => {
            return Err(e);
        },
    };
    let manager = match table.collision_manager.peek_state() {
        Ok(m) => m,
        Err(e) => {
            return Err(e);
        },
    };
    let minions = match table.minions_spawn.peek_state() {
        Ok(m) => m,
        Err(e) => {
            return Err(e);
        },
    };
    let sprite: SpriteInstance = match pool.get(player.sprite) {
        Ok(sprite) => *sprite,
        Err(e) => {
            return Err(e);
        },
    };
    let rect: CollisionRect = match manager.get(player.rect) {
        Ok(rect) => *rect,
        Err(e) => {
            return Err(e);
        },
    };
    let floor_rect: CollisionRect = match manager.get(floor.rect) {
        Ok(rect) => *rect,
        Err(e) => {
            return Err(e);
        },
    };
    if keys.just_clicked(Key::KeyV) && lists_handle(&minions.sprites, player.sprite) {
        return Err(Error::NotFound);
    }
    Ok(
        Inputs {
            running,
            uniform,
            mouse,
            keys,
            resolver,
            player,
            click,
            floor,
            sprite,
            rect,
            floor_rect,
        },
    )
}

/// Decides what a tick does, from what it has read.
fn make_plan(inputs: &Inputs, noise: Noise) -> (plan: Plan)
    requires
        inputs.resolver.max_speed >= 0,
    ensures
        plan == inputs.plan(noise),
        plan.resolver.max_speed == inputs.resolver.max_speed,
{
    let running: RunningState = if inputs.keys.just_clicked(Key::KeyQ) {
        RunningState::Closed
    } else {
        inputs.running
    };
    let mut click: GlobalMouseClickPos = inputs.click;
    track_click(&mut click, &inputs.mouse, &inputs.uniform);
    let mut uniform: Uniform = inputs.uniform;
    pan_and_zoom(&mut uniform, &inputs.mouse, &click);
    if inputs.keys.is_pressed(Key::Home) {
        shake_camera(&mut uniform, noise.shake);
    }
    let mut resolver: TwoWayArrowKey = inputs.resolver;
    if inputs.keys.just_clicked(Key::Space) {
        resolver.jump();
    }
    resolver.left = inputs.keys.is_pressed(Key::KeyA);
    resolver.right = inputs.keys.is_pressed(Key::KeyD);
    resolver.update_speed(inputs.uniform.delta_time);
    let mut sprite: SpriteInstance = inputs.sprite;
    move_player(&mut sprite, &resolver);
    let mut rect: CollisionRect = inputs.rect;
    rect.sync_size_and_pos(&sprite);
    let floor_met: CollisionRect = if inputs.floor.rect == inputs.player.rect {
        rect
    } else {
        inputs.floor_rect
    };
    settle_player(&mut sprite, &mut resolver, &rect, &floor_met);
    let anim: PlayerAnim = choose_anim(&resolver);
    Plan { running, uniform, click, resolver, sprite, anim }
}

/// The number of the clip named `name` in the pool of a table that has one.
fn find_in_table(table: &Table, name: &str) -> (r: Option<usize>)
    requires
        table.wf(),
        table@.sprite_master is Some,
    ensures
        match r {
            Some(c) => known(table@.sprite_master->Some_0.clips, name@) && c == clip_named(
                table@.sprite_master->Some_0.clips,
                name@,
            ),
            None => !known(table@.sprite_master->Some_0.clips, name@),
        },
{
    match table.sprite_master.peek_state() {
        Ok(pool) => pool.find_clip(name),
        Err(_) => unreached(),
    }
}

/// Spawns a copy of `player` in the pool and the list of copies of a table
/// that has both. Fails with `CapacityExceeded` when the pool is full and
/// leaves the table as it is then.
fn spawn_in_table(table: &mut Table, player: Handle, click: &GlobalMouseClickPos, noise: u32) -> (r:
    Result<(), Error>)
    requires
        old(table).wf(),
        old(table)@.sprite_master is Some,
        old(table)@.minions_spawn is Some,
        old(table)@.sprite_master->Some_0.sprites.dom().contains(player),
    ensures
        final(table).wf(),
        match r {
            Ok(()) => {
                let pool = old(table)@.sprite_master->Some_0;
                &&& !pool.slots.full()
                &&& next_handle(pool.slots) != player
                &&& final(table)@ == (TableView {
                    sprite_master: Some(
                        PoolView {
                            clips: pool.clips,
                            sprites: pool.sprites.insert(
                                next_handle(pool.slots),
                                minion(pool.sprites[player], *click, noise),
                            ),
                            slots: pool.slots.allocated(),
                        },
                    ),
                    minions_spawn: Some(
                        old(table)@.minions_spawn->Some_0.push(next_handle(pool.slots)),
                    ),
                    ..old(table)@
                })
            },
            Err(e) => {
                &&& e == Error::CapacityExceeded
                &&& old(table)@.sprite_master->Some_0.slots.full()
                &&& final(table)@ == old(table)@
            },
        },
{
    let mut minions: MinionsSpawn = match table.minions_spawn.remove_state() {
        Ok(m) => m,
        Err(_) => unreached(),
    };
    let outcome = match table.sprite_master.read_state() {
        Ok(pool) => spawn_minion(pool, &mut minions, player, click, noise),
        Err(_) => unreached(),
    };
    register(&mut table.minions_spawn, minions);
    match outcome {
        Ok(_) => Ok(()),
        Err(e) => Err(e),
    }
}

/// Removes the copies from the pool and the list of copies of a table that
/// has both.
fn clear_in_table(table: &mut Table)
    requires
        old(table).wf(),
        old(table)@.sprite_master is Some,
        old(table)@.minions_spawn is Some,
    ensures
        final(table).wf(),
        final(table)@ == (TableView {
            sprite_master: Some(
                PoolView {
                    clips: old(table)@.sprite_master->Some_0.clips,
                    sprites: old(table)@.sprite_master->Some_0.sprites.remove_keys(
                        old(table)@.minions_spawn->Some_0.to_set(),
                    ),
                    slots: freed_all(
                        old(table)@.sprite_master->Some_0.slots,
                        old(table)@.minions_spawn->Some_0,
                    ),
                },
            ),
            minions_spawn: Some(Seq::<Handle>::empty()),
            ..old(table)@
        }),
{
    let mut minions: MinionsSpawn = match table.minions_spawn.remove_state() {
        Ok(m) => m,
        Err(_) => unreached(),
    };
    match table.sprite_master.read_state() {
        Ok(pool) => {
            clear_minions(pool, &mut minions);
        },
        Err(_) => unreached(),
    }
    register(&mut table.minions_spawn, minions);
}

/// Writes the sprite of a live handle in the pool of a table that has one.
fn put_sprite(table: &mut Table, h: Handle, sprite: SpriteInstance)
    requires
        old(table).wf(),
        old(table)@.sprite_master is Some,
        old(table)@.sprite_master->Some_0.sprites.dom().contains(h),
    ensures
        final(table).wf(),
        final(table)@ == (TableView {
            sprite_master: Some(
                PoolView {
                    clips: old(table)@.sprite_master->Some_0.clips,
                    sprites: old(table)@.sprite_master->Some_0.sprites.insert(h, sprite),
                    slots: old(table)@.sprite_master->Some_0.slots,
                },
            ),
            ..old(table)@
        }),
{
    match table.sprite_master.read_state() {
        Ok(pool) => match pool.get_mut(h) {
            Ok(place) => {
                *place = sprite;
            },
            Err(_) => unreached(),
        },
        Err(_) => unreached(),
    }
}

/// Writes the rectangle of a live handle in the collision manager of a
/// table that has one.
fn put_rect(table: &mut Table, h: Handle, rect: CollisionRect)
    requires
        old(table).wf(),
        old(table)@.collision_manager is Some,
        old(table)@.collision_manager->Some_0.rects.dom().contains(h),
    ensures
        final(table).wf(),
        final(table)@ == (TableView {
            collision_manager: Some(
                ManagerView {
                    rects: old(table)@.collision_manager->Some_0.rects.insert(h, rect),
                    slots: old(table)@.collision_manager->Some_0.slots,
                    cached: old(table)@.collision_manager->Some_0.cached,
                },
            ),
            ..old(table)@
        }),
{
    match table.collision_manager.read_state() {
        Ok(manager) => match manager.get_mut(h) {
            Ok(place) => {
                *place = rect;
            },
            Err(_) => unreached(),
        },
        Err(_) => unreached(),
    }
}

/// Writes the plain states that a tick has decided on.
fn put_plain(table: &mut Table, plan: &Plan)
    requires
        old(table).wf(),
        old(table)@.running_state is Some,
        old(table)@.uniform is Some,
        old(table)@.speed_resolver is Some,
        old(table)@.global_click_pos is Some,
        plan.resolver.max_speed >= 0,
    ensures
        final(table).wf(),
        final(table)@ == (TableView {
            running_state: Some(plan.running),
            uniform: Some(plan.uniform),
            speed_resolver: Some(plan.resolver),
            global_click_pos: Some(plan.click),
            ..old(table)@
        }),
{
    replace(&mut table.running_state, plan.running);
    replace(&mut table.uniform, plan.uniform);
    replace(&mut table.speed_resolver, plan.resolver);
    replace(&mut table.global_click_pos, plan.click);
}

/// Carries out what a tick has decided. Fails with `CapacityExceeded` when
/// a copy is to be spawned and the pool is full; the table is then left as
/// it is.
fn commit(table: &mut Table, inputs: &Inputs, plan: &Plan, clip: usize, noise: Noise) -> (r: Result<
    (),
    Error,
>)
    requires
        old(table).wf(),
        old(table)@.complete(),
        !old(table)@.scene().missing(),
        *inputs == old(table)@.scene().inputs(),
        *plan == inputs.plan(noise),
        known(old(table)@.scene().pool.clips, plan.anim.name()),
        clip == old(table)@.scene().clip_after(),
    ensures
        final(table).wf(),
        frame_outcome(old(table)@, noise, r, final(table)@),
{
    let ghost scene = old(table)@.scene();
    if inputs.mouse.left_clicked && !inputs.mouse.middle_pressed {
        match spawn_in_table(table, inputs.player.sprite, &plan.click, noise.spawn) {
            Ok(()) => {},
            Err(e) => {
                return Err(e);
            },
        }
    }
    assert(table@ == (TableView {
        sprite_master: Some(scene.pool_spawned(noise)),
        minions_spawn: Some(scene.minions_spawned()),
        ..old(table)@
    }));
    if inputs.keys.just_clicked(Key::KeyV) {
        clear_in_table(table);
    }
    assert(table@ == (TableView {
        sprite_master: Some(scene.pool_cleared(noise)),
        minions_spawn: Some(scene.minions_after()),
        ..old(table)@
    }));
    proof {
        lemma_player_stays(scene, noise);
    }
    let mut sprite: SpriteInstance = plan.sprite;
    sprite.switch_clip(clip);
    face_player(&mut sprite, &plan.resolver);
    let mut rect: CollisionRect = inputs.rect;
    rect.sync_size_and_pos(&sprite);
    put_sprite(table, inputs.player.sprite, sprite);
    put_rect(table, inputs.player.rect, rect);
    put_plain(table, plan);
    assert(table@ == scene.after_frame(noise).table());
    Ok(())
}

/// A character that is alive and not among the copies is alive after the
/// copies were spawned and removed.
proof fn lemma_player_stays(scene: Scene, noise: Noise)
    requires
        !scene.missing(),
        scene.inputs().spawns() ==> next_handle(scene.pool.slots) != scene.player.sprite,
    ensures
        scene.pool_cleared(noise).sprites.dom().contains(scene.player.sprite),
{
    let spawned = scene.minions_spawned();
    if scene.inputs().clears() && spawned.contains(scene.player.sprite) {
        let k = choose|k: int| 0 <= k < spawned.len() && spawned[k] == scene.player.sprite;
        if k < scene.minions.len() {
            assert(scene.minions[k] == scene.player.sprite);
        }
    }
}

/// One tick of the game with the random numbers `noise`: input moves the
/// camera and steers the character, a click leaves a copy of the character
/// behind, the key V removes the copies, the character moves, comes down on
/// the floor, and takes on the animation that fits. A tick that cannot take
/// place leaves the table as it is.
pub fn entry_point_with(table: &mut Table, noise: Noise) -> (r: Result<(), Error>)
    requires
        old(table).wf(),
    ensures
        final(table).wf(),
        frame_outcome(old(table)@, noise, r, final(table)@),
{
    let inputs: Inputs = match gather(table) {
        Ok(inputs) => inputs,
        Err(e) => {
            return Err(e);
        },
    };
    let plan: Plan = make_plan(&inputs, noise);
    let clip: usize = match find_in_table(table, plan.anim.clip_name()) {
        Some(c) => c,
        None => {
            return Err(Error::UnknownClip);
        },
    };
    commit(table, &inputs, &plan, clip, noise)
}

/// Draws a number with `rand::random::<u32>()`, the random generator of the
/// thread. Nothing is claimed of the number. The generator panics where the
/// operating system gives it no seed.
#[verifier::external_body]
fn random_u32() -> (n: u32) {
    rand::random::<u32>()
}

/// Draws the random numbers of one tick, as far as the tick uses them: one
/// for a copy that is spawned, two for a camera that is shaken. Nothing is
/// known of the numbers drawn; a number that the tick does not use is not
/// drawn and is 0.
pub(crate) fn draw_noise(mouse: &MouseState, keys: &KeyState) -> (noise: Noise)
    ensures
        !(mouse.left_clicked && !mouse.middle_pressed) ==> noise.spawn == 0,
        !keys.pressed.holds(Key::Home) ==> noise.shake == (Shake { x: 0, y: 0 }),
{
    let spawn: u32 = if mouse.left_clicked && !mouse.middle_pressed {
        random_u32()
    } else {
        0
    };
    let shake: Shake = if keys.is_pressed(Key::Home) {
        Shake { x: random_u32(), y: random_u32() }
    } else {
        Shake { x: 0, y: 0 }
    };
    Noise { spawn, shake }
}

/// One tick of the game, with random numbers drawn for it: what
/// `entry_point_with` does for the numbers drawn, whatever they are.
pub fn entry_point(table: &mut Table) -> (r: Result<(), Error>)
    requires
        old(table).wf(),
    ensures
        final(table).wf(),
        exists|noise: Noise| frame_outcome(old(table)@, noise, r, final(table)@),
{
    let noise = match table.mouse_state.peek_state() {
        Ok(mouse) => match table.key_state.peek_state() {
            Ok(keys) => draw_noise(mouse, keys),
            Err(_) => Noise { spawn: 0, shake: Shake { x: 0, y: 0 } },
        },
        Err(_) => Noise { spawn: 0, shake: Shake { x: 0, y: 0 } },
    };
    entry_point_with(table, noise)
}

} // verus!
