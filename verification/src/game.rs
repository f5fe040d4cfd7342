//! The table of the sample game: every state that the game and its frame
//! driver share, each registered at most once.
//!
//! The frame driver calls `prep_func` once, then `entry_point` once per
//! tick, then `post_func` once. Each call has the table to itself.

use crate::camera::{GlobalMouseClickPos, RunningState, Uniform};
use crate::collision::{CollisionManager, ManagerView};
use crate::error::Error;
use crate::input::{KeyState, MouseState};
use crate::motion::TwoWayArrowKey;
use crate::player::{FloorCollisionAccess, MinionsSpawn, PlayerAccess};
use crate::pool::{PoolView, SpritePool};
use crate::slot::Handle;
use crate::table::Singleton;
use vstd::pervasive::unreached;
use vstd::prelude::*;

verus! {


/// Every state of the game, each registered at most once.
pub struct Table {
    pub running_state: Singleton<RunningState>,
    pub uniform: Singleton<Uniform>,
    pub mouse_state: Singleton<MouseState>,
    pub key_state: Singleton<KeyState>,
    pub sprite_master: Singleton<SpritePool>,
    pub collision_manager: Singleton<CollisionManager>,
    pub speed_resolver: Singleton<TwoWayArrowKey>,
    pub player_access: Singleton<PlayerAccess>,
    pub global_click_pos: Singleton<GlobalMouseClickPos>,
    pub minions_spawn: Singleton<MinionsSpawn>,
    pub floor_collision: Singleton<FloorCollisionAccess>,
}

/// Mathematical picture of a table: what is registered of each state.
pub struct TableView {
    pub running_state: Option<RunningState>,
    pub uniform: Option<Uniform>,
    pub mouse_state: Option<MouseState>,
    pub key_state: Option<KeyState>,
    pub sprite_master: Option<PoolView>,
    pub collision_manager: Option<ManagerView>,
    pub speed_resolver: Option<TwoWayArrowKey>,
    pub player_access: Option<PlayerAccess>,
    pub global_click_pos: Option<GlobalMouseClickPos>,
    pub minions_spawn: Option<Seq<Handle>>,
    pub floor_collision: Option<FloorCollisionAccess>,
}

/// Mathematical picture of a table in which every state is registered.
pub struct Scene {
    pub running: RunningState,
    pub uniform: Uniform,
    pub mouse: MouseState,
    pub keys: KeyState,
    pub pool: PoolView,
    pub collisions: ManagerView,
    pub resolver: TwoWayArrowKey,
    pub player: PlayerAccess,
    pub click: GlobalMouseClickPos,
    pub minions: Seq<Handle>,
    pub floor: FloorCollisionAccess,
}

impl View for Table {
    type V = TableView;

    open spec fn view(&self) -> TableView {
        TableView {
            running_state: self.running_state@,
            uniform: self.uniform@,
            mouse_state: self.mouse_state@,
            key_state: self.key_state@,
            sprite_master: match self.sprite_master@ {
                Some(pool) => Some(pool@),
                None => None,
            },
            collision_manager: match self.collision_manager@ {
                Some(manager) => Some(manager@),
                None => None,
            },
            speed_resolver: self.speed_resolver@,
            player_access: self.player_access@,
            global_click_pos: self.global_click_pos@,
            minions_spawn: match self.minions_spawn@ {
                Some(minions) => Some(minions@),
                None => None,
            },
            floor_collision: self.floor_collision@,
        }
    }
}

impl TableView {
    /// Every state is registered.
    pub open spec fn complete(self) -> bool {
        &&& self.running_state is Some
        &&& self.uniform is Some
        &&& self.mouse_state is Some
        &&& self.key_state is Some
        &&& self.sprite_master is Some
        &&& self.collision_manager is Some
        &&& self.speed_resolver is Some
        &&& self.player_access is Some
        &&& self.global_click_pos is Some
        &&& self.minions_spawn is Some
        &&& self.floor_collision is Some
    }

    /// The states of a complete table.
    pub open spec fn scene(self) -> Scene {
        Scene {
            running: self.running_state->Some_0,
            uniform: self.uniform->Some_0,
            mouse: self.mouse_state->Some_0,
            keys: self.key_state->Some_0,
            pool: self.sprite_master->Some_0,
            collisions: self.collision_manager->Some_0,
            resolver: self.speed_resolver->Some_0,
            player: self.player_access->Some_0,
            click: self.global_click_pos->Some_0,
            minions: self.minions_spawn->Some_0,
            floor: self.floor_collision->Some_0,
        }
    }
}

impl Scene {
    /// The complete table of these states.
    pub open spec fn table(self) -> TableView {
        TableView {
            running_state: Some(self.running),
            uniform: Some(self.uniform),
            mouse_state: Some(self.mouse),
            key_state: Some(self.keys),
            sprite_master: Some(self.pool),
            collision_manager: Some(self.collisions),
            speed_resolver: Some(self.resolver),
            player_access: Some(self.player),
            global_click_pos: Some(self.click),
            minions_spawn: Some(self.minions),
            floor_collision: Some(self.floor),
        }
    }
}

/// The value of a state, where it is registered.
pub(crate) fn read_copy<T: Copy>(state: &Singleton<T>) -> (r: Result<T, Error>)
    ensures
        match r {
            Ok(v) => state@ == Some(v),
            Err(e) => e == Error::NotFound && state@ is None,
        },
{
    match state.peek_state() {
        Ok(v) => Ok(*v),
        Err(e) => Err(e),
    }
}

/// Registers `value` as a state that is not registered yet.
pub(crate) fn register<T>(state: &mut Singleton<T>, value: T)
    requires
        old(state)@ is None,
    ensures
        final(state)@ == Some(value),
{
    match state.add_state(value) {
        Ok(()) => {},
        Err(_) => unreached(),
    }
}

/// Replaces the value of a state that is registered.
pub(crate) fn replace<T>(state: &mut Singleton<T>, value: T)
    requires
        old(state)@ is Some,
    ensures
        final(state)@ == Some(value),
{
    match state.read_state() {
        Ok(place) => {
            *place = value;
        },
        Err(_) => unreached(),
    }
}

impl Table {
    /// Well-formedness: the stores that are registered are well formed, and
    /// the maximum speed of the character is not negative.
    pub open spec fn wf(&self) -> bool {
        &&& self.sprite_master@ matches Some(pool) ==> pool.wf()
        &&& self.collision_manager@ matches Some(manager) ==> manager.wf()
        &&& self.speed_resolver@ matches Some(resolver) ==> resolver.max_speed >= 0
    }

    /// A table in which nothing is registered.
    pub fn new() -> (table: Table)
        ensures
            table.wf(),
            table@ == (TableView {
                running_state: None,
                uniform: None,
                mouse_state: None,
                key_state: None,
                sprite_master: None,
                collision_manager: None,
                speed_resolver: None,
                player_access: None,
                global_click_pos: None,
                minions_spawn: None,
                floor_collision: None,
            }),
    {
        Table {
            running_state: Singleton::new(),
            uniform: Singleton::new(),
            mouse_state: Singleton::new(),
            key_state: Singleton::new(),
            sprite_master: Singleton::new(),
            collision_manager: Singleton::new(),
            speed_resolver: Singleton::new(),
            player_access: Singleton::new(),
            global_click_pos: Singleton::new(),
            minions_spawn: Singleton::new(),
            floor_collision: Singleton::new(),
        }
    }
}

} // verus!
