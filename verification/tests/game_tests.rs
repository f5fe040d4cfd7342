use sprite_engine::camera::{GlobalMouseClickPos, RunningState, Shake, Uniform, HEIGHT_RESOLUTION_HALF};
use sprite_engine::collision::{CollisionManager, CollisionRect, Link};
use sprite_engine::error::Error;
use sprite_engine::frame::{entry_point, entry_point_with, Noise};
use sprite_engine::game::Table;
use sprite_engine::setup::{post_func, prep_func};
use sprite_engine::input::{Key, KeyState, MouseState};
use sprite_engine::motion::TwoWayArrowKey;
use sprite_engine::player::{
    choose_anim, face_player, move_player, place_minion, settle_player, FloorCollisionAccess,
    PlayerAccess, PlayerAnim, GROUND_LEVEL,
};
use sprite_engine::pool::SpritePool;
use sprite_engine::slot::Handle;
use sprite_engine::sprite::{ClipDef, LoopMode, SpriteInstance};

const TENTH: u64 = 100_000;

fn units(x: f64) -> i64 {
    (x * 1_000_000.0).round() as i64
}

fn quiet() -> Noise {
    Noise { spawn: 500, shake: Shake { x: 1_000_000, y: 1_000_000 } }
}

fn clip(name: &str, size: f64) -> ClipDef {
    ClipDef {
        name: name.to_string(),
        frame_count: 4,
        frame_duration: 100_000,
        looping: true,
        reversed: false,
        width: units(size),
        height: units(size),
    }
}

fn engine(sprites: usize, rects: usize) -> Table {
    let mut table = Table::new();
    table.running_state.add_state(RunningState::Running).unwrap();
    table
        .uniform
        .add_state(Uniform {
            window_width: 800,
            window_height: 600,
            height_resolution: HEIGHT_RESOLUTION_HALF,
            global_offset_x: 0,
            global_offset_y: 0,
            delta_time: TENTH,
        })
        .unwrap();
    table.mouse_state.add_state(MouseState::new()).unwrap();
    table.key_state.add_state(KeyState::new()).unwrap();
    let mut pool = SpritePool::new(sprites);
    for name in ["idle_right", "run_right", "jump_start", "jump_mid_air", "jump_fall"] {
        pool.add_clip(clip(name, 32.0)).unwrap();
    }
    pool.add_clip(clip("bg_grass", 64.0)).unwrap();
    table.sprite_master.add_state(pool).unwrap();
    table.collision_manager.add_state(CollisionManager::new(rects)).unwrap();
    table
}

fn game() -> Table {
    let mut table = engine(16, 16);
    assert_eq!(prep_func(&mut table), Ok(()));
    table
}

fn player(table: &Table) -> SpriteInstance {
    let access = *table.player_access.peek_state().unwrap();
    *table.sprite_master.peek_state().unwrap().get(access.sprite).unwrap()
}

fn player_rect(table: &Table) -> CollisionRect {
    let access = *table.player_access.peek_state().unwrap();
    *table.collision_manager.peek_state().unwrap().get(access.rect).unwrap()
}

fn resolver(table: &Table) -> TwoWayArrowKey {
    *table.speed_resolver.peek_state().unwrap()
}

fn press(table: &mut Table, key: Key, down: bool) {
    table.key_state.read_state().unwrap().pressed.set(key, down);
}

fn click(table: &mut Table, key: Key, down: bool) {
    table.key_state.read_state().unwrap().clicked.set(key, down);
}

#[test]
fn prep_func_sets_the_scene() {
    let table = game();
    let access = *table.player_access.peek_state().unwrap();
    assert_eq!(
        access,
        PlayerAccess {
            sprite: Handle { index: 0, generation: 0 },
            rect: Handle { index: 0, generation: 0 }
        }
    );
    assert_eq!(
        *table.floor_collision.peek_state().unwrap(),
        FloorCollisionAccess { rect: Handle { index: 1, generation: 0 } }
    );
    let pool = table.sprite_master.peek_state().unwrap();
    assert_eq!(pool.len(), 2);
    assert_eq!(
        *pool.get(access.sprite).unwrap(),
        SpriteInstance {
            pos_x: units(-16.0),
            pos_y: units(-16.0),
            width: units(32.0),
            height: units(32.0),
            depth: 0,
            clip: 0,
            frame: 0,
            elapsed: 0,
            flipped_x: false,
            flipped_y: false,
            paused: false,
            reversed: false,
            looping: LoopMode::Loop,
        }
    );
    let background = pool.get(Handle { index: 1, generation: 0 }).unwrap();
    assert_eq!(
        *background,
        SpriteInstance {
            pos_x: units(-512.0),
            pos_y: units(-48.0),
            width: units(1024.0),
            height: units(1024.0),
            depth: units(0.9),
            clip: 5,
            frame: 0,
            elapsed: 0,
            flipped_x: false,
            flipped_y: false,
            paused: false,
            reversed: false,
            looping: LoopMode::ClipDefault,
        }
    );
    let manager = table.collision_manager.peek_state().unwrap();
    assert_eq!(manager.len(), 2);
    assert_eq!(
        *manager.get(access.rect).unwrap(),
        CollisionRect {
            pos_x: units(-16.0),
            pos_y: units(-16.0),
            width: units(32.0),
            height: units(32.0),
            link: Link::Sprite(access.sprite),
        }
    );
    assert_eq!(
        *manager.get(Handle { index: 1, generation: 0 }).unwrap(),
        CollisionRect {
            pos_x: units(-512.0),
            pos_y: units(-48.0),
            width: units(1024.0),
            height: units(1024.0),
            link: Link::Unlinked,
        }
    );
    assert_eq!(
        resolver(&table),
        TwoWayArrowKey::new(units(3.0), units(2.0), units(5.0), units(10.0), units(9.8))
    );
    assert_eq!(*table.global_click_pos.peek_state().unwrap(), GlobalMouseClickPos { x: 0, y: 0 });
    assert!(table.minions_spawn.peek_state().unwrap().sprites.is_empty());
}

#[test]
fn prep_func_errors_leave_the_table_alone() {
    let mut bare = Table::new();
    assert_eq!(prep_func(&mut bare), Err(Error::NotFound));
    bare.sprite_master.add_state(SpritePool::new(4)).unwrap();
    assert_eq!(prep_func(&mut bare), Err(Error::NotFound));
    bare.collision_manager.add_state(CollisionManager::new(4)).unwrap();
    assert_eq!(prep_func(&mut bare), Err(Error::UnknownClip));
    bare.sprite_master.read_state().unwrap().add_clip(clip("idle_right", 32.0)).unwrap();
    assert_eq!(prep_func(&mut bare), Err(Error::UnknownClip));
    assert_eq!(bare.sprite_master.peek_state().unwrap().len(), 0);
    assert!(!bare.speed_resolver.is_present());

    let mut twice = game();
    assert_eq!(prep_func(&mut twice), Err(Error::AlreadyPresent));
    assert_eq!(twice.sprite_master.peek_state().unwrap().len(), 2);
    assert_eq!(twice.collision_manager.peek_state().unwrap().len(), 2);

    let mut partly = engine(16, 16);
    partly.floor_collision.add_state(FloorCollisionAccess { rect: Handle { index: 0, generation: 0 } }).unwrap();
    assert_eq!(prep_func(&mut partly), Err(Error::AlreadyPresent));
    assert_eq!(partly.sprite_master.peek_state().unwrap().len(), 0);

    let mut small_pool = engine(1, 16);
    assert_eq!(prep_func(&mut small_pool), Err(Error::CapacityExceeded));
    assert_eq!(small_pool.sprite_master.peek_state().unwrap().len(), 0);
    assert_eq!(small_pool.collision_manager.peek_state().unwrap().len(), 0);
    assert!(!small_pool.player_access.is_present());

    let mut small_manager = engine(2, 1);
    assert_eq!(prep_func(&mut small_manager), Err(Error::CapacityExceeded));
    assert_eq!(small_manager.sprite_master.peek_state().unwrap().len(), 0);
    assert_eq!(small_manager.sprite_master.peek_state().unwrap().vacancies(), 2);

    let mut tight = engine(2, 2);
    assert_eq!(prep_func(&mut tight), Ok(()));
}

#[test]
fn standing_character_stays_on_the_ground() {
    let mut table = game();
    let before = player(&table);
    for _ in 0..3 {
        assert_eq!(entry_point_with(&mut table, quiet()), Ok(()));
        assert_eq!(player(&table), before);
        assert_eq!(player_rect(&table).pos_y, GROUND_LEVEL);
        let r = resolver(&table);
        assert_eq!((r.current_speed, r.vertical_speed, r.in_air), (0, 0, false));
    }
    assert_eq!(*table.running_state.peek_state().unwrap(), RunningState::Running);
}

#[test]
fn falling_character_lands_on_the_floor() {
    let mut table = game();
    let access = *table.player_access.peek_state().unwrap();
    let floor = *table.floor_collision.peek_state().unwrap();
    {
        let manager = table.collision_manager.read_state().unwrap();
        let rect = manager.get_mut(floor.rect).unwrap();
        rect.pos_x = units(-16.0);
        rect.pos_y = units(-16.0);
        rect.width = units(1024.0);
        rect.height = units(1024.0);
        // the floor spans y from -528 to 496
        assert_eq!(rect.pos_y - rect.height / 2, units(-528.0));
        assert_eq!(rect.pos_y + rect.height / 2, units(496.0));
    }
    table.sprite_master.read_state().unwrap().get_mut(access.sprite).unwrap().pos_y = units(-15.9);
    {
        let r = table.speed_resolver.read_state().unwrap();
        r.vertical_speed = units(-5.0);
        r.in_air = true;
        r.double_jumped = true;
    }
    assert_eq!(entry_point_with(&mut table, quiet()), Ok(()));
    assert_eq!(player(&table).pos_y, units(-16.0));
    assert_eq!(player_rect(&table).pos_y, units(-16.0));
    let r = resolver(&table);
    assert_eq!(r.vertical_speed, 0);
    assert!(!r.in_air);
    assert!(!r.double_jumped);
    assert_eq!(player(&table).clip, 0);
}

#[test]
fn landing_step_by_step() {
    let mut r = TwoWayArrowKey::new(units(3.0), units(2.0), units(5.0), units(10.0), units(9.8));
    r.vertical_speed = units(-5.0);
    r.in_air = true;
    let mut sprite = SpriteInstance::new(0, &clip("idle_right", 32.0), (0, units(-15.9)), 0);
    let floor = CollisionRect {
        pos_x: 0,
        pos_y: units(-16.0),
        width: units(1024.0),
        height: units(1024.0),
        link: Link::Unlinked,
    };
    r.update_speed(TENTH);
    assert_eq!(r.vertical_speed, units(-5.98));
    move_player(&mut sprite, &r);
    assert_eq!(sprite.pos_y, units(-21.88));
    let mut rect = CollisionRect { pos_x: 9, pos_y: 9, width: 9, height: 9, link: Link::Unlinked };
    rect.sync_size_and_pos(&sprite);
    settle_player(&mut sprite, &mut r, &rect, &floor);
    assert_eq!(sprite.pos_y, units(-16.0));
    assert_eq!((r.vertical_speed, r.in_air, r.double_jumped), (0, false, false));
    // without a floor underneath the fall goes on
    let mut falling = r;
    falling.in_air = true;
    falling.vertical_speed = units(-5.0);
    let mut lost = sprite;
    lost.pos_y = units(-700.0);
    rect.sync_size_and_pos(&lost);
    settle_player(&mut lost, &mut falling, &rect, &floor);
    assert_eq!(lost.pos_y, units(-700.0));
    assert_eq!((falling.vertical_speed, falling.in_air), (units(-5.0), true));
    // exactly on ground level nothing happens
    let mut standing = r;
    let mut level = sprite;
    rect.sync_size_and_pos(&level);
    settle_player(&mut level, &mut standing, &rect, &floor);
    assert_eq!((level, standing), (sprite, r));
}

#[test]
fn jump_rises_and_comes_down() {
    let mut table = game();
    click(&mut table, Key::Space, true);
    assert_eq!(entry_point_with(&mut table, quiet()), Ok(()));
    click(&mut table, Key::Space, false);
    let r = resolver(&table);
    assert_eq!(r.vertical_speed, units(4.02));
    assert!(r.in_air);
    assert_eq!(player(&table).pos_y, units(-11.98));
    assert_eq!(player(&table).clip, 2);
    assert_eq!(player_rect(&table).pos_y, units(-11.98));
    let mut seen = vec![2usize];
    let mut ticks = 0;
    while resolver(&table).in_air {
        assert_eq!(entry_point_with(&mut table, quiet()), Ok(()));
        let clip = player(&table).clip;
        if *seen.last().unwrap() != clip {
            seen.push(clip);
        }
        ticks += 1;
        assert!(ticks < 100);
    }
    // jump_start, jump_mid_air, jump_fall, idle_right
    assert_eq!(seen, vec![2, 3, 4, 0]);
    assert_eq!(player(&table).pos_y, GROUND_LEVEL);
    assert_eq!(resolver(&table).vertical_speed, 0);
}

#[test]
fn double_jump_in_the_air_only_once() {
    let mut table = game();
    click(&mut table, Key::Space, true);
    assert_eq!(entry_point_with(&mut table, quiet()), Ok(()));
    assert_eq!(entry_point_with(&mut table, quiet()), Ok(()));
    let r = resolver(&table);
    assert!(r.in_air && r.double_jumped);
    assert_eq!(r.vertical_speed, units(5.0 - 0.98));
    assert_eq!(entry_point_with(&mut table, quiet()), Ok(()));
    assert_eq!(resolver(&table).vertical_speed, units(5.0 - 0.98 - 0.98));
}

#[test]
fn running_turns_and_animates_the_character() {
    let mut table = game();
    press(&mut table, Key::KeyA, true);
    assert_eq!(entry_point_with(&mut table, quiet()), Ok(()));
    let s = player(&table);
    assert_eq!(s.pos_x, units(-18.0));
    assert!(s.flipped_x);
    assert_eq!(s.clip, 1);
    assert_eq!(resolver(&table).current_speed, units(-2.0));
    assert!(resolver(&table).left && !resolver(&table).right);
    assert_eq!(player_rect(&table).pos_x, units(-18.0));
    press(&mut table, Key::KeyA, false);
    press(&mut table, Key::KeyD, true);
    assert_eq!(entry_point_with(&mut table, quiet()), Ok(()));
    let s = player(&table);
    assert_eq!(s.pos_x, units(-16.0));
    assert!(!s.flipped_x);
    press(&mut table, Key::KeyD, false);
    assert_eq!(entry_point_with(&mut table, quiet()), Ok(()));
    assert_eq!(resolver(&table).current_speed, units(1.0));
    assert_eq!(entry_point_with(&mut table, quiet()), Ok(()));
    assert_eq!(resolver(&table).current_speed, 0);
    let s = player(&table);
    assert_eq!(s.clip, 0);
    assert!(!s.flipped_x);
    assert_eq!(s.pos_x, units(-15.0));
}

#[test]
fn key_q_closes_the_game() {
    let mut table = game();
    click(&mut table, Key::KeyQ, true);
    assert_eq!(entry_point_with(&mut table, quiet()), Ok(()));
    assert_eq!(*table.running_state.peek_state().unwrap(), RunningState::Closed);
}

#[test]
fn click_spawns_a_minion_and_key_v_clears() {
    let mut table = game();
    {
        let m = table.mouse_state.read_state().unwrap();
        m.x = 400;
        m.y = 300;
        m.left_clicked = true;
    }
    table.sprite_master.read_state().unwrap().advance(250_000);
    let template = player(&table);
    assert_eq!((template.frame, template.elapsed), (2, 50_000));
    assert_eq!(entry_point_with(&mut table, Noise { spawn: 0, shake: Shake { x: 0, y: 0 } }), Ok(()));
    let first = Handle { index: 2, generation: 0 };
    assert_eq!(table.minions_spawn.peek_state().unwrap().sprites, vec![first]);
    let minion = *table.sprite_master.peek_state().unwrap().get(first).unwrap();
    assert_eq!(
        minion,
        SpriteInstance { depth: units(0.5), pos_x: units(-16.0), pos_y: 15_999_500, ..template }
    );
    assert_eq!(entry_point_with(&mut table, Noise { spawn: 2_999, shake: Shake { x: 0, y: 0 } }), Ok(()));
    let second = Handle { index: 3, generation: 0 };
    assert_eq!(table.minions_spawn.peek_state().unwrap().sprites, vec![first, second]);
    assert_eq!(table.sprite_master.peek_state().unwrap().get(second).unwrap().pos_y, 16_000_499);
    assert_eq!(table.sprite_master.peek_state().unwrap().len(), 4);
    // the middle button holds spawning back
    table.mouse_state.read_state().unwrap().middle_pressed = true;
    assert_eq!(entry_point_with(&mut table, quiet()), Ok(()));
    assert_eq!(table.sprite_master.peek_state().unwrap().len(), 4);
    table.mouse_state.read_state().unwrap().middle_pressed = false;
    // a minion that was removed by hand is passed over
    table.sprite_master.read_state().unwrap().remove_sprite(first).unwrap();
    click(&mut table, Key::KeyV, true);
    assert_eq!(entry_point_with(&mut table, quiet()), Ok(()));
    assert!(table.minions_spawn.peek_state().unwrap().sprites.is_empty());
    let pool = table.sprite_master.peek_state().unwrap();
    assert_eq!(pool.len(), 2);
    assert_eq!(pool.get(first), Err(Error::NotFound));
    assert_eq!(pool.get(second), Err(Error::NotFound));
    assert_eq!(pool.get(Handle { index: 2, generation: 1 }), Err(Error::NotFound));
    assert!(pool.contains(Handle { index: 0, generation: 0 }));
}

#[test]
fn random_tick_places_the_minion_within_the_jitter() {
    let mut table = game();
    {
        let m = table.mouse_state.read_state().unwrap();
        m.x = 400;
        m.y = 300;
        m.left_clicked = true;
    }
    press(&mut table, Key::Home, true);
    for round in 0..8usize {
        let before = *table.uniform.peek_state().unwrap();
        assert_eq!(entry_point(&mut table), Ok(()));
        let h = Handle { index: 2 + round, generation: 0 };
        let minion = *table.sprite_master.peek_state().unwrap().get(h).unwrap();
        let click = *table.global_click_pos.peek_state().unwrap();
        assert_eq!(click, GlobalMouseClickPos { x: -before.global_offset_x, y: -before.global_offset_y });
        assert_eq!(minion.pos_x, click.x - units(16.0));
        assert!(minion.pos_y >= click.y + units(16.0) - 500);
        assert!(minion.pos_y < click.y + units(16.0) + 500);
        let after = *table.uniform.peek_state().unwrap();
        assert!((after.global_offset_x - before.global_offset_x).abs() <= units(1.0));
        assert!((after.global_offset_y - before.global_offset_y).abs() <= units(1.0));
    }
    assert_eq!(table.minions_spawn.peek_state().unwrap().sprites.len(), 8);
}

#[test]
fn camera_follows_the_pointer_in_a_tick() {
    let mut table = game();
    {
        let m = table.mouse_state.read_state().unwrap();
        m.x = 800;
        m.y = 0;
        m.middle_clicked = true;
        m.middle_pressed = true;
    }
    table.uniform.read_state().unwrap().global_offset_x = units(1.0);
    assert_eq!(entry_point_with(&mut table, quiet()), Ok(()));
    assert_eq!(
        *table.global_click_pos.peek_state().unwrap(),
        GlobalMouseClickPos { x: 84_333_333, y: 64_000_000 }
    );
    let u = *table.uniform.peek_state().unwrap();
    assert_eq!((u.global_offset_x, u.global_offset_y), (units(1.0), 0));
    {
        let m = table.mouse_state.read_state().unwrap();
        m.x = 400;
        m.y = 300;
        m.middle_clicked = false;
    }
    press(&mut table, Key::Home, true);
    assert_eq!(
        entry_point_with(&mut table, Noise { spawn: 0, shake: Shake { x: 1_250_000, y: 0 } }),
        Ok(())
    );
    let u = *table.uniform.peek_state().unwrap();
    assert_eq!((u.global_offset_x, u.global_offset_y), (-84_333_333 + 250_000, -64_000_000 - 1_000_000));
    assert_eq!(u.height_resolution, HEIGHT_RESOLUTION_HALF);
    {
        let m = table.mouse_state.read_state().unwrap();
        m.middle_pressed = false;
        m.middle_released = true;
        m.wheel_delta = -1;
    }
    press(&mut table, Key::Home, false);
    assert_eq!(entry_point_with(&mut table, quiet()), Ok(()));
    assert_eq!(*table.global_click_pos.peek_state().unwrap(), GlobalMouseClickPos { x: 0, y: 0 });
    assert_eq!(table.uniform.peek_state().unwrap().height_resolution, 70_400_000);
}

#[test]
fn tick_errors_leave_the_table_alone() {
    let mut bare = engine(4, 4);
    assert_eq!(entry_point_with(&mut bare, quiet()), Err(Error::NotFound));
    assert_eq!(entry_point(&mut bare), Err(Error::NotFound));

    // no room for a minion
    let mut full = engine(2, 2);
    prep_func(&mut full).unwrap();
    full.mouse_state.read_state().unwrap().left_clicked = true;
    press(&mut full, Key::KeyD, true);
    click(&mut full, Key::KeyQ, true);
    let before = player(&full);
    assert_eq!(entry_point_with(&mut full, quiet()), Err(Error::CapacityExceeded));
    assert_eq!(player(&full), before);
    assert_eq!(resolver(&full).current_speed, 0);
    assert_eq!(*full.running_state.peek_state().unwrap(), RunningState::Running);
    assert!(full.minions_spawn.peek_state().unwrap().sprites.is_empty());

    // the floor is gone
    let mut floorless = game();
    let floor = *floorless.floor_collision.peek_state().unwrap();
    floorless.collision_manager.read_state().unwrap().remove_collision_rect(floor.rect).unwrap();
    press(&mut floorless, Key::KeyD, true);
    let before = player(&floorless);
    assert_eq!(entry_point_with(&mut floorless, quiet()), Err(Error::NotFound));
    assert_eq!(player(&floorless), before);

    // the character is gone
    let mut lonely = game();
    let access = *lonely.player_access.peek_state().unwrap();
    lonely.sprite_master.read_state().unwrap().remove_sprite(access.sprite).unwrap();
    assert_eq!(entry_point_with(&mut lonely, quiet()), Err(Error::NotFound));

    // the character would be cleared with the minions
    let mut confused = game();
    let access = *confused.player_access.peek_state().unwrap();
    confused.minions_spawn.read_state().unwrap().sprites.push(access.sprite);
    assert_eq!(entry_point_with(&mut confused, quiet()), Ok(()));
    click(&mut confused, Key::KeyV, true);
    assert_eq!(entry_point_with(&mut confused, quiet()), Err(Error::NotFound));
    assert_eq!(confused.sprite_master.peek_state().unwrap().len(), 2);
    assert_eq!(confused.minions_spawn.peek_state().unwrap().sprites, vec![access.sprite]);

    // a missing state
    let mut headless = game();
    headless.key_state.remove_state().unwrap();
    assert_eq!(entry_point_with(&mut headless, quiet()), Err(Error::NotFound));
}

#[test]
fn tick_needs_the_clip_of_the_animation() {
    let mut table = Table::new();
    table.running_state.add_state(RunningState::Running).unwrap();
    table
        .uniform
        .add_state(Uniform {
            window_width: 800,
            window_height: 600,
            height_resolution: HEIGHT_RESOLUTION_HALF,
            global_offset_x: 0,
            global_offset_y: 0,
            delta_time: TENTH,
        })
        .unwrap();
    table.mouse_state.add_state(MouseState::new()).unwrap();
    table.key_state.add_state(KeyState::new()).unwrap();
    let mut pool = SpritePool::new(8);
    pool.add_clip(clip("idle_right", 32.0)).unwrap();
    pool.add_clip(clip("bg_grass", 64.0)).unwrap();
    table.sprite_master.add_state(pool).unwrap();
    table.collision_manager.add_state(CollisionManager::new(8)).unwrap();
    assert_eq!(prep_func(&mut table), Ok(()));
    assert_eq!(entry_point_with(&mut table, quiet()), Ok(()));
    press(&mut table, Key::KeyD, true);
    let before = player(&table);
    assert_eq!(entry_point_with(&mut table, quiet()), Err(Error::UnknownClip));
    assert_eq!(player(&table), before);
    assert_eq!(resolver(&table).current_speed, 0);
    assert!(!resolver(&table).right);
}

#[test]
fn post_func_changes_nothing() {
    let mut table = game();
    let before = player(&table);
    post_func(&mut table);
    assert_eq!(player(&table), before);
    assert_eq!(table.sprite_master.peek_state().unwrap().len(), 2);
}

#[test]
fn animation_fits_the_speeds() {
    let mut r = TwoWayArrowKey::new(units(3.0), units(2.0), units(5.0), units(10.0), units(9.8));
    assert_eq!(choose_anim(&r), PlayerAnim::IdleRight);
    r.current_speed = -1;
    assert_eq!(choose_anim(&r), PlayerAnim::RunRight);
    r.in_air = true;
    r.vertical_speed = 0;
    assert_eq!(choose_anim(&r), PlayerAnim::JumpMidAir);
    r.vertical_speed = units(0.5);
    assert_eq!(choose_anim(&r), PlayerAnim::JumpMidAir);
    r.vertical_speed = units(0.5) + 1;
    assert_eq!(choose_anim(&r), PlayerAnim::JumpStart);
    r.vertical_speed = -1;
    assert_eq!(choose_anim(&r), PlayerAnim::JumpFall);
    assert_eq!(PlayerAnim::JumpMidAir.clip_name(), "jump_mid_air");
    assert_eq!(PlayerAnim::JumpStart.clip_name(), "jump_start");
    assert_eq!(PlayerAnim::JumpFall.clip_name(), "jump_fall");
    assert_eq!(PlayerAnim::RunRight.clip_name(), "run_right");
    assert_eq!(PlayerAnim::IdleRight.clip_name(), "idle_right");
}

#[test]
fn facing_and_placing() {
    let mut r = TwoWayArrowKey::new(units(3.0), units(2.0), units(5.0), units(10.0), units(9.8));
    let mut s = SpriteInstance::new(0, &clip("idle_right", 32.0), (0, 0), 0);
    face_player(&mut s, &r);
    assert!(!s.flipped_x);
    r.current_speed = -1;
    face_player(&mut s, &r);
    assert!(s.flipped_x);
    r.current_speed = 0;
    face_player(&mut s, &r);
    assert!(s.flipped_x);
    r.current_speed = 1;
    face_player(&mut s, &r);
    assert!(!s.flipped_x);
    r.current_speed = i64::MAX;
    r.vertical_speed = i64::MIN;
    s.pos_x = 1;
    s.pos_y = -1;
    move_player(&mut s, &r);
    assert_eq!((s.pos_x, s.pos_y), (i64::MAX, i64::MIN));
    place_minion(&mut s, &GlobalMouseClickPos { x: units(10.0), y: units(20.0) }, 1_234_567);
    assert_eq!((s.pos_x, s.pos_y, s.depth), (units(-6.0), units(36.0) + 67, units(0.5)));
    place_minion(&mut s, &GlobalMouseClickPos { x: i64::MIN, y: i64::MAX }, 0);
    assert_eq!((s.pos_x, s.pos_y), (i64::MIN, i64::MAX));
}
