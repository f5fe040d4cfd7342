use sprite_engine::camera::{
    pan_and_zoom, relative_click_pos, shake_camera, track_click, GlobalMouseClickPos, Shake, Uniform,
    HEIGHT_RESOLUTION_HALF, MAX_RESOLUTION_HALF, MAX_SPRITES_NUM,
};
use sprite_engine::input::{Key, KeySet, KeyState, MouseState};

fn uniform() -> Uniform {
    Uniform {
        window_width: 800,
        window_height: 600,
        height_resolution: HEIGHT_RESOLUTION_HALF,
        global_offset_x: 1_000_000,
        global_offset_y: 2_000_000,
        delta_time: 16_000,
    }
}

fn mouse_at(x: i32, y: i32) -> MouseState {
    MouseState { x, y, ..MouseState::new() }
}

#[test]
fn constants() {
    assert_eq!(HEIGHT_RESOLUTION_HALF, 64_000_000);
    assert_eq!(MAX_RESOLUTION_HALF, 256_000_000);
    assert_eq!(MAX_SPRITES_NUM, 2048 * 2);
}

#[test]
fn pointer_position_in_the_world() {
    let u = uniform();
    assert_eq!(relative_click_pos(&mouse_at(400, 300), &u), Some((0, 0)));
    assert_eq!(relative_click_pos(&mouse_at(800, 0), &u), Some((85_333_333, 64_000_000)));
    assert_eq!(relative_click_pos(&mouse_at(0, 600), &u), Some((-85_333_333, -64_000_000)));
    assert_eq!(relative_click_pos(&mouse_at(401, 299), &u), Some((213_333, 213_333)));
    let mut flat = u;
    flat.window_height = 0;
    assert_eq!(relative_click_pos(&mouse_at(1, 1), &flat), None);
    let mut thin = u;
    thin.window_width = 0;
    assert_eq!(relative_click_pos(&mouse_at(1, 1), &thin), None);
    let mut far = u;
    far.height_resolution = i64::MAX;
    far.window_height = 1;
    assert_eq!(relative_click_pos(&mouse_at(i32::MAX, i32::MIN), &far), Some((i64::MAX, i64::MAX)));
    assert_eq!(relative_click_pos(&mouse_at(i32::MIN, i32::MAX), &far), Some((i64::MIN, i64::MIN)));
}

#[test]
fn click_position_follows_the_buttons() {
    let u = uniform();
    let mut click = GlobalMouseClickPos { x: 5, y: 6 };
    track_click(&mut click, &mouse_at(800, 0), &u);
    assert_eq!(click, GlobalMouseClickPos { x: 5, y: 6 });
    let mut m = mouse_at(800, 0);
    m.right_clicked = true;
    track_click(&mut click, &m, &u);
    assert_eq!(click, GlobalMouseClickPos { x: 84_333_333, y: 62_000_000 });
    m.right_clicked = false;
    m.left_released = true;
    track_click(&mut click, &m, &u);
    assert_eq!(click, GlobalMouseClickPos { x: 0, y: 0 });
    m.middle_clicked = true;
    click = GlobalMouseClickPos { x: 5, y: 6 };
    track_click(&mut click, &m, &u);
    assert_eq!(click, GlobalMouseClickPos { x: 0, y: 0 });
    let mut flat = u;
    flat.window_height = 0;
    click = GlobalMouseClickPos { x: 5, y: 6 };
    track_click(&mut click, &m, &flat);
    assert_eq!(click, GlobalMouseClickPos { x: 5, y: 6 });
}

#[test]
fn middle_button_drags_the_camera() {
    let mut u = uniform();
    let mut m = mouse_at(800, 0);
    m.middle_pressed = true;
    m.wheel_delta = -1;
    pan_and_zoom(&mut u, &m, &GlobalMouseClickPos { x: 333_333, y: -1_000_000 });
    assert_eq!((u.global_offset_x, u.global_offset_y), (85_000_000, 65_000_000));
    assert_eq!(u.height_resolution, HEIGHT_RESOLUTION_HALF);
}

#[test]
fn wheel_zooms_within_limits() {
    let mut u = uniform();
    let mut m = mouse_at(0, 0);
    m.wheel_delta = -3;
    pan_and_zoom(&mut u, &m, &GlobalMouseClickPos { x: 0, y: 0 });
    assert_eq!(u.height_resolution, 70_400_000);
    assert_eq!((u.global_offset_x, u.global_offset_y), (1_000_000, 2_000_000));
    m.wheel_delta = 1;
    pan_and_zoom(&mut u, &m, &GlobalMouseClickPos { x: 0, y: 0 });
    assert_eq!(u.height_resolution, HEIGHT_RESOLUTION_HALF);
    u.height_resolution = 100_000_001;
    pan_and_zoom(&mut u, &m, &GlobalMouseClickPos { x: 0, y: 0 });
    assert_eq!(u.height_resolution, 90_000_000);
    u.height_resolution = 250_000_000;
    m.wheel_delta = -1;
    pan_and_zoom(&mut u, &m, &GlobalMouseClickPos { x: 0, y: 0 });
    assert_eq!(u.height_resolution, MAX_RESOLUTION_HALF);
    m.wheel_delta = 0;
    u.height_resolution = 5;
    pan_and_zoom(&mut u, &m, &GlobalMouseClickPos { x: 0, y: 0 });
    assert_eq!(u.height_resolution, 5);
    m.wheel_delta = -1;
    u.height_resolution = i64::MIN;
    pan_and_zoom(&mut u, &m, &GlobalMouseClickPos { x: 0, y: 0 });
    assert_eq!(u.height_resolution, i64::MIN);
}

#[test]
fn shake_moves_the_camera_by_under_one_unit() {
    let mut u = uniform();
    shake_camera(&mut u, Shake { x: 0, y: 1_999_999 });
    assert_eq!((u.global_offset_x, u.global_offset_y), (0, 2_999_999));
    shake_camera(&mut u, Shake { x: 2_000_000, y: 1_000_000 });
    assert_eq!((u.global_offset_x, u.global_offset_y), (-1_000_000, 2_999_999));
    shake_camera(&mut u, Shake { x: u32::MAX, y: 1_500_000 });
    assert_eq!((u.global_offset_x, u.global_offset_y), (-1_032_705, 3_499_999));
    u.global_offset_x = i64::MIN;
    u.global_offset_y = i64::MAX;
    shake_camera(&mut u, Shake { x: 0, y: 1_999_999 });
    assert_eq!((u.global_offset_x, u.global_offset_y), (i64::MIN, i64::MAX));
}

#[test]
fn key_sets() {
    let mut s = KeySet::empty();
    for k in [Key::KeyA, Key::KeyD, Key::KeyQ, Key::KeyV, Key::Home, Key::Space] {
        assert!(!s.has(k));
    }
    s.set(Key::Home, true);
    s.set(Key::KeyA, true);
    assert!(s.has(Key::Home) && s.has(Key::KeyA));
    assert!(!s.has(Key::KeyD) && !s.has(Key::KeyQ) && !s.has(Key::KeyV) && !s.has(Key::Space));
    s.set(Key::Home, false);
    assert!(!s.has(Key::Home) && s.has(Key::KeyA));
    for k in [Key::KeyA, Key::KeyD, Key::KeyQ, Key::KeyV, Key::Home, Key::Space] {
        let mut one = KeySet::empty();
        one.set(k, true);
        for other in [Key::KeyA, Key::KeyD, Key::KeyQ, Key::KeyV, Key::Home, Key::Space] {
            assert_eq!(one.has(other), other == k);
        }
    }
    let mut keys = KeyState::new();
    keys.pressed.set(Key::KeyD, true);
    keys.clicked.set(Key::Space, true);
    assert!(keys.is_pressed(Key::KeyD) && !keys.just_clicked(Key::KeyD));
    assert!(keys.just_clicked(Key::Space) && !keys.is_pressed(Key::Space));
}
