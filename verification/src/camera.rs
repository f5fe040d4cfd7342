//! The view onto the world: window size, zoom and offset, and how the
//! pointer moves them.

use crate::fixed::{saturate, saturating, scale, trunc_div, UNIT};
use crate::input::MouseState;
use vstd::prelude::*;

verus! {

/// Half of the height of the world that the window shows when fully
/// zoomed in.
pub const HEIGHT_RESOLUTION_HALF: i64 = 64_000_000;

/// Half of the height of the world that the window shows when fully
/// zoomed out.
pub const MAX_RESOLUTION_HALF: i64 = 256_000_000;

/// The largest number of sprites alive at a time.
pub const MAX_SPRITES_NUM: u32 = 4096;

/// Whether the frame loop goes on.
#[derive(Clone, Copy, Debug, PartialEq, Eq, Structural)]
pub enum RunningState {
    Running,
    Closed,
}

/// What the frame driver tells every tick, and where the camera stands.
#[derive(Clone, Copy, Debug, PartialEq, Eq, Structural)]
pub struct Uniform {
    /// Window size in pixels.
    pub window_width: u32,
    pub window_height: u32,
    /// Half of the height of the world that the window shows.
    pub height_resolution: i64,
    pub global_offset_x: i64,
    pub global_offset_y: i64,
    /// Time since the last tick, in microseconds.
    pub delta_time: u64,
}

/// Where in the world the pointer was when a button went down, less the
/// camera offset at that time; the origin while no button is down.
#[derive(Clone, Copy, Debug, PartialEq, Eq, Structural)]
pub struct GlobalMouseClickPos {
    pub x: i64,
    pub y: i64,
}

/// Two random numbers for a shake of the camera.
#[derive(Clone, Copy, Debug, PartialEq, Eq, Structural)]
pub struct Shake {
    pub x: u32,
    pub y: u32,
}

/// The pointer's place in the world, seen from the centre of the window:
/// `(2 x - width) * height_resolution / height` to the right and
/// `(height - 2 y) * height_resolution / height` upwards. Nothing for a
/// window without width or height.
pub open spec fn relative_pos(mouse: MouseState, uniform: Uniform) -> Option<(i64, i64)> {
    if uniform.window_width == 0 || uniform.window_height == 0 {
        None
    } else {
        Some(
            (
                saturate(
                    trunc_div(
                        uniform.height_resolution * (2 * mouse.x - uniform.window_width),
                        uniform.window_height as int,
                    ),
                ),
                saturate(
                    trunc_div(
                        uniform.height_resolution * (uniform.window_height - 2 * mouse.y),
                        uniform.window_height as int,
                    ),
                ),
            ),
        )
    }
}

/// The click position after a tick: set where a button went down, cleared
/// where a button came up, else kept. Without a pointer position it is kept.
pub open spec fn tracked_click(
    click: GlobalMouseClickPos,
    mouse: MouseState,
    uniform: Uniform,
) -> GlobalMouseClickPos {
    match relative_pos(mouse, uniform) {
        None => click,
        Some(rel) => if mouse.any_released() {
            GlobalMouseClickPos { x: 0, y: 0 }
        } else if mouse.any_clicked() {
            GlobalMouseClickPos {
                x: saturate(rel.0 - uniform.global_offset_x),
                y: saturate(rel.1 - uniform.global_offset_y),
            }
        } else {
            click
        },
    }
}

/// The camera after a tick, given the click position of this tick: while
/// the middle button is down the offset follows the pointer; else the wheel
/// zooms, by a tenth each tick, within the two resolution limits.
pub open spec fn panned(uniform: Uniform, mouse: MouseState, click: GlobalMouseClickPos) -> Uniform {
    if mouse.middle_pressed {
        match relative_pos(mouse, uniform) {
            None => uniform,
            Some(rel) => Uniform {
                global_offset_x: saturate(rel.0 - click.x),
                global_offset_y: saturate(rel.1 - click.y),
                ..uniform
            },
        }
    } else if mouse.wheel_delta < 0 {
        let wider = trunc_div(uniform.height_resolution * 110, 100);
        Uniform {
            height_resolution: saturate(
                if wider < MAX_RESOLUTION_HALF {
                    wider
                } else {
                    MAX_RESOLUTION_HALF as int
                },
            ),
            ..uniform
        }
    } else if mouse.wheel_delta > 0 {
        let closer = trunc_div(uniform.height_resolution * 90, 100);
        Uniform {
            height_resolution: saturate(
                if closer > HEIGHT_RESOLUTION_HALF {
                    closer
                } else {
                    HEIGHT_RESOLUTION_HALF as int
                },
            ),
            ..uniform
        }
    } else {
        uniform
    }
}

/// The distance that a random number moves the camera on one axis: from
/// one unit one way to just under one unit the other way.
pub open spec fn shake_offset(noise: u32) -> int {
    noise % 2_000_000 - UNIT
}

/// The camera after a shake.
pub open spec fn shaken(uniform: Uniform, shake: Shake) -> Uniform {
    Uniform {
        global_offset_x: saturate(uniform.global_offset_x + shake_offset(shake.x)),
        global_offset_y: saturate(uniform.global_offset_y + shake_offset(shake.y)),
        ..uniform
    }
}

/// `resolution * pixels / height`, rounded towards zero and held within
/// 64 bits.
fn to_world(resolution: i64, pixels: i64, height: u32) -> (r: i64)
    requires
        height > 0,
    ensures
        r == saturate(trunc_div(resolution * pixels, height as int)),
{
    if pixels >= 0 {
        saturating(scale(resolution, pixels as u64, height as u64))
    } else {
        let magnitude: u64 = (-(pixels as i128)) as u64;
        assert(resolution * pixels == -(resolution * magnitude)) by (nonlinear_arith)
            requires
                magnitude == -pixels,
        ;
        saturating(-scale(resolution, magnitude, height as u64))
    }
}

/// The pointer's place in the world, seen from the centre of the window.
pub fn relative_click_pos(mouse: &MouseState, uniform: &Uniform) -> (r: Option<(i64, i64)>)
    ensures
        r == relative_pos(*mouse, *uniform),
{
    if uniform.window_width == 0 || uniform.window_height == 0 {
        return None;
    }
    let right: i64 = 2 * (mouse.x as i64) - uniform.window_width as i64;
    let up: i64 = uniform.window_height as i64 - 2 * (mouse.y as i64);
    Some(
        (
            to_world(uniform.height_resolution, right, uniform.window_height),
            to_world(uniform.height_resolution, up, uniform.window_height),
        ),
    )
}

/// Follows the buttons of the pointer with the click position.
pub fn track_click(click: &mut GlobalMouseClickPos, mouse: &MouseState, uniform: &Uniform)
    ensures
        *final(click) == tracked_click(*old(click), *mouse, *uniform),
{
    match relative_click_pos(mouse, uniform) {
        None => {},
        Some(rel) => {
            if mouse.middle_clicked || mouse.left_clicked || mouse.right_clicked {
                click.x = saturating(rel.0 as i128 - uniform.global_offset_x as i128);
                click.y = saturating(rel.1 as i128 - uniform.global_offset_y as i128);
            }
            if mouse.middle_released || mouse.left_released || mouse.right_released {
                click.x = 0;
                click.y = 0;
            }
        },
    }
}

/// Drags the camera with the middle button, or zooms it with the wheel.
pub fn pan_and_zoom(uniform: &mut Uniform, mouse: &MouseState, click: &GlobalMouseClickPos)
    ensures
        *final(uniform) == panned(*old(uniform), *mouse, *click),
{
    if mouse.middle_pressed {
        match relative_click_pos(mouse, uniform) {
            None => {},
            Some(rel) => {
                uniform.global_offset_x = saturating(rel.0 as i128 - click.x as i128);
                uniform.global_offset_y = saturating(rel.1 as i128 - click.y as i128);
            },
        }
    } else if mouse.wheel_delta < 0 {
        let wider: i128 = scale(uniform.height_resolution, 110, 100);
        uniform.height_resolution = saturating(
            if wider < MAX_RESOLUTION_HALF as i128 {
                wider
            } else {
                MAX_RESOLUTION_HALF as i128
            },
        );
    } else if mouse.wheel_delta > 0 {
        let closer: i128 = scale(uniform.height_resolution, 90, 100);
        uniform.height_resolution = saturating(
            if closer > HEIGHT_RESOLUTION_HALF as i128 {
                closer
            } else {
                HEIGHT_RESOLUTION_HALF as i128
            },
        );
    }
}

/// Shakes the camera by two random numbers.
pub fn shake_camera(uniform: &mut Uniform, shake: Shake)
    ensures
        *final(uniform) == shaken(*old(uniform), shake),
{
    let dx: i64 = (shake.x % 2_000_000) as i64 - UNIT;
    let dy: i64 = (shake.y % 2_000_000) as i64 - UNIT;
    uniform.global_offset_x = saturating(uniform.global_offset_x as i128 + dx as i128);
    uniform.global_offset_y = saturating(uniform.global_offset_y as i128 + dy as i128);
}

} // verus!
