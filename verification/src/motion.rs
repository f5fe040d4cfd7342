//! The speed resolver of a character that is steered left and right and
//! falls under gravity.
//!
//! Speeds are micro-units per tick; accelerations are micro-units per tick,
//! gained in one second.

use crate::fixed::{clamp, saturate, saturating, scale, trunc_div, UNIT};
use vstd::prelude::*;

verus! {

/// Below this speed a character that is not steered stands still.
pub const REST_SPEED: i64 = 100_000;

/// Upward speed that a jump gives.
pub const JUMP_SPEED: i64 = 5_000_000;

/// Steering input and speeds of a character.
#[derive(Clone, Copy, Debug, PartialEq, Eq, Structural)]
pub struct TwoWayArrowKey {
    pub left: bool,
    pub right: bool,
    pub max_speed: i64,
    pub min_speed: i64,
    pub acc: i64,
    pub deacc: i64,
    pub current_speed: i64,
    pub vertical_speed: i64,
    pub gravity_constant: i64,
    pub in_air: bool,
    pub double_jumped: bool,
}

impl TwoWayArrowKey {
    /// The horizontal speed after a tick of `delta_time`, before it is held
    /// within the maximum speed.
    ///
    /// On the ground, steering one way accelerates that way, to at least the
    /// minimum speed; without steering the character slows down and comes to
    /// rest below `REST_SPEED`. In the air, steering accelerates and nothing
    /// slows the character down.
    pub open spec fn steered_speed(self, delta_time: u64) -> int {
        let push = trunc_div(self.acc * delta_time, UNIT as int);
        let drag = trunc_div(self.deacc * delta_time, UNIT as int);
        let slowed = if self.current_speed > 0 {
            self.current_speed - drag
        } else if self.current_speed < 0 {
            self.current_speed + drag
        } else {
            0
        };
        if self.left != self.right {
            if self.left {
                if self.in_air || self.current_speed - push < -self.min_speed {
                    self.current_speed - push
                } else {
                    -self.min_speed
                }
            } else {
                if self.in_air || self.current_speed + push > self.min_speed {
                    self.current_speed + push
                } else {
                    self.min_speed as int
                }
            }
        } else if self.in_air {
            self.current_speed as int
        } else if -REST_SPEED < slowed < REST_SPEED {
            0
        } else {
            slowed
        }
    }

    /// The resolver after a tick of `delta_time`: the horizontal speed is
    /// steered and held within the maximum speed, and gravity is taken off
    /// the vertical speed.
    pub open spec fn updated(self, delta_time: u64) -> TwoWayArrowKey {
        TwoWayArrowKey {
            current_speed: clamp(
                self.steered_speed(delta_time),
                -self.max_speed,
                self.max_speed as int,
            ) as i64,
            vertical_speed: saturate(
                self.vertical_speed - trunc_div(self.gravity_constant * delta_time, UNIT as int),
            ),
            ..self
        }
    }

    /// The resolver after a request to jump: from the ground the jump speed
    /// is added to the vertical speed; in the air one more jump sets the
    /// vertical speed to the jump speed, and further requests do nothing.
    pub open spec fn jumped(self) -> TwoWayArrowKey {
        if !self.in_air {
            TwoWayArrowKey { vertical_speed: saturate(self.vertical_speed + JUMP_SPEED), ..self }
        } else if !self.double_jumped {
            TwoWayArrowKey { double_jumped: true, vertical_speed: JUMP_SPEED, ..self }
        } else {
            self
        }
    }

    /// The resolver of a character that has come down on the ground.
    pub open spec fn landed(self) -> TwoWayArrowKey {
        TwoWayArrowKey { vertical_speed: 0, in_air: false, double_jumped: false, ..self }
    }

    /// A resolver at rest on the ground, not steered.
    pub fn new(max_speed: i64, min_speed: i64, acc: i64, deacc: i64, gravity_constant: i64) -> (r:
        TwoWayArrowKey)
        ensures
            r == (TwoWayArrowKey {
                left: false,
                right: false,
                max_speed,
                min_speed,
                acc,
                deacc,
                current_speed: 0,
                vertical_speed: 0,
                gravity_constant,
                in_air: false,
                double_jumped: false,
            }),
    {
        TwoWayArrowKey {
            left: false,
            right: false,
            max_speed,
            min_speed,
            acc,
            deacc,
            current_speed: 0,
            gravity_constant,
            vertical_speed: 0,
            in_air: false,
            double_jumped: false,
        }
    }

    /// Lets a tick of `delta_time` microseconds pass. The maximum speed
    /// must not be negative.
    pub fn update_speed(&mut self, delta_time: u64)
        requires
            old(self).max_speed >= 0,
        ensures
            *final(self) == old(self).updated(delta_time),
    {
        let speed: i128 = self.current_speed as i128;
        let mut next: i128 = speed;
        if !self.in_air {
            if self.left ^ self.right {
                let push: i128 = scale(self.acc, delta_time, UNIT as u64);
                if self.left {
                    next = speed - push;
                    if next > -(self.min_speed as i128) {
                        next = -(self.min_speed as i128);
                    }
                } else {
                    next = speed + push;
                    if next < self.min_speed as i128 {
                        next = self.min_speed as i128;
                    }
                }
            } else {
                let drag: i128 = scale(self.deacc, delta_time, UNIT as u64);
                if speed > 0 {
                    next = speed - drag;
                } else if speed < 0 {
                    next = speed + drag;
                }
                if -(REST_SPEED as i128) < next && next < REST_SPEED as i128 {
                    next = 0;
                }
            }
        } else {
            if self.left ^ self.right {
                let push: i128 = scale(self.acc, delta_time, UNIT as u64);
                if self.left {
                    next = speed - push;
                } else {
                    next = speed + push;
                }
            }
        }
        let fall: i128 = scale(self.gravity_constant, delta_time, UNIT as u64);
        self.vertical_speed = saturating(self.vertical_speed as i128 - fall);
        if next < -(self.max_speed as i128) {
            self.current_speed = -self.max_speed;
        } else if next > self.max_speed as i128 {
            self.current_speed = self.max_speed;
        } else {
            self.current_speed = next as i64;
        }
    }

    /// Takes a request to jump.
    pub fn jump(&mut self)
        ensures
            *final(self) == old(self).jumped(),
    {
        if !self.in_air {
            self.vertical_speed = saturating(self.vertical_speed as i128 + JUMP_SPEED as i128);
        } else if !self.double_jumped {
            self.double_jumped = true;
            self.vertical_speed = JUMP_SPEED;
        }
    }

    /// Brings the character to rest on the ground.
    pub fn land(&mut self)
        ensures
            *final(self) == old(self).landed(),
    {
        self.vertical_speed = 0;
        self.in_air = false;
        self.double_jumped = false;
    }
}

} // verus!
