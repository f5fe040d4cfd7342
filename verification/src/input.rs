//! Snapshots of keyboard and mouse, as the frame driver hands them to the
//! update phase.

use vstd::prelude::*;

verus! {

/// The keys that the game reads.
#[derive(Clone, Copy, Debug, PartialEq, Eq, Structural)]
pub enum Key {
    KeyA,
    KeyD,
    KeyQ,
    KeyV,
    Home,
    Space,
}

/// A set of keys.
#[derive(Clone, Copy, Debug, PartialEq, Eq, Structural)]
pub struct KeySet {
    pub key_a: bool,
    pub key_d: bool,
    pub key_q: bool,
    pub key_v: bool,
    pub home: bool,
    pub space: bool,
}

impl KeySet {
    /// Whether `key` is in the set.
    pub open spec fn holds(self, key: Key) -> bool {
        match key {
            Key::KeyA => self.key_a,
            Key::KeyD => self.key_d,
            Key::KeyQ => self.key_q,
            Key::KeyV => self.key_v,
            Key::Home => self.home,
            Key::Space => self.space,
        }
    }

    /// The set after `key` was put in (`present`) or taken out.
    pub open spec fn with(self, key: Key, present: bool) -> KeySet {
        match key {
            Key::KeyA => KeySet { key_a: present, ..self },
            Key::KeyD => KeySet { key_d: present, ..self },
            Key::KeyQ => KeySet { key_q: present, ..self },
            Key::KeyV => KeySet { key_v: present, ..self },
            Key::Home => KeySet { home: present, ..self },
            Key::Space => KeySet { space: present, ..self },
        }
    }

    /// The set of no key.
    pub open spec fn nothing() -> KeySet {
        KeySet { key_a: false, key_d: false, key_q: false, key_v: false, home: false, space: false }
    }

    /// The set of no key.
    pub fn empty() -> (s: KeySet)
        ensures
            s == KeySet::nothing(),
    {
        KeySet { key_a: false, key_d: false, key_q: false, key_v: false, home: false, space: false }
    }

    /// Whether `key` is in the set.
    pub fn has(&self, key: Key) -> (b: bool)
        ensures
            b == self.holds(key),
    {
        match key {
            Key::KeyA => self.key_a,
            Key::KeyD => self.key_d,
            Key::KeyQ => self.key_q,
            Key::KeyV => self.key_v,
            Key::Home => self.home,
            Key::Space => self.space,
        }
    }

    /// Puts `key` in (`present`) or takes it out.
    pub fn set(&mut self, key: Key, present: bool)
        ensures
            *final(self) == old(self).with(key, present),
    {
        match key {
            Key::KeyA => {
                self.key_a = present;
            },
            Key::KeyD => {
                self.key_d = present;
            },
            Key::KeyQ => {
                self.key_q = present;
            },
            Key::KeyV => {
                self.key_v = present;
            },
            Key::Home => {
                self.home = present;
            },
            Key::Space => {
                self.space = present;
            },
        }
    }
}

/// The keys held down, and the keys that went down since the last tick.
#[derive(Clone, Copy, Debug, PartialEq, Eq, Structural)]
pub struct KeyState {
    pub pressed: KeySet,
    pub clicked: KeySet,
}

impl KeyState {
    /// The state after `key` went down: it is held down, and it counts as
    /// gone down since the last tick unless it was held down already.
    pub open spec fn after_down(self, key: Key) -> KeyState {
        KeyState {
            pressed: self.pressed.with(key, true),
            clicked: if self.pressed.holds(key) {
                self.clicked
            } else {
                self.clicked.with(key, true)
            },
        }
    }

    /// The state after `key` came up.
    pub open spec fn after_up(self, key: Key) -> KeyState {
        KeyState { pressed: self.pressed.with(key, false), clicked: self.clicked }
    }

    /// The state at the start of the next tick: no key has gone down yet.
    pub open spec fn after_tick(self) -> KeyState {
        KeyState { pressed: self.pressed, clicked: KeySet::nothing() }
    }

    /// No key held down or gone down.
    pub fn new() -> (s: KeyState)
        ensures
            s == (KeyState { pressed: KeySet::nothing(), clicked: KeySet::nothing() }),
    {
        KeyState { pressed: KeySet::empty(), clicked: KeySet::empty() }
    }

    /// Notes that `key` went down.
    pub fn key_down(&mut self, key: Key)
        ensures
            *final(self) == old(self).after_down(key),
    {
        if !self.pressed.has(key) {
            self.clicked.set(key, true);
        }
        self.pressed.set(key, true);
    }

    /// Notes that `key` came up.
    pub fn key_up(&mut self, key: Key)
        ensures
            *final(self) == old(self).after_up(key),
    {
        self.pressed.set(key, false);
    }

    /// Forgets which keys went down in the tick that is over.
    pub fn end_tick(&mut self)
        ensures
            *final(self) == old(self).after_tick(),
    {
        self.clicked = KeySet::empty();
    }

    /// Whether `key` is held down.
    pub fn is_pressed(&self, key: Key) -> (b: bool)
        ensures
            b == self.pressed.holds(key),
    {
        self.pressed.has(key)
    }

    /// Whether `key` went down since the last tick.
    pub fn just_clicked(&self, key: Key) -> (b: bool)
        ensures
            b == self.clicked.holds(key),
    {
        self.clicked.has(key)
    }
}

/// The buttons of the pointer that the game reads.
#[derive(Clone, Copy, Debug, PartialEq, Eq, Structural)]
pub enum Button {
    Left,
    Middle,
    Right,
}

/// Where the pointer is, in pixels from the top left corner of the window,
/// what its buttons do, and how far the wheel was turned since the last tick.
#[derive(Clone, Copy, Debug, PartialEq, Eq, Structural)]
pub struct MouseState {
    pub x: i32,
    pub y: i32,
    pub left_pressed: bool,
    pub left_clicked: bool,
    pub left_released: bool,
    pub middle_pressed: bool,
    pub middle_clicked: bool,
    pub middle_released: bool,
    pub right_pressed: bool,
    pub right_clicked: bool,
    pub right_released: bool,
    pub wheel_delta: i64,
}

impl MouseState {
    /// Some button went down since the last tick.
    pub open spec fn any_clicked(self) -> bool {
        self.middle_clicked || self.left_clicked || self.right_clicked
    }

    /// Some button came up since the last tick.
    pub open spec fn any_released(self) -> bool {
        self.middle_released || self.left_released || self.right_released
    }

    /// The state after `button` went down: it is held down, and it counts
    /// as gone down since the last tick unless it was held down already.
    pub open spec fn after_down(self, button: Button) -> MouseState {
        match button {
            Button::Left => MouseState {
                left_pressed: true,
                left_clicked: self.left_clicked || !self.left_pressed,
                ..self
            },
            Button::Middle => MouseState {
                middle_pressed: true,
                middle_clicked: self.middle_clicked || !self.middle_pressed,
                ..self
            },
            Button::Right => MouseState {
                right_pressed: true,
                right_clicked: self.right_clicked || !self.right_pressed,
                ..self
            },
        }
    }

    /// The state after `button` came up: it is up, and it counts as come up
    /// since the last tick if it was held down.
    pub open spec fn after_up(self, button: Button) -> MouseState {
        match button {
            Button::Left => MouseState {
                left_pressed: false,
                left_released: self.left_released || self.left_pressed,
                ..self
            },
            Button::Middle => MouseState {
                middle_pressed: false,
                middle_released: self.middle_released || self.middle_pressed,
                ..self
            },
            Button::Right => MouseState {
                right_pressed: false,
                right_released: self.right_released || self.right_pressed,
                ..self
            },
        }
    }

    /// The state after the wheel was turned one notch, away from the user
    /// (`up`) or towards the user. The count of notches stops at the ends
    /// of its range.
    pub open spec fn after_wheel(self, up: bool) -> MouseState {
        MouseState {
            wheel_delta: if up {
                if self.wheel_delta < i64::MAX {
                    (self.wheel_delta + 1) as i64
                } else {
                    self.wheel_delta
                }
            } else {
                if self.wheel_delta > i64::MIN {
                    (self.wheel_delta - 1) as i64
                } else {
                    self.wheel_delta
                }
            },
            ..self
        }
    }

    /// The state at the start of the next tick: no button has gone down or
    /// come up yet, and the wheel has not been turned.
    pub open spec fn after_tick(self) -> MouseState {
        MouseState {
            left_clicked: false,
            left_released: false,
            middle_clicked: false,
            middle_released: false,
            right_clicked: false,
            right_released: false,
            wheel_delta: 0,
            ..self
        }
    }

    /// Notes that `button` went down.
    pub fn button_down(&mut self, button: Button)
        ensures
            *final(self) == old(self).after_down(button),
    {
        match button {
            Button::Left => {
                self.left_clicked = self.left_clicked || !self.left_pressed;
                self.left_pressed = true;
            },
            Button::Middle => {
                self.middle_clicked = self.middle_clicked || !self.middle_pressed;
                self.middle_pressed = true;
            },
            Button::Right => {
                self.right_clicked = self.right_clicked || !self.right_pressed;
                self.right_pressed = true;
            },
        }
    }

    /// Notes that `button` came up.
    pub fn button_up(&mut self, button: Button)
        ensures
            *final(self) == old(self).after_up(button),
    {
        match button {
            Button::Left => {
                self.left_released = self.left_released || self.left_pressed;
                self.left_pressed = false;
            },
            Button::Middle => {
                self.middle_released = self.middle_released || self.middle_pressed;
                self.middle_pressed = false;
            },
            Button::Right => {
                self.right_released = self.right_released || self.right_pressed;
                self.right_pressed = false;
            },
        }
    }

    /// Notes that the wheel was turned one notch.
    pub fn turn_wheel(&mut self, up: bool)
        ensures
            *final(self) == old(self).after_wheel(up),
    {
        if up {
            if self.wheel_delta < i64::MAX {
                self.wheel_delta = self.wheel_delta + 1;
            }
        } else {
            if self.wheel_delta > i64::MIN {
                self.wheel_delta = self.wheel_delta - 1;
            }
        }
    }

    /// Forgets what the buttons and the wheel did in the tick that is over.
    pub fn end_tick(&mut self)
        ensures
            *final(self) == old(self).after_tick(),
    {
        self.left_clicked = false;
        self.left_released = false;
        self.middle_clicked = false;
        self.middle_released = false;
        self.right_clicked = false;
        self.right_released = false;
        self.wheel_delta = 0;
    }

    /// A pointer at rest in the corner, no button down.
    pub fn new() -> (m: MouseState)
        ensures
            m == (MouseState {
                x: 0,
                y: 0,
                left_pressed: false,
                left_clicked: false,
                left_released: false,
                middle_pressed: false,
                middle_clicked: false,
                middle_released: false,
                right_pressed: false,
                right_clicked: false,
                right_released: false,
                wheel_delta: 0,
            }),
    {
        MouseState {
            x: 0,
            y: 0,
            left_pressed: false,
            left_clicked: false,
            left_released: false,
            middle_pressed: false,
            middle_clicked: false,
            middle_released: false,
            right_pressed: false,
            right_clicked: false,
            right_released: false,
            wheel_delta: 0,
        }
    }
}

} // verus!
