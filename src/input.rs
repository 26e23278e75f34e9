use vstd::prelude::*;

verus! {

/// Logical device identifier: 0 is the keyboard, `n >= 1` is physical slot `n - 1`.
pub type JoystickId = u32;

/// Largest magnitude a raw analog axis reading may have.
pub const AXIS_MAX: i32 = 32768;

/// State of a digital button.
#[derive(Clone, Copy, Debug, PartialEq, Eq, Structural)]
pub enum Button {
    Normal,
    BeingHeld,
}

/// Direction currently pressed on the directional pad.
#[derive(Clone, Copy, Debug, PartialEq, Eq, Structural)]
pub enum Dpad {
    Up,
    Bottom,
    Left,
    Right,
}

/// A two-component analog stick reading, each component a raw value in
/// `[-AXIS_MAX, AXIS_MAX]`; the normalized value is `component / AXIS_MAX`.
#[derive(Clone, Copy, Debug, PartialEq, Eq, Structural)]
pub struct Axis2 {
    pub x: i32,
    pub y: i32,
}

/// Snapshot of one logical input device.
#[derive(Clone, Copy, Debug, PartialEq, Eq, Structural)]
pub struct Joystick {
    pub a: Button,
    pub b: Button,
    pub x: Button,
    pub y: Button,
    pub d_pad: Option<Dpad>,
    pub left_axis: Axis2,
    pub right_axis: Axis2,
}

/// Keys the keyboard-emulated joystick reacts to.
#[derive(Clone, Copy, Debug, PartialEq, Eq, Structural)]
pub enum Key {
    A,
    S,
    D,
    W,
    J,
    K,
    Escape,
    Other,
}

/// Raw state of a physical gamepad as read from the platform.
#[derive(Clone, Copy, Debug, PartialEq, Eq, Structural)]
pub struct GamepadState {
    pub a: bool,
    pub b: bool,
    pub x: bool,
    pub y: bool,
    pub left_x: i32,
    pub left_y: i32,
    pub right_x: i32,
    pub right_y: i32,
}

pub open spec fn axis_in_range(v: i32) -> bool {
    -AXIS_MAX <= v <= AXIS_MAX
}

impl Axis2 {
    pub open spec fn wf(self) -> bool {
        axis_in_range(self.x) && axis_in_range(self.y)
    }
}

impl Joystick {
    /// Axis values are always within range.
    pub open spec fn wf(self) -> bool {
        self.left_axis.wf() && self.right_axis.wf()
    }

    pub open spec fn is_rest(self) -> bool {
        &&& self.a == Button::Normal
        &&& self.b == Button::Normal
        &&& self.x == Button::Normal
        &&& self.y == Button::Normal
        &&& self.d_pad.is_none()
        &&& self.left_axis == Axis2 { x: 0, y: 0 }
        &&& self.right_axis == Axis2 { x: 0, y: 0 }
    }
}

/// The d-pad direction a key stands for on the keyboard joystick.
pub open spec fn key_direction(k: Key) -> Option<Dpad> {
    match k {
        Key::A => Some(Dpad::Left),
        Key::S => Some(Dpad::Bottom),
        Key::D => Some(Dpad::Right),
        Key::W => Some(Dpad::Up),
        _ => None,
    }
}

/// The keyboard joystick after `k` is pressed.
pub open spec fn after_key_down(j: Joystick, k: Key) -> Joystick {
    match k {
        Key::J => Joystick { a: Button::BeingHeld, ..j },
        Key::K => Joystick { b: Button::BeingHeld, ..j },
        _ => match key_direction(k) {
            Some(d) => Joystick { d_pad: Some(d), ..j },
            None => j,
        },
    }
}

/// The keyboard joystick after `k` is released. A direction key clears the
/// d-pad only while the d-pad still shows that key's direction.
pub open spec fn after_key_up(j: Joystick, k: Key) -> Joystick {
    match k {
        Key::J => Joystick { a: Button::Normal, ..j },
        Key::K => Joystick { b: Button::Normal, ..j },
        _ => match key_direction(k) {
            Some(d) => if j.d_pad == Some(d) {
                Joystick { d_pad: None, ..j }
            } else {
                j
            },
            None => j,
        },
    }
}

pub open spec fn clamp_axis(raw: int) -> int {
    if raw > AXIS_MAX {
        AXIS_MAX as int
    } else if raw < -AXIS_MAX {
        -AXIS_MAX
    } else {
        raw
    }
}

pub open spec fn button_of(pressed: bool) -> Button {
    if pressed {
        Button::BeingHeld
    } else {
        Button::Normal
    }
}

/// The joystick snapshot a physical gamepad maps to.
pub open spec fn gamepad_joystick(g: GamepadState) -> Joystick {
    Joystick {
        a: button_of(g.a),
        b: button_of(g.b),
        x: button_of(g.x),
        y: button_of(g.y),
        d_pad: None,
        left_axis: Axis2 { x: clamp_axis(g.left_x as int) as i32, y: clamp_axis(g.left_y as int) as i32 },
        right_axis: Axis2 {
            x: clamp_axis(g.right_x as int) as i32,
            y: clamp_axis(g.right_y as int) as i32,
        },
    }
}

impl Button {
    /// `BeingHeld` for a pressed button, `Normal` otherwise.
    pub fn from_pressed(pressed: bool) -> (r: Button)
        ensures
            r == button_of(pressed),
    {
        if pressed {
            Button::BeingHeld
        } else {
            Button::Normal
        }
    }
}

/// Clamps a raw axis reading into `[-AXIS_MAX, AXIS_MAX]`, so that calibration
/// noise beyond the device's nominal range still yields a normalized value in `[-1, 1]`.
pub fn normalize_axis(raw: i32) -> (r: i32)
    ensures
        r as int == clamp_axis(raw as int),
        axis_in_range(r),
{
    if raw > AXIS_MAX {
        AXIS_MAX
    } else if raw < -AXIS_MAX {
        -AXIS_MAX
    } else {
        raw
    }
}

impl Default for Joystick {
    fn default() -> (r: Joystick)
        ensures
            r.is_rest(),
            r.wf(),
    {
        Joystick {
            a: Button::Normal,
            b: Button::Normal,
            x: Button::Normal,
            y: Button::Normal,
            d_pad: None,
            left_axis: Axis2 { x: 0, y: 0 },
            right_axis: Axis2 { x: 0, y: 0 },
        }
    }
}

impl Joystick {
    /// Maps a physical gamepad's raw state: buttons one to one, axes clamped.
    pub fn from_gamepad(g: &GamepadState) -> (r: Joystick)
        ensures
            r == gamepad_joystick(*g),
            r.wf(),
    {
        Joystick {
            a: Button::from_pressed(g.a),
            b: Button::from_pressed(g.b),
            x: Button::from_pressed(g.x),
            y: Button::from_pressed(g.y),
            d_pad: None,
            left_axis: Axis2 { x: normalize_axis(g.left_x), y: normalize_axis(g.left_y) },
            right_axis: Axis2 { x: normalize_axis(g.right_x), y: normalize_axis(g.right_y) },
        }
    }

    /// Folds a key press into the keyboard joystick.
    pub fn key_down(&mut self, k: Key)
        ensures
            *final(self) == after_key_down(*old(self), k),
            old(self).wf() ==> final(self).wf(),
    {
        match k {
            Key::J => {
                self.a = Button::BeingHeld;
            },
            Key::K => {
                self.b = Button::BeingHeld;
            },
            Key::A => {
                self.d_pad = Some(Dpad::Left);
            },
            Key::S => {
                self.d_pad = Some(Dpad::Bottom);
            },
            Key::D => {
                self.d_pad = Some(Dpad::Right);
            },
            Key::W => {
                self.d_pad = Some(Dpad::Up);
            },
            _ => {},
        }
    }

    /// Clears the d-pad if it currently shows `d`.
    fn release_direction(&mut self, d: Dpad)
        ensures
            *final(self) == (if old(self).d_pad == Some(d) {
                Joystick { d_pad: None, ..*old(self) }
            } else {
                *old(self)
            }),
    {
        if self.d_pad == Some(d) {
            self.d_pad = None;
        }
    }

    /// Folds a key release into the keyboard joystick.
    pub fn key_up(&mut self, k: Key)
        ensures
            *final(self) == after_key_up(*old(self), k),
            old(self).wf() ==> final(self).wf(),
    {
        match k {
            Key::J => {
                self.a = Button::Normal;
            },
            Key::K => {
                self.b = Button::Normal;
            },
            Key::A => self.release_direction(Dpad::Left),
            Key::S => self.release_direction(Dpad::Bottom),
            Key::D => self.release_direction(Dpad::Right),
            Key::W => self.release_direction(Dpad::Up),
            _ => {},
        }
    }
}

/// A direction key released after another direction key was pressed does not
/// clear the d-pad: it keeps the later key's direction.
pub proof fn lemma_stale_release_keeps_direction(j: Joystick, first: Key, second: Key)
    requires
        key_direction(first).is_some(),
        key_direction(second).is_some(),
        key_direction(first) != key_direction(second),
    ensures
        after_key_up(after_key_down(after_key_down(j, first), second), first).d_pad
            == key_direction(second),
{
}

/// Pressing J holds button `a`, releasing J lets it go, and releasing any other
/// key leaves `a` as it was.
pub proof fn lemma_action_key_a(j: Joystick, other: Key)
    requires
        other != Key::J,
    ensures
        after_key_down(j, Key::J).a == Button::BeingHeld,
        after_key_up(after_key_down(j, Key::J), Key::J).a == Button::Normal,
        after_key_up(j, Key::J).a == Button::Normal,
        after_key_up(j, other).a == j.a,
{
}

} // verus!
