use ggez_backend::input::{normalize_axis, Axis2, Button, Dpad, GamepadState, Joystick, Key, AXIS_MAX};

fn unit(raw: i32) -> f32 {
    normalize_axis(raw) as f32 / AXIS_MAX as f32
}

#[test]
fn release_of_earlier_direction_keeps_later_one() {
    let mut j = Joystick::default();
    j.key_down(Key::A);
    assert_eq!(j.d_pad, Some(Dpad::Left));
    j.key_down(Key::D);
    assert_eq!(j.d_pad, Some(Dpad::Right));
    j.key_up(Key::A);
    assert_eq!(j.d_pad, Some(Dpad::Right));
    j.key_up(Key::D);
    assert_eq!(j.d_pad, None);
}

#[test]
fn each_direction_key_sets_its_direction() {
    let cases = [(Key::A, Dpad::Left), (Key::S, Dpad::Bottom), (Key::D, Dpad::Right), (Key::W, Dpad::Up)];
    for (k, d) in cases {
        let mut j = Joystick::default();
        j.key_down(k);
        assert_eq!(j.d_pad, Some(d));
        j.key_up(k);
        assert_eq!(j.d_pad, None);
    }
}

#[test]
fn action_key_j_holds_and_releases_a() {
    let mut j = Joystick::default();
    j.key_down(Key::J);
    assert_eq!(j.a, Button::BeingHeld);
    j.key_up(Key::K);
    assert_eq!(j.a, Button::BeingHeld);
    j.key_up(Key::W);
    assert_eq!(j.a, Button::BeingHeld);
    j.key_up(Key::J);
    assert_eq!(j.a, Button::Normal);
}

#[test]
fn action_key_k_holds_and_releases_b() {
    let mut j = Joystick::default();
    j.key_down(Key::K);
    assert_eq!(j.b, Button::BeingHeld);
    assert_eq!(j.a, Button::Normal);
    j.key_up(Key::K);
    assert_eq!(j.b, Button::Normal);
}

#[test]
fn other_keys_change_nothing() {
    let mut j = Joystick::default();
    j.key_down(Key::A);
    let before = j;
    j.key_down(Key::Other);
    j.key_up(Key::Other);
    j.key_down(Key::Escape);
    assert_eq!(j, before);
}

#[test]
fn axis_normalization_extremes() {
    assert_eq!(unit(32768), 1.0);
    assert_eq!(unit(-32768), -1.0);
    assert_eq!(unit(0), 0.0);
    assert_eq!(unit(16384), 0.5);
}

#[test]
fn axis_beyond_range_is_clamped() {
    assert_eq!(normalize_axis(40000), 32768);
    assert_eq!(normalize_axis(-40000), -32768);
    assert_eq!(normalize_axis(i32::MAX), 32768);
    assert_eq!(normalize_axis(i32::MIN), -32768);
    assert_eq!(normalize_axis(-123), -123);
}

#[test]
fn button_from_pressed() {
    assert_eq!(Button::from_pressed(true), Button::BeingHeld);
    assert_eq!(Button::from_pressed(false), Button::Normal);
}

#[test]
fn gamepad_maps_buttons_and_clamps_axes() {
    let g = GamepadState {
        a: true,
        b: false,
        x: false,
        y: true,
        left_x: 32768,
        left_y: -50000,
        right_x: 0,
        right_y: 100,
    };
    let j = Joystick::from_gamepad(&g);
    assert_eq!(j.a, Button::BeingHeld);
    assert_eq!(j.b, Button::Normal);
    assert_eq!(j.x, Button::Normal);
    assert_eq!(j.y, Button::BeingHeld);
    assert_eq!(j.d_pad, None);
    assert_eq!(j.left_axis, Axis2 { x: 32768, y: -32768 });
    assert_eq!(j.right_axis, Axis2 { x: 0, y: 100 });
}

#[test]
fn default_joystick_is_at_rest() {
    let j = Joystick::default();
    assert_eq!(j.a, Button::Normal);
    assert_eq!(j.b, Button::Normal);
    assert_eq!(j.x, Button::Normal);
    assert_eq!(j.y, Button::Normal);
    assert_eq!(j.d_pad, None);
    assert_eq!(j.left_axis, Axis2 { x: 0, y: 0 });
    assert_eq!(j.right_axis, Axis2 { x: 0, y: 0 });
}
