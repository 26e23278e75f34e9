use ggez_backend::devices::{available_joysticks, gamepad_slot, joystick_for, GAMEPAD_SLOTS};
use ggez_backend::input::{Button, GamepadState, Joystick, Key};

fn pad() -> GamepadState {
    GamepadState { a: false, b: true, x: false, y: false, left_x: 0, left_y: 0, right_x: -32768, right_y: 0 }
}

#[test]
fn no_devices_gives_keyboard_only() {
    let present = vec![false; GAMEPAD_SLOTS as usize];
    assert_eq!(available_joysticks(&present), vec![0]);
    assert_eq!(available_joysticks(&Vec::new()), vec![0]);
}

#[test]
fn devices_follow_keyboard_in_slot_order() {
    assert_eq!(available_joysticks(&vec![true, false, true, true]), vec![0, 1, 3, 4]);
    assert_eq!(available_joysticks(&vec![false, true]), vec![0, 2]);
    assert_eq!(available_joysticks(&vec![true, true, true, true]), vec![0, 1, 2, 3, 4]);
}

#[test]
fn slot_is_id_minus_one() {
    assert_eq!(gamepad_slot(0), None);
    assert_eq!(gamepad_slot(1), Some(0));
    assert_eq!(gamepad_slot(4), Some(3));
}

#[test]
fn keyboard_id_returns_keyboard_snapshot() {
    let mut kb = Joystick::default();
    kb.key_down(Key::J);
    assert_eq!(joystick_for(0, &kb, Some(pad())), Some(kb));
}

#[test]
fn missing_gamepad_is_absent() {
    let kb = Joystick::default();
    assert_eq!(joystick_for(1, &kb, None), None);
}

#[test]
fn present_gamepad_is_mapped() {
    let kb = Joystick::default();
    let j = joystick_for(2, &kb, Some(pad())).unwrap();
    assert_eq!(j, Joystick::from_gamepad(&pad()));
    assert_eq!(j.b, Button::BeingHeld);
    assert_eq!(j.right_axis.x, -32768);
}
