use tank_maze::input::{
    Controller, GamepadStatus, InputCenter, InputEvent, Key, KEY_CODE_D, KEY_CODE_E, KEY_CODE_F,
    KEY_CODE_S,
};

fn key_event(code: u32, pressed: bool) -> InputEvent {
    InputEvent::KeyboardKey { scancode: code, virtual_keycode: Some(code), pressed }
}

fn neutral_pad() -> GamepadStatus {
    GamepadStatus {
        right_stick_x: 0,
        left_stick_x: 0,
        dpad_x: 0,
        right_stick_y: 0,
        left_stick_y: 0,
        dpad_y: 0,
    }
}

#[test]
fn keyboard_controller_reads_bound_keys() {
    let mut input = InputCenter::new();
    let red = input.create_controller_red();
    input.update(&key_event(KEY_CODE_E, true));
    let sig = red.movement_status(&input);
    assert_eq!(sig.acceleration, 1000);
    assert_eq!(sig.rotation, 0);
}

#[test]
fn opposite_keyboard_presses_cancel_to_zero() {
    let mut input = InputCenter::new();
    let red = input.create_controller_red();
    input.update(&key_event(KEY_CODE_S, true));
    input.update(&key_event(KEY_CODE_F, true));
    let sig = red.movement_status(&input);
    assert_eq!(sig.rotation, 0);
    input.update(&key_event(KEY_CODE_S, false));
    let sig = red.movement_status(&input);
    assert_eq!(sig.rotation, 1000);
}

#[test]
fn reverse_is_weaker_than_forward() {
    let mut input = InputCenter::new();
    let red = input.create_controller_red();
    input.update(&key_event(KEY_CODE_D, true));
    assert_eq!(red.movement_status(&input).acceleration, -600);
    input.update(&key_event(KEY_CODE_E, true));
    assert_eq!(red.movement_status(&input).acceleration, 400);
}

#[test]
fn released_key_reverts_to_neutral() {
    let mut input = InputCenter::new();
    let red = input.create_controller_red();
    input.update(&key_event(KEY_CODE_E, true));
    input.update(&key_event(KEY_CODE_E, false));
    assert_eq!(red.movement_status(&input).acceleration, 0);
}

#[test]
fn physical_and_logical_keys_are_distinct() {
    // A scan code numerically equal to a bound logical code must not drive
    // the controller.
    let mut input = InputCenter::new();
    let red = input.create_controller_red();
    input.update(&InputEvent::KeyboardKey {
        scancode: KEY_CODE_E,
        virtual_keycode: None,
        pressed: true,
    });
    assert_eq!(red.movement_status(&input).acceleration, 0);
    assert_ne!(
        Key::LogicKey(KEY_CODE_E).id(),
        Key::PhysicKey(KEY_CODE_E).id()
    );
}

#[test]
fn stick_and_dpad_in_same_direction_clamp_instead_of_summing() {
    let mut input = InputCenter::new();
    let pad = input.create_gamepad_controller(3);
    let status = GamepadStatus { right_stick_x: 800, dpad_x: 1000, ..neutral_pad() };
    input.update(&InputEvent::GamepadAxes { id: 3, status });
    let sig = pad.movement_status(&input);
    assert_eq!(sig.rotation, 1000);
    assert!(sig.rotation <= 1000);
}

#[test]
fn opposing_gamepad_sources_partially_cancel() {
    let mut input = InputCenter::new();
    let pad = input.create_gamepad_controller(3);
    let status = GamepadStatus { right_stick_x: -700, dpad_x: 1000, ..neutral_pad() };
    input.update(&InputEvent::GamepadAxes { id: 3, status });
    assert_eq!(pad.movement_status(&input).rotation, 300);
}

#[test]
fn gamepad_reverse_is_capped() {
    let mut input = InputCenter::new();
    let pad = input.create_gamepad_controller(3);
    let status = GamepadStatus { right_stick_y: -1000, left_stick_y: -1000, ..neutral_pad() };
    input.update(&InputEvent::GamepadAxes { id: 3, status });
    assert_eq!(pad.movement_status(&input).acceleration, -600);
}

#[test]
fn unregistered_gamepad_events_are_ignored() {
    let mut input = InputCenter::new();
    let pad = input.create_gamepad_controller(3);
    let status = GamepadStatus { right_stick_x: 1000, ..neutral_pad() };
    input.update(&InputEvent::GamepadAxes { id: 9, status });
    assert_eq!(pad.movement_status(&input).rotation, 0);
}

#[test]
fn every_reachable_signal_stays_within_unit_bounds() {
    let mut input = InputCenter::new();
    let pad = input.create_gamepad_controller(1);
    let extremes = [-1000, -600, 0, 600, 1000];
    for &a in &extremes {
        for &b in &extremes {
            for &c in &extremes {
                let status = GamepadStatus {
                    right_stick_x: a,
                    left_stick_x: b,
                    dpad_x: c,
                    right_stick_y: c,
                    left_stick_y: a,
                    dpad_y: b,
                };
                input.update(&InputEvent::GamepadAxes { id: 1, status });
                let sig = pad.movement_status(&input);
                assert!(sig.rotation >= -1000 && sig.rotation <= 1000);
                assert!(sig.acceleration >= -1000 && sig.acceleration <= 1000);
            }
        }
    }
    let red = input.create_controller_red();
    for mask in 0..16u32 {
        let mut input = InputCenter::new();
        for (bit, code) in [KEY_CODE_E, KEY_CODE_D, KEY_CODE_S, KEY_CODE_F].iter().enumerate() {
            input.update(&key_event(*code, mask & (1 << bit) != 0));
        }
        let sig = match &red {
            Controller::Keyboard(k) => k.movement_status(&input.keyboard),
            Controller::Gamepad(_) => unreachable!(),
        };
        assert!(sig.rotation >= -1000 && sig.rotation <= 1000);
        assert!(sig.acceleration >= -1000 && sig.acceleration <= 1000);
    }
}
