use tank_maze::input::{
    Controller, InputCenter, Key, KEY_CODE_E, KEY_CODE_M, KEY_CODE_Q, KEY_CODE_UP,
};
use tank_maze::prepare_scene::new;

#[test]
fn q_and_m_admit_the_two_keyboard_players() {
    let input = InputCenter::new();
    let (_render, mut updater) = new();
    assert!(!updater.is_ready());

    updater.handle_keyboard(&input, true, Some(KEY_CODE_Q));
    assert!(!updater.is_ready());
    updater.handle_keyboard(&input, true, Some(KEY_CODE_M));
    assert!(updater.is_ready());

    let players = updater.take_players();
    assert_eq!(players.len(), 2);
    match &players[0] {
        Controller::Keyboard(k) => assert_eq!(k.movement_keys[0], Key::LogicKey(KEY_CODE_E)),
        Controller::Gamepad(_) => panic!("Q admits a keyboard player"),
    }
    match &players[1] {
        Controller::Keyboard(k) => assert_eq!(k.movement_keys[0], Key::LogicKey(KEY_CODE_UP)),
        Controller::Gamepad(_) => panic!("M admits a keyboard player"),
    }
    assert!(!updater.is_ready());
}

#[test]
fn other_keys_and_releases_admit_nobody() {
    let input = InputCenter::new();
    let (_render, mut updater) = new();
    updater.handle_keyboard(&input, true, Some(KEY_CODE_E));
    updater.handle_keyboard(&input, true, None);
    updater.handle_keyboard(&input, false, Some(KEY_CODE_Q));
    updater.handle_keyboard(&input, false, Some(KEY_CODE_M));
    assert_eq!(updater.take_players().len(), 0);
}

#[test]
fn south_button_admits_and_registers_a_gamepad() {
    let mut input = InputCenter::new();
    let (_render, mut updater) = new();
    updater.handle_gamepad_button(&mut input, 11, false);
    assert!(!updater.is_ready());
    updater.handle_gamepad_button(&mut input, 11, true);
    let players = updater.take_players();
    assert_eq!(players.len(), 1);
    match &players[0] {
        Controller::Gamepad(g) => assert_eq!(g.id, 11),
        Controller::Keyboard(_) => panic!("the south button admits a gamepad player"),
    }
    // The device was registered: its polls now reach the controller.
    assert!(input.gamepad.controllers.contains_key(&11));
}
