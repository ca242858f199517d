use tank_maze::input::{InputCenter, InputEvent, KEY_CODE_E, KEY_CODE_S};
use tank_maze::main_menu::{gen_gear_vertexes, GearVertex, StartButton};
use tank_maze::world::{PhysicalStatus, TankInstance};

fn press(code: u32) -> InputEvent {
    InputEvent::KeyboardKey { scancode: code, virtual_keycode: Some(code), pressed: true }
}

#[test]
fn tick_translates_signals_into_commands() {
    let mut input = InputCenter::new();
    let mut world = PhysicalStatus::new();
    world.add_player(input.create_controller_red());
    input.update(&press(KEY_CODE_E));
    input.update(&press(KEY_CODE_S));

    let commands = world.update_tick(&input);
    assert_eq!(world.seq_number, 1);
    assert_eq!(commands.len(), 1);
    // Full forward: acceleration 1000 scaled by the thrust constant 30.
    assert_eq!(commands[0].force_forward, 30_000);
    // Turning left (rotation -1000) negated and scaled by 40.
    assert_eq!(commands[0].torque, 40_000);
}

#[test]
fn snapshots_follow_tank_order_and_written_states() {
    let mut input = InputCenter::new();
    let mut world = PhysicalStatus::new();
    world.add_player(input.create_controller_red());
    world.add_player(input.create_controller_green());

    let moved = TankInstance {
        pos_x: 1500,
        pos_y: -250,
        vel_x: 10,
        vel_y: 0,
        rotation: 3141,
        rotation_v: -5,
    };
    world.set_tank_state(1, moved);
    let snapshot = world.snapshot();
    assert_eq!(snapshot.len(), 2);
    assert_eq!(snapshot[0].pos_x, 0);
    assert_eq!(snapshot[1], moved);
}

#[test]
fn ticks_count_up_one_by_one() {
    let input = InputCenter::new();
    let mut world = PhysicalStatus::new();
    for expected in 1..=5u32 {
        world.update_tick(&input);
        assert_eq!(world.seq_number, expected);
    }
}

#[test]
fn gear_pattern_has_three_vertices_per_drawn_tooth() {
    let gear = gen_gear_vertexes(12, 100, 120, 200);
    assert_eq!(gear.len(), 33);
    assert_eq!(gen_gear_vertexes(1, 100, 120, 200).len(), 0);
}

#[test]
fn first_gear_tooth_matches_the_formula() {
    let gear = gen_gear_vertexes(12, 100, 120, 200);
    assert_eq!(
        gear[0],
        GearVertex { whole_radians: 0, central_thousandths: -200, radius_thousandths: 100 }
    );
    assert_eq!(
        gear[1],
        GearVertex { whole_radians: 0, central_thousandths: 500, radius_thousandths: 120 }
    );
    assert_eq!(
        gear[2],
        GearVertex { whole_radians: 1, central_thousandths: 200, radius_thousandths: 100 }
    );
    // Second tooth: the tip angle advances by one whole central angle.
    assert_eq!(
        gear[4],
        GearVertex { whole_radians: 0, central_thousandths: 1500, radius_thousandths: 120 }
    );
}

#[test]
fn start_button_holds_the_12_tooth_gear() {
    let button = StartButton::new();
    assert_eq!(button.vertexes.len(), 33);
    assert_eq!(button.vertexes, gen_gear_vertexes(12, 100, 120, 200));
}
