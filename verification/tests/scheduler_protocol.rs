use tank_maze::input::InputCenter;
use tank_maze::scheduler::{
    next_tick_delay, Scheduler, SchedulerAction, SchedulerEvent, SchedulerPhase, PHYSICAL_DT_NANOS,
};

#[test]
fn admission_then_tick_publishes_one_tank_at_spawn() {
    let mut input = InputCenter::new();
    let mut scheduler = Scheduler::new();
    let red = input.create_controller_red();

    let action = scheduler.handle_event(&input, SchedulerEvent::PlayerAdmission(red));
    assert!(matches!(action, SchedulerAction::CreateTankBody));
    assert_eq!(scheduler.physical.seq_number, 0);

    let action = scheduler.handle_event(&input, SchedulerEvent::TickTimer);
    match action {
        SchedulerAction::StepPhysics(commands) => assert_eq!(commands.len(), 1),
        _ => panic!("tick must step the physics"),
    }

    let action = scheduler.handle_event(&input, SchedulerEvent::PublishReady);
    match action {
        SchedulerAction::Publish(snapshot) => {
            assert_eq!(snapshot.tanks.len(), 1);
            assert_eq!(snapshot.seq_number, 1);
            let tank = snapshot.tanks[0];
            assert_eq!(tank.pos_x, 0);
            assert_eq!(tank.pos_y, 0);
            assert_eq!(tank.rotation, 0);
            assert_eq!(tank.vel_x, 0);
            assert_eq!(tank.vel_y, 0);
            assert_eq!(tank.rotation_v, 0);
        }
        _ => panic!("first publish-ready after a tick must publish"),
    }
}

#[test]
fn at_most_one_publish_per_tick() {
    let input = InputCenter::new();
    let mut scheduler = Scheduler::new();
    scheduler.handle_event(&input, SchedulerEvent::TickTimer);

    assert!(matches!(
        scheduler.handle_event(&input, SchedulerEvent::PublishReady),
        SchedulerAction::Publish(_)
    ));
    assert!(matches!(
        scheduler.handle_event(&input, SchedulerEvent::PublishReady),
        SchedulerAction::Idle
    ));
    assert!(matches!(
        scheduler.handle_event(&input, SchedulerEvent::PublishReady),
        SchedulerAction::Idle
    ));

    scheduler.handle_event(&input, SchedulerEvent::TickTimer);
    assert!(matches!(
        scheduler.handle_event(&input, SchedulerEvent::PublishReady),
        SchedulerAction::Publish(_)
    ));
}

#[test]
fn observed_sequence_numbers_strictly_increase() {
    let input = InputCenter::new();
    let mut scheduler = Scheduler::new();
    let mut observed = Vec::new();
    for _ in 0..5 {
        scheduler.handle_event(&input, SchedulerEvent::TickTimer);
        // The consumer happens to be ready only on some ticks; readiness can
        // also fire twice within one tick.
        if let SchedulerAction::Publish(snapshot) =
            scheduler.handle_event(&input, SchedulerEvent::PublishReady)
        {
            observed.push(snapshot.seq_number);
        }
        if let SchedulerAction::Publish(snapshot) =
            scheduler.handle_event(&input, SchedulerEvent::PublishReady)
        {
            observed.push(snapshot.seq_number);
        }
    }
    assert_eq!(observed.len(), 5);
    for pair in observed.windows(2) {
        assert!(pair[0] < pair[1]);
    }
}

#[test]
fn stop_signal_is_terminal() {
    let input = InputCenter::new();
    let mut scheduler = Scheduler::new();
    let action = scheduler.handle_event(&input, SchedulerEvent::StopSignal);
    assert!(matches!(action, SchedulerAction::Terminate));
    assert_eq!(scheduler.phase, SchedulerPhase::Stopped);
}

#[test]
fn channel_disconnect_terminates_like_stop() {
    let input = InputCenter::new();
    let mut scheduler = Scheduler::new();
    let action = scheduler.handle_event(&input, SchedulerEvent::ChannelDisconnected);
    assert!(matches!(action, SchedulerAction::Terminate));
    assert_eq!(scheduler.phase, SchedulerPhase::Stopped);
}

#[test]
fn admission_never_advances_time() {
    let mut input = InputCenter::new();
    let mut scheduler = Scheduler::new();
    for _ in 0..3 {
        let ctrl = input.create_controller_green();
        scheduler.handle_event(&input, SchedulerEvent::PlayerAdmission(ctrl));
    }
    assert_eq!(scheduler.physical.seq_number, 0);
    assert_eq!(scheduler.physical.tanks.len(), 3);
}

#[test]
fn tick_pacing_counts_from_scene_start() {
    assert_eq!(next_tick_delay(1, 0), Some(PHYSICAL_DT_NANOS));
    assert_eq!(next_tick_delay(2, PHYSICAL_DT_NANOS), Some(PHYSICAL_DT_NANOS));
    assert_eq!(next_tick_delay(1, PHYSICAL_DT_NANOS), None);
    assert_eq!(next_tick_delay(3, 2 * PHYSICAL_DT_NANOS + 5), Some(PHYSICAL_DT_NANOS - 5));
    assert_eq!(next_tick_delay(0, 0), None);
}
