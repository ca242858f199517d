use tank_maze::render::{BufferPlan, RenderConsumer};
use tank_maze::scheduler::PHYSICAL_DT_NANOS;

#[test]
fn forecast_is_clamped_to_one_timestep_after_a_second() {
    let consumer = RenderConsumer::new(0);
    let forecast = consumer.forecast_nanos(1_000_000_000);
    assert_eq!(forecast, PHYSICAL_DT_NANOS);
}

#[test]
fn forecast_is_99_percent_of_a_short_elapsed_time() {
    let consumer = RenderConsumer::new(5_000);
    assert_eq!(consumer.forecast_nanos(6_000), 990);
    assert_eq!(consumer.forecast_nanos(5_000), 0);
}

#[test]
fn forecast_just_below_the_ceiling_is_not_clamped() {
    let consumer = RenderConsumer::new(0);
    // 11_223_344 * 99 / 100 = 11_111_110, one shy of the timestep.
    assert_eq!(consumer.forecast_nanos(11_223_344), PHYSICAL_DT_NANOS - 1);
    assert_eq!(consumer.forecast_nanos(11_223_356), PHYSICAL_DT_NANOS);
}

#[test]
fn snapshot_intake_reallocates_only_on_growth() {
    let mut consumer = RenderConsumer::new(0);
    assert_eq!(consumer.on_snapshot(10, 2), BufferPlan::Reallocate);
    assert_eq!(consumer.instance_capacity, 2);
    assert_eq!(consumer.last_update_nanos, 10);
    assert_eq!(consumer.on_snapshot(20, 1), BufferPlan::WriteInPlace);
    assert_eq!(consumer.instance_capacity, 2);
    assert_eq!(consumer.on_snapshot(30, 2), BufferPlan::WriteInPlace);
    assert_eq!(consumer.on_snapshot(40, 3), BufferPlan::Reallocate);
    assert_eq!(consumer.instance_capacity, 3);
    assert_eq!(consumer.last_update_nanos, 40);
}

#[test]
fn maze_data_sets_dimensions_once() {
    let mut consumer = RenderConsumer::new(0);
    assert_eq!(consumer.maze_width, 1);
    assert_eq!(consumer.maze_height, 1);
    consumer.on_maze_data(7, 5, 456);
    assert_eq!(consumer.maze_width, 7);
    assert_eq!(consumer.maze_height, 5);
    assert_eq!(consumer.maze_index_count, 456);
}

#[test]
fn snapshot_arrival_resets_the_forecast_base() {
    let mut consumer = RenderConsumer::new(0);
    consumer.on_snapshot(2_000_000_000, 1);
    assert_eq!(consumer.forecast_nanos(2_000_001_000), 990);
}
