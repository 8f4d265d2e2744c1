use std::collections::VecDeque;

use roadsim2d::car_controller::CarController;
use roadsim2d::car_hl_controller::{CarHighLevelControllerState, CarPathControllerState, TARGET_LIMIT};
use roadsim2d::geometry::{gridmap_xy_to_world, WorldPoint};
use roadsim2d::grid_map::TownGridMap;
use roadsim2d::random::RandomSource;
use roadsim2d::town::make_square_town_gridmap;

fn heading_toward(dx: i64, dy: i64) -> i64 {
    ((dy as f64).atan2(dx as f64) * 1.0e6).round() as i64
}

#[test]
fn new_states_are_idle() {
    let hl = CarHighLevelControllerState::new();
    assert_eq!((hl.target_yaw, hl.target_long_speed), (0, 0));
    let st = CarPathControllerState::new();
    assert_eq!(st.destination_point, WorldPoint::origin());
    assert!(st.path.is_empty());
}

#[test]
fn replans_when_close_to_destination() {
    let grid = make_square_town_gridmap();
    let car = WorldPoint::new(1_500, 1_500);
    let mut st = CarPathControllerState::new();
    // Destination 4 units away on both axes: 32 squared units, not yet close.
    st.destination_point = WorldPoint::new(5_500, 5_500);
    assert!(!st.needs_replan(car));
    // 3 units away on both axes: 18 squared units, under the threshold.
    st.destination_point = WorldPoint::new(4_500, 4_500);
    assert!(st.needs_replan(car));
    let mut hl = CarHighLevelControllerState::new();
    hl.target_long_speed = 2_000;
    st.update_toward(&mut hl, &grid, car, WorldPoint::new(9_000, 1_000), heading_toward);
    // The new destination is the block cell nearest to the candidate.
    assert_eq!(st.destination_point, WorldPoint::new(9_500, 1_500));
    assert_eq!(hl.target_long_speed, 2_000);
    // The car's own cell was reached at once and left the path.
    assert_eq!(st.path.len(), 8);
    assert_eq!(st.path.back(), Some(&WorldPoint::new(9_500, 1_500)));
    assert_eq!(hl.target_yaw, 0);
}

#[test]
fn replans_when_without_destination() {
    let grid = make_square_town_gridmap();
    let car = WorldPoint::new(500, 500);
    let mut st = CarPathControllerState::new();
    assert!(st.needs_replan(car));
    let mut hl = CarHighLevelControllerState::new();
    st.update_toward(&mut hl, &grid, car, WorldPoint::new(50_000, 500), heading_toward);
    assert_eq!(st.destination_point, WorldPoint::new(9_500, 500));
    assert_eq!(st.path.len(), 9);
}

#[test]
fn keeps_destination_when_far() {
    let grid = make_square_town_gridmap();
    let car = WorldPoint::new(500, 500);
    let mut st = CarPathControllerState::new();
    st.destination_point = WorldPoint::new(9_500, 9_500);
    st.path = VecDeque::from(vec![WorldPoint::new(6_500, 500), WorldPoint::new(9_500, 9_500)]);
    let mut hl = CarHighLevelControllerState::new();
    st.update_toward(&mut hl, &grid, car, WorldPoint::new(-50_000, 0), heading_toward);
    assert_eq!(st.destination_point, WorldPoint::new(9_500, 9_500));
    // The first waypoint is 6 units away: aimed at, not yet reached.
    assert_eq!(st.path.len(), 2);
    assert_eq!(hl.target_yaw, 0);
}

#[test]
fn waypoint_reached_is_dropped_after_aiming_at_it() {
    let mut st = CarPathControllerState::new();
    st.destination_point = WorldPoint::new(9_500, 9_500);
    st.path = VecDeque::from(vec![WorldPoint::new(500, 4_500), WorldPoint::new(9_500, 9_500)]);
    let mut hl = CarHighLevelControllerState::new();
    st.follow_path(&mut hl, WorldPoint::new(500, 500), heading_toward);
    assert_eq!(hl.target_yaw, 1_570_796);
    assert_eq!(st.path.len(), 1);
    let mut empty = CarPathControllerState::new();
    hl.target_yaw = 5;
    empty.follow_path(&mut hl, WorldPoint::new(500, 500), heading_toward);
    assert_eq!(hl.target_yaw, 0);
}

#[test]
fn unreachable_destination_stops_the_car() {
    let mut grid = TownGridMap::new();
    grid.add_cell((500, 500));
    grid.add_cell((520, 500));
    let mut st = CarPathControllerState::new();
    let mut hl = CarHighLevelControllerState::new();
    hl.target_long_speed = 2_000;
    st.path = VecDeque::from(vec![WorldPoint::new(700, 700)]);
    st.replan_toward(&mut hl, &grid, gridmap_xy_to_world((500, 500)), gridmap_xy_to_world((520, 500)));
    assert_eq!(st.destination_point, WorldPoint::origin());
    assert!(st.path.is_empty());
    assert_eq!(hl.target_long_speed, 0);
}

#[test]
fn empty_town_clears_destination() {
    let grid = TownGridMap::new();
    let mut st = CarPathControllerState::new();
    st.destination_point = WorldPoint::new(1_000, 1_000);
    st.path = VecDeque::from(vec![WorldPoint::new(700, 700)]);
    let mut hl = CarHighLevelControllerState::new();
    hl.target_long_speed = 2_000;
    st.replan_toward(&mut hl, &grid, WorldPoint::new(900, 900), WorldPoint::new(5_000, 5_000));
    assert_eq!(st.destination_point, WorldPoint::origin());
    assert!(st.path.is_empty());
    assert_eq!(hl.target_long_speed, 2_000);
}

#[test]
fn random_replan_draws_inside_the_target_square() {
    let grid = make_square_town_gridmap();
    let mut rng = RandomSource::from_seed(11);
    for _ in 0..5 {
        let mut st = CarPathControllerState::new();
        let mut hl = CarHighLevelControllerState::new();
        st.update(&mut hl, &grid, WorldPoint::new(500, 500), &mut rng, heading_toward);
        let d = st.destination_point;
        let on_block = |v: i64| v >= 500 && v <= 9_500 && (v - 500) % 1_000 == 0;
        assert!(on_block(d.x) && on_block(d.y));
    }
}

#[test]
fn random_source_draws_in_range() {
    let mut rng = RandomSource::from_seed(5);
    let mut seen_low_half = false;
    let mut seen_high_half = false;
    for _ in 0..200 {
        let v = rng.gen_range(-TARGET_LIMIT, TARGET_LIMIT);
        assert!(v >= -TARGET_LIMIT && v < TARGET_LIMIT);
        seen_low_half |= v < 0;
        seen_high_half |= v >= 0;
    }
    assert!(seen_low_half && seen_high_half);
    let mut a = RandomSource::from_seed(99);
    let mut b = RandomSource::from_seed(99);
    assert_eq!(a.gen_range(0, 1_000_000), b.gen_range(0, 1_000_000));
}

#[test]
fn drives_across_the_block_to_the_far_corner() {
    let grid = make_square_town_gridmap();
    let controller = CarController::new();
    let corner = WorldPoint::new(9_500, 9_500);
    let half_length: i64 = 1_500;
    let dt_ms: i64 = 50;
    let dt = dt_ms as f64 / 1000.0;

    let (mut x, mut y, mut yaw, mut speed) = (0.5f64, 0.5f64, 0.0f64, 0.0f64);
    let mut wheel_yaw: i64 = 0;
    let mut yaw_rate = 0.0f64;
    let mut st = CarPathControllerState::new();
    let mut hl = CarHighLevelControllerState::new();
    hl.target_long_speed = 2_000;

    let mut planned = false;
    let mut arrived = false;
    for _ in 0..2_000 {
        let car = WorldPoint::new((x * 1000.0).round() as i64, (y * 1000.0).round() as i64);
        st.update_toward(&mut hl, &grid, car, corner, heading_toward);
        if st.destination_point == corner {
            planned = true;
        }
        if planned && st.path.is_empty() {
            arrived = true;
            break;
        }
        let yaw_urad = (yaw * 1.0e6).round() as i64;
        let speed_milli = (speed * 1000.0).round() as i64;
        let cmd = controller.step(hl.target_yaw, hl.target_long_speed, yaw_urad, speed_milli, half_length, wheel_yaw, dt_ms);
        wheel_yaw = cmd.wheel_yaw;
        if let Some(rate) = cmd.yaw_rate {
            yaw_rate = rate as f64 / 1.0e6;
        }
        speed = cmd.speed as f64 / 1000.0;
        yaw += yaw_rate * dt;
        x += speed * yaw.cos() * dt;
        y += speed * yaw.sin() * dt;
    }
    assert!(arrived, "the car never emptied its path; it is at ({}, {})", x, y);
    let dx = x - 9.5;
    let dy = y - 9.5;
    assert!(dx * dx + dy * dy < 1.0, "the car stopped at ({}, {})", x, y);
}
