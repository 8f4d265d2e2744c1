use roadsim2d::car_controller::{
    heading_correction, heading_error, speed_ramp, turn_direction, wheel_yaw_for, yaw_rate_for,
    CarController, KinematicCommand, MAX_HEADING_CORRECTION, MAX_WHEEL_YAW, QUARTER_TURN,
};
use roadsim2d::geometry::{FULL_TURN, HALF_TURN};

#[test]
fn heading_error_is_normalized() {
    assert_eq!(heading_error(100, 40), 60);
    assert_eq!(heading_error(40, 100), FULL_TURN - 60);
    assert_eq!(heading_error(0, FULL_TURN), 0);
    assert_eq!(heading_error(3 * FULL_TURN + 5, 0), 5);
    assert_eq!(heading_error(i64::MIN, i64::MAX), ((i64::MIN as i128 - i64::MAX as i128).rem_euclid(FULL_TURN as i128)) as i64);
}

#[test]
fn turn_direction_quarter_turns() {
    let heading = 1_000_000;
    // A quarter turn clockwise of the heading: turn clockwise.
    assert_eq!(turn_direction(heading_error(heading - QUARTER_TURN, heading)), -1);
    // A quarter turn counter-clockwise: turn counter-clockwise.
    assert_eq!(turn_direction(heading_error(heading + QUARTER_TURN, heading)), 1);
}

#[test]
fn turn_direction_at_exactly_half_a_turn() {
    assert_eq!(turn_direction(heading_error(HALF_TURN, 0)), -1);
    assert_eq!(turn_direction(heading_error(-HALF_TURN, 0)), -1);
    assert_eq!(turn_direction(HALF_TURN - 1), 1);
    assert_eq!(turn_direction(0), 1);
}

#[test]
fn heading_correction_is_clamped_and_signed() {
    assert_eq!(heading_correction(100_000), 100_000);
    assert_eq!(heading_correction(2_000_000), MAX_HEADING_CORRECTION);
    assert_eq!(heading_correction(FULL_TURN - 100_000), -100_000);
    assert_eq!(heading_correction(HALF_TURN), -MAX_HEADING_CORRECTION);
}

#[test]
fn wheel_yaw_and_yaw_rate() {
    // 0.2 rad/s at 2 units/s with half-length 1.5 units: 0.15 rad.
    assert_eq!(wheel_yaw_for(200_000, 2_000, 1_500), 150_000);
    assert_eq!(wheel_yaw_for(-200_000, 2_000, 1_500), -150_000);
    // Large corrections at low speed hit the wheel limit.
    assert_eq!(wheel_yaw_for(500_000, 100, 1_500), MAX_WHEEL_YAW);
    assert_eq!(yaw_rate_for(2_000, 150_000, 1_500), 200_000);
    assert_eq!(yaw_rate_for(2_000, -150_000, 1_500), -200_000);
    assert_eq!(yaw_rate_for(0, 600_000, 1_500), 0);
}

#[test]
fn speed_ramp_steps() {
    assert_eq!(speed_ramp(0, 2_000, 50), 500);
    assert_eq!(speed_ramp(2_000, 0, 50), 1_500);
    assert_eq!(speed_ramp(1_000, 1_000, 50), 1_000);
}

#[test]
fn speed_ramp_is_steady_at_target() {
    let mut speed = 1_234;
    for _ in 0..100 {
        speed = speed_ramp(speed, 1_234, 20);
    }
    assert_eq!(speed, 1_234);
}

#[test]
fn motion_step_steers_toward_target() {
    let controller = CarController::new();
    let cmd = controller.step(QUARTER_TURN, 2_000, 0, 2_000, 1_500, 0, 50);
    // Correction 0.5 rad, wheel 0.5 * 1.5 / 2 = 0.375 rad, yaw rate back to 0.5 rad/s.
    assert_eq!(
        cmd,
        KinematicCommand { speed: 2_000, wheel_yaw: 375_000, yaw_rate: Some(500_000) }
    );
    let cmd = controller.step(-QUARTER_TURN, 3_000, 0, 2_000, 1_500, 0, 50);
    assert_eq!(cmd.wheel_yaw, -375_000);
    assert_eq!(cmd.yaw_rate, Some(-500_000));
    assert_eq!(cmd.speed, 2_500);
}

#[test]
fn motion_step_without_target_speed_keeps_wheel() {
    let controller = CarController::new();
    let cmd = controller.step(QUARTER_TURN, 0, 0, 2_000, 1_500, 123_000, 50);
    assert_eq!(cmd, KinematicCommand { speed: 1_500, wheel_yaw: 123_000, yaw_rate: None });
}

#[test]
fn motion_step_at_standstill_keeps_wheel() {
    let controller = CarController::new();
    let cmd = controller.step(QUARTER_TURN, 2_000, 0, 0, 1_500, -50_000, 50);
    assert_eq!(cmd, KinematicCommand { speed: 500, wheel_yaw: -50_000, yaw_rate: Some(0) });
}

#[test]
fn twist_step_limits_yaw_rate_change() {
    let controller = CarController::new();
    let cmd = controller.twist_step(3_000, 1_000_000, 100_000, 1_500, 0);
    assert_eq!(cmd, KinematicCommand { speed: 3_000, wheel_yaw: 100_000, yaw_rate: Some(200_000) });
    let cmd = controller.twist_step(3_000, 0, 50_000, 1_500, 0);
    assert_eq!(cmd, KinematicCommand { speed: 3_000, wheel_yaw: -25_000, yaw_rate: Some(-50_000) });
    let cmd = controller.twist_step(0, 0, 50_000, 1_500, 7);
    assert_eq!(cmd, KinematicCommand { speed: 0, wheel_yaw: 7, yaw_rate: None });
}
