//! The short-horizon motion controller: from a target heading and speed and the
//! vehicle's kinematic state to a wheel angle, a yaw rate and a forward speed.
use vstd::prelude::*;
use crate::geometry::{FULL_TURN, HALF_TURN};

verus! {

/// Largest heading correction applied in one control step, in microradians (0.5 rad).
pub const MAX_HEADING_CORRECTION: i64 = 500_000;

/// Largest wheel angle, in microradians (0.6 rad).
pub const MAX_WHEEL_YAW: i64 = 600_000;

/// Largest change of yaw rate asked for in one step of twist-driven control,
/// in microradians per second (0.2 rad/s).
pub const MAX_YAW_RATE_INCREMENT: i64 = 200_000;

/// Longitudinal acceleration of a car, in milli-units per second squared (10 units/s²).
pub const CAR_ACC: i64 = 10_000;

/// Marks a vehicle as driven by the motion controller.
pub struct CarController {}

/// Marks the player-driven vehicle, which `CarController::twist_step` controls.
pub struct ProtagonistTag {}

/// The output of one control step, in the vehicle's own frame.
#[derive(Clone, Copy, Debug, PartialEq, Eq, Structural)]
pub struct KinematicCommand {
    /// Commanded forward speed, in milli-units per second.
    pub speed: i64,
    /// Wheel angle, in microradians; positive turns counter-clockwise.
    pub wheel_yaw: i64,
    /// Commanded yaw rate in microradians per second, or `None` when the yaw
    /// rate is to be left as it is.
    pub yaw_rate: Option<i64>,
}

/// The heading error `target - current` brought into `[0, FULL_TURN)`.
pub open spec fn heading_error_spec(target: int, current: int) -> int {
    (target - current) % (FULL_TURN as int)
}

/// The way to turn for a heading error: +1 (counter-clockwise) when the error
/// is under half a turn, -1 otherwise, so a car always turns the shorter way
/// and turns clockwise at exactly half a turn.
pub open spec fn turn_direction_spec(error: int) -> int {
    if error < HALF_TURN {
        1
    } else {
        -1
    }
}

pub open spec fn min_spec(a: int, b: int) -> int {
    if a <= b {
        a
    } else {
        b
    }
}

/// The heading correction for a heading error: the angle to turn the shorter
/// way, at most `MAX_HEADING_CORRECTION`, signed by the turn direction.
pub open spec fn heading_correction_spec(error: int) -> int {
    if error < HALF_TURN {
        min_spec(error, MAX_HEADING_CORRECTION as int)
    } else {
        -min_spec(FULL_TURN - error, MAX_HEADING_CORRECTION as int)
    }
}

/// `magnitude` carrying the sign of `s`.
pub open spec fn with_sign_of(s: int, magnitude: int) -> int {
    if s < 0 {
        -magnitude
    } else {
        magnitude
    }
}

pub open spec fn abs_spec(v: int) -> int {
    if v < 0 {
        -v
    } else {
        v
    }
}

/// The wheel angle that yields yaw rate `yaw_rate` at forward speed `speed`
/// for a car of half-length `half_length`, `yaw_rate / speed * half_length`
/// rounded toward zero, clamped to `MAX_WHEEL_YAW` in magnitude.
pub open spec fn wheel_yaw_spec(yaw_rate: int, speed: int, half_length: int) -> int {
    with_sign_of(
        yaw_rate,
        min_spec(MAX_WHEEL_YAW as int, abs_spec(yaw_rate) * half_length / speed),
    )
}

/// The yaw rate of a car of half-length `half_length` at forward speed
/// `speed` with wheel angle `wheel_yaw`, `speed / half_length * wheel_yaw`
/// rounded toward zero.
pub open spec fn yaw_rate_spec(speed: int, wheel_yaw: int, half_length: int) -> int {
    with_sign_of(wheel_yaw, speed * abs_spec(wheel_yaw) / half_length)
}

/// The sign of `v`: -1, 0 or 1.
pub open spec fn signum_spec(v: int) -> int {
    if v < 0 {
        -1
    } else if v > 0 {
        1
    } else {
        0
    }
}

/// The speed change of one step of `dt_ms` milliseconds at acceleration `CAR_ACC`.
pub open spec fn ramp_step_spec(dt_ms: int) -> int {
    CAR_ACC * dt_ms / 1000
}

/// One step of the speed ramp: `speed + CAR_ACC * dt * sign(target - speed)`.
pub open spec fn speed_ramp_spec(speed: int, target: int, dt_ms: int) -> int {
    speed + signum_spec(target - speed) * ramp_step_spec(dt_ms)
}

/// The heading error `target_yaw - current_yaw`, normalized into `[0, FULL_TURN)`.
pub fn heading_error(target_yaw: i64, current_yaw: i64) -> (r: i64)
    ensures
        r == heading_error_spec(target_yaw as int, current_yaw as int),
        0 <= r < FULL_TURN,
{
    let diff: i128 = target_yaw as i128 - current_yaw as i128;
    let full = FULL_TURN as i128;
    let r: i128 = if diff >= 0 {
        diff % full
    } else {
        let m = (-diff) % full;
        if m == 0 {
            0
        } else {
            full - m
        }
    };
    proof {
        let d = diff as int;
        let f = FULL_TURN as int;
        if diff < 0 {
            let m = (-d) % f;
            vstd::arithmetic::div_mod::lemma_fundamental_div_mod(-d, f);
            vstd::arithmetic::div_mod::lemma_fundamental_div_mod(d, f);
            let q = (-d) / f;
            if m == 0 {
                vstd::arithmetic::div_mod::lemma_mod_multiples_vanish(-q, 0, f);
                assert(d == (-q) * f) by (nonlinear_arith)
                    requires
                        -d == f * q,
                ;
                vstd::arithmetic::div_mod::lemma_mod_multiples_basic(-q, f);
            } else {
                assert(d == (-q - 1) * f + (f - m)) by (nonlinear_arith)
                    requires
                        -d == f * q + m,
                ;
                vstd::arithmetic::div_mod::lemma_mod_multiples_vanish(-q - 1, f - m, f);
                vstd::arithmetic::div_mod::lemma_small_mod((f - m) as nat, f as nat);
            }
        }
    }
    r as i64
}

/// The way to turn for a normalized heading error: +1 or -1.
pub fn turn_direction(error: i64) -> (r: i64)
    ensures
        r == turn_direction_spec(error as int),
{
    if error < HALF_TURN {
        1
    } else {
        -1
    }
}

/// The heading correction for a normalized heading error.
pub fn heading_correction(error: i64) -> (r: i64)
    requires
        0 <= error < FULL_TURN,
    ensures
        r == heading_correction_spec(error as int),
        -MAX_HEADING_CORRECTION <= r <= MAX_HEADING_CORRECTION,
{
    if turn_direction(error) > 0 {
        if error < MAX_HEADING_CORRECTION {
            error
        } else {
            MAX_HEADING_CORRECTION
        }
    } else {
        let rest = FULL_TURN - error;
        if rest < MAX_HEADING_CORRECTION {
            -rest
        } else {
            -MAX_HEADING_CORRECTION
        }
    }
}

/// The wheel angle that turns a car of half-length `half_length`, moving at
/// `speed`, at yaw rate `yaw_rate`, clamped to `MAX_WHEEL_YAW`.
pub fn wheel_yaw_for(yaw_rate: i64, speed: i64, half_length: i64) -> (r: i64)
    requires
        -MAX_HEADING_CORRECTION <= yaw_rate <= MAX_HEADING_CORRECTION,
        speed > 0,
        half_length > 0,
    ensures
        r == wheel_yaw_spec(yaw_rate as int, speed as int, half_length as int),
        -MAX_WHEEL_YAW <= r <= MAX_WHEEL_YAW,
{
    let magnitude: u128 = if yaw_rate < 0 {
        (-yaw_rate) as u128
    } else {
        yaw_rate as u128
    };
    proof {
        vstd::arithmetic::mul::lemma_mul_upper_bound(
            magnitude as int,
            500_000,
            half_length as int,
            0x7fff_ffff_ffff_ffff,
        );
    }
    let scaled: u128 = magnitude * (half_length as u128) / (speed as u128);
    let clamped: i64 = if scaled < MAX_WHEEL_YAW as u128 {
        scaled as i64
    } else {
        MAX_WHEEL_YAW
    };
    if yaw_rate < 0 {
        -clamped
    } else {
        clamped
    }
}

/// The yaw rate of a car of half-length `half_length` at forward speed
/// `speed` with wheel angle `wheel_yaw`.
pub fn yaw_rate_for(speed: i64, wheel_yaw: i64, half_length: i64) -> (r: i64)
    requires
        speed >= 0,
        half_length > 0,
        -MAX_WHEEL_YAW <= wheel_yaw <= MAX_WHEEL_YAW,
        speed * abs_spec(wheel_yaw as int) / (half_length as int) <= i64::MAX,
    ensures
        r == yaw_rate_spec(speed as int, wheel_yaw as int, half_length as int),
{
    let magnitude: u128 = if wheel_yaw < 0 {
        (-wheel_yaw) as u128
    } else {
        wheel_yaw as u128
    };
    proof {
        vstd::arithmetic::mul::lemma_mul_upper_bound(
            speed as int,
            0x7fff_ffff_ffff_ffff,
            magnitude as int,
            600_000,
        );
    }
    let scaled: u128 = (speed as u128) * magnitude / (half_length as u128);
    if wheel_yaw < 0 {
        -(scaled as i64)
    } else {
        scaled as i64
    }
}

/// The output of one step of the motion controller. With no positive target
/// speed the wheel angle is kept and the yaw rate left alone; otherwise, when
/// the car moves, the wheel angle is the one that turns it at the heading
/// correction per second, and the yaw rate follows from the (possibly kept)
/// wheel angle. The speed ramps toward the target in every case.
pub open spec fn motion_command_spec(
    target_yaw: int,
    target_speed: int,
    current_yaw: int,
    speed: int,
    half_length: int,
    previous_wheel_yaw: int,
    dt_ms: int,
) -> KinematicCommand {
    let ramped = speed_ramp_spec(speed, target_speed, dt_ms) as i64;
    if target_speed <= 0 {
        KinematicCommand { speed: ramped, wheel_yaw: previous_wheel_yaw as i64, yaw_rate: None }
    } else {
        let correction = heading_correction_spec(heading_error_spec(target_yaw, current_yaw));
        let wheel = if speed > 0 {
            wheel_yaw_spec(correction, speed, half_length)
        } else {
            previous_wheel_yaw
        };
        KinematicCommand {
            speed: ramped,
            wheel_yaw: wheel as i64,
            yaw_rate: Some(yaw_rate_spec(speed, wheel, half_length) as i64),
        }
    }
}

/// One step of the speed ramp: the speed moves toward `target` by the change
/// that `CAR_ACC` gives over `dt_ms` milliseconds, and stays put when it equals `target`.
pub fn speed_ramp(speed: i64, target: i64, dt_ms: i64) -> (r: i64)
    requires
        dt_ms >= 0,
        i64::MIN <= speed - ramp_step_spec(dt_ms as int),
        speed + ramp_step_spec(dt_ms as int) <= i64::MAX,
    ensures
        r == speed_ramp_spec(speed as int, target as int, dt_ms as int),
        target == speed ==> r == speed,
{
    let step: i128 = CAR_ACC as i128 * dt_ms as i128 / 1000;
    if target > speed {
        (speed as i128 + step) as i64
    } else if target < speed {
        (speed as i128 - step) as i64
    } else {
        speed
    }
}

/// The yaw rate that the wheel angle chosen for a correction gives never
/// exceeds the correction itself.
proof fn lemma_yaw_rate_bounded_by_correction(correction: int, speed: int, half_length: int)
    requires
        -MAX_HEADING_CORRECTION <= correction <= MAX_HEADING_CORRECTION,
        speed > 0,
        half_length > 0,
    ensures
        speed * abs_spec(wheel_yaw_spec(correction, speed, half_length)) / half_length <= abs_spec(
            correction,
        ),
{
    let c = abs_spec(correction);
    let m = c * half_length / speed;
    let w = abs_spec(wheel_yaw_spec(correction, speed, half_length));
    assert(w <= m);
    assert(c * half_length >= 0) by (nonlinear_arith)
        requires
            c >= 0,
            half_length > 0,
    ;
    vstd::arithmetic::div_mod::lemma_fundamental_div_mod(c * half_length, speed);
    assert(speed * w <= speed * m) by (nonlinear_arith)
        requires
            w <= m,
            speed > 0,
    ;
    assert(speed * w >= 0) by (nonlinear_arith)
        requires
            w >= 0,
            speed > 0,
    ;
    vstd::arithmetic::div_mod::lemma_div_is_ordered(speed * w, c * half_length, half_length);
    vstd::arithmetic::div_mod::lemma_div_by_multiple(c, half_length);
}

impl CarController {
    pub fn new() -> (r: CarController) {
        CarController {}
    }

    /// One step of the motion controller for a car with heading `current_yaw`
    /// (microradians), forward speed `speed` (milli-units per second, a
    /// magnitude), half-length `half_length` (milli-units) and wheel angle
    /// `previous_wheel_yaw`, steering toward `target_yaw` at `target_speed`
    /// over a step of `dt_ms` milliseconds.
    pub fn step(
        &self,
        target_yaw: i64,
        target_speed: i64,
        current_yaw: i64,
        speed: i64,
        half_length: i64,
        previous_wheel_yaw: i64,
        dt_ms: i64,
    ) -> (r: KinematicCommand)
        requires
            speed >= 0,
            half_length > 0,
            -MAX_WHEEL_YAW <= previous_wheel_yaw <= MAX_WHEEL_YAW,
            dt_ms >= 0,
            speed + ramp_step_spec(dt_ms as int) <= i64::MAX,
        ensures
            r == motion_command_spec(
                target_yaw as int,
                target_speed as int,
                current_yaw as int,
                speed as int,
                half_length as int,
                previous_wheel_yaw as int,
                dt_ms as int,
            ),
            -MAX_WHEEL_YAW <= r.wheel_yaw <= MAX_WHEEL_YAW,
    {
        let ramped = speed_ramp(speed, target_speed, dt_ms);
        if target_speed <= 0 {
            return KinematicCommand { speed: ramped, wheel_yaw: previous_wheel_yaw, yaw_rate: None };
        }
        let correction = heading_correction(heading_error(target_yaw, current_yaw));
        let wheel = if speed > 0 {
            proof {
                lemma_yaw_rate_bounded_by_correction(correction as int, speed as int, half_length as int);
            }
            wheel_yaw_for(correction, speed, half_length)
        } else {
            previous_wheel_yaw
        };
        let yaw_rate = yaw_rate_for(speed, wheel, half_length);
        KinematicCommand { speed: ramped, wheel_yaw: wheel, yaw_rate: Some(yaw_rate) }
    }

    /// One step of twist-driven control, where a target yaw rate replaces the
    /// target heading: the yaw rate moves toward `target_yaw_rate` by at most
    /// `MAX_YAW_RATE_INCREMENT`, and the car is commanded at `target_speed`
    /// directly. With no positive target speed the wheel angle is kept and the
    /// yaw rate left alone.
    pub fn twist_step(
        &self,
        target_speed: i64,
        target_yaw_rate: i64,
        current_yaw_rate: i64,
        half_length: i64,
        previous_wheel_yaw: i64,
    ) -> (r: KinematicCommand)
        requires
            half_length > 0,
        ensures
            r.speed == target_speed,
            target_speed <= 0 ==> r.wheel_yaw == previous_wheel_yaw && r.yaw_rate is None,
            target_speed > 0 ==> {
                let increment = clamp_rate_spec(target_yaw_rate - current_yaw_rate);
                &&& r.yaw_rate == Some(increment as i64)
                &&& r.wheel_yaw == wheel_yaw_spec(increment, target_speed as int, half_length as int)
            },
    {
        if target_speed <= 0 {
            return KinematicCommand {
                speed: target_speed,
                wheel_yaw: previous_wheel_yaw,
                yaw_rate: None,
            };
        }
        let diff: i128 = target_yaw_rate as i128 - current_yaw_rate as i128;
        let increment: i64 = if diff < -(MAX_YAW_RATE_INCREMENT as i128) {
            -MAX_YAW_RATE_INCREMENT
        } else if diff > MAX_YAW_RATE_INCREMENT as i128 {
            MAX_YAW_RATE_INCREMENT
        } else {
            diff as i64
        };
        let wheel = wheel_yaw_for(increment, target_speed, half_length);
        KinematicCommand { speed: target_speed, wheel_yaw: wheel, yaw_rate: Some(increment) }
    }
}

/// A yaw-rate change clamped to `MAX_YAW_RATE_INCREMENT` in magnitude.
pub open spec fn clamp_rate_spec(v: int) -> int {
    if v < -MAX_YAW_RATE_INCREMENT {
        -MAX_YAW_RATE_INCREMENT as int
    } else if v > MAX_YAW_RATE_INCREMENT {
        MAX_YAW_RATE_INCREMENT as int
    } else {
        v
    }
}

/// A quarter turn (pi/2) in microradians, half of `HALF_TURN` rounded down.
pub const QUARTER_TURN: i64 = 1_570_796;

/// A target a quarter turn clockwise of the heading makes the car turn
/// clockwise (-1), a quarter turn counter-clockwise makes it turn
/// counter-clockwise (+1), and a target exactly half a turn away, on either
/// side, makes it turn clockwise.
pub proof fn lemma_turn_direction_signs(heading: int)
    ensures
        turn_direction_spec(heading_error_spec(heading - QUARTER_TURN, heading)) == -1,
        turn_direction_spec(heading_error_spec(heading + QUARTER_TURN, heading)) == 1,
        turn_direction_spec(heading_error_spec(heading + HALF_TURN, heading)) == -1,
        turn_direction_spec(heading_error_spec(heading - HALF_TURN, heading)) == -1,
{
    assert((heading - QUARTER_TURN) - heading == -QUARTER_TURN);
    assert((heading + QUARTER_TURN) - heading == QUARTER_TURN);
    assert((heading + HALF_TURN) - heading == HALF_TURN);
    assert((heading - HALF_TURN) - heading == -HALF_TURN);
    let f = FULL_TURN as int;
    vstd::arithmetic::div_mod::lemma_fundamental_div_mod_converse_mod(-QUARTER_TURN, f, -1, f - QUARTER_TURN);
    vstd::arithmetic::div_mod::lemma_fundamental_div_mod_converse_mod(QUARTER_TURN as int, f, 0, QUARTER_TURN as int);
    vstd::arithmetic::div_mod::lemma_fundamental_div_mod_converse_mod(HALF_TURN as int, f, 0, HALF_TURN as int);
    vstd::arithmetic::div_mod::lemma_fundamental_div_mod_converse_mod(-HALF_TURN, f, -1, HALF_TURN as int);
}

/// `n` speed-ramp steps from `speed` toward `target`.
pub open spec fn speed_ramp_steps(speed: int, target: int, dt_ms: int, n: nat) -> int
    decreases n,
{
    if n == 0 {
        speed
    } else {
        speed_ramp_steps(speed_ramp_spec(speed, target, dt_ms), target, dt_ms, (n - 1) as nat)
    }
}

/// Ramping a speed that already equals its target leaves it unchanged, however
/// many steps are taken.
pub proof fn lemma_speed_ramp_steady(speed: int, dt_ms: int, n: nat)
    ensures
        speed_ramp_steps(speed, speed, dt_ms, n) == speed,
    decreases n,
{
    if n > 0 {
        lemma_speed_ramp_steady(speed, dt_ms, (n - 1) as nat);
    }
}

} // verus!
