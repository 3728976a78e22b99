//! The PI control law: actuator clamping, setpoint computation, and the
//! integral-accumulator update with its anti-windup policy.

use vstd::prelude::*;

verus! {

/// Lowest speed command the actuator accepts, in rotations per minute.
pub const MIN_ACTUATOR_RPM: u64 = 1300;

/// Highest speed command the actuator accepts, in rotations per minute.
pub const MAX_ACTUATOR_RPM: u64 = 6200;

/// Feedback speed at or above which the actuator counts as saturated and
/// integral accumulation is frozen.
pub const SATURATION_RPM: u64 = 6000;

/// A speed request clamped into the actuator's safe operating band.
pub open spec fn clamped_rpm(x: int) -> int {
    if x < MIN_ACTUATOR_RPM as int {
        MIN_ACTUATOR_RPM as int
    } else if x > MAX_ACTUATOR_RPM as int {
        MAX_ACTUATOR_RPM as int
    } else {
        x
    }
}

/// Clamps a requested speed into the actuator's safe operating band.
/// Every transmitted value passes through here, so no caller can command
/// an out-of-range actuator state.
pub fn clamp_speed(target: i64) -> (r: u64)
    ensures
        r == clamped_rpm(target as int),
        MIN_ACTUATOR_RPM <= r <= MAX_ACTUATOR_RPM,
{
    if target < MIN_ACTUATOR_RPM as i64 {
        MIN_ACTUATOR_RPM
    } else if target > MAX_ACTUATOR_RPM as i64 {
        MAX_ACTUATOR_RPM
    } else {
        target as u64
    }
}

/// The controller's fixed configuration: gains in milli-units (a gain of
/// 0.05 is stored as 50) and the target temperature in whole degrees.
#[derive(Clone, Copy, Debug, PartialEq, Eq, Structural)]
pub struct ControlParams {
    /// Integral gain, in thousandths.
    pub k_i_milli: i32,
    /// Proportional gain, in thousandths.
    pub k_p_milli: i32,
    /// Target temperature in whole degrees.
    pub target_degrees: i64,
}

/// The PI setpoint in milli-rpm: `accumulator * K_i + K_p * error`, with the
/// gains in milli-units.
pub open spec fn setpoint_milli(acc: int, k_i_milli: int, k_p_milli: int, error: int) -> int {
    acc * k_i_milli + k_p_milli * error
}

/// An integer clamped into the `i64` range.
pub open spec fn saturated_i64(x: int) -> int {
    if x > i64::MAX as int {
        i64::MAX as int
    } else if x < i64::MIN as int {
        i64::MIN as int
    } else {
        x
    }
}

/// The increment the accumulator receives from one iteration, after the
/// anti-windup clamp: the time-weighted error, except that a negative
/// increment is suppressed while the accumulator is already negative.
pub open spec fn windup_guarded_increment(acc: int, error: int, elapsed_ms: int) -> int {
    if acc < 0 && error * elapsed_ms < 0 {
        0
    } else {
        error * elapsed_ms
    }
}

/// The accumulator after one non-saturated iteration: the guarded increment
/// applied, saturated into the `i64` range.
pub open spec fn accumulator_after_increment(acc: int, error: int, elapsed_ms: int) -> int {
    saturated_i64(acc + windup_guarded_increment(acc, error, elapsed_ms))
}

/// A product of two integers is bounded by the product of the bounds on
/// their magnitudes.
proof fn lemma_abs_mul_bound(a: int, b: int, bound_a: int, bound_b: int)
    by (nonlinear_arith)
    requires
        -bound_a <= a <= bound_a,
        -bound_b <= b <= bound_b,
        0 <= bound_a,
        0 <= bound_b,
    ensures
        -(bound_a * bound_b) <= a * b <= bound_a * bound_b,
{
}

/// Computes the PI setpoint exactly, in milli-rpm.
pub fn compute_setpoint_milli(acc: i64, k_i_milli: i32, k_p_milli: i32, error: i128) -> (r: i128)
    requires
        -0x1_0000_0000_0000_0000 <= error <= 0x1_0000_0000_0000_0000,
    ensures
        r == setpoint_milli(acc as int, k_i_milli as int, k_p_milli as int, error as int),
{
    proof {
        lemma_abs_mul_bound(acc as int, k_i_milli as int, 0x8000_0000_0000_0000, 0x8000_0000);
        lemma_abs_mul_bound(k_p_milli as int, error as int, 0x8000_0000, 0x1_0000_0000_0000_0000);
    }
    (acc as i128) * (k_i_milli as i128) + (k_p_milli as i128) * (error as i128)
}

/// Applies one iteration's increment to the accumulator: the time-weighted
/// error `error * elapsed_ms`, suppressed to zero when both the accumulator
/// and the increment are negative, and the sum saturated into `i64`.
pub fn apply_increment(acc: i64, error: i128, elapsed_ms: u32) -> (r: i64)
    requires
        -0x1_0000_0000_0000_0000 <= error <= 0x1_0000_0000_0000_0000,
    ensures
        r == accumulator_after_increment(acc as int, error as int, elapsed_ms as int),
{
    proof {
        lemma_abs_mul_bound(error as int, elapsed_ms as int, 0x1_0000_0000_0000_0000, 0x1_0000_0000);
    }
    let raw: i128 = error * (elapsed_ms as i128);
    let inc: i128 = if acc < 0 && raw < 0 {
        0
    } else {
        raw
    };
    let widened: i128 = (acc as i128) + inc;
    if widened > i64::MAX as i128 {
        i64::MAX
    } else if widened < i64::MIN as i128 {
        i64::MIN
    } else {
        widened as i64
    }
}

/// Division by 1000 truncated toward zero, as a numeric cast of the real
/// setpoint to an integer count truncates.
pub open spec fn trunc_div_milli(x: int) -> int {
    if x >= 0 {
        x / 1000
    } else {
        -((-x) / 1000)
    }
}

/// The temperature error of one sample: measured minus target, in degrees.
pub open spec fn temperature_error(measured: int, target: int) -> int {
    measured - target
}

/// The accumulator after one full iteration: frozen while the actuator is
/// saturated, otherwise the guarded, time-weighted increment is applied.
pub open spec fn accumulator_after_iteration(
    acc: int,
    measured: int,
    target: int,
    speed: int,
    elapsed_ms: int,
) -> int {
    if speed >= SATURATION_RPM as int {
        acc
    } else {
        accumulator_after_increment(acc, temperature_error(measured, target), elapsed_ms)
    }
}

/// The speed command one iteration transmits: the setpoint computed from the
/// updated accumulator, truncated from milli-rpm to whole rpm, clamped into
/// the actuator band.
pub open spec fn command_after_iteration(
    params: ControlParams,
    acc: int,
    measured: int,
    speed: int,
    elapsed_ms: int,
) -> int {
    clamped_rpm(
        trunc_div_milli(
            setpoint_milli(
                accumulator_after_iteration(acc, measured, params.target_degrees as int, speed, elapsed_ms),
                params.k_i_milli as int,
                params.k_p_milli as int,
                temperature_error(measured, params.target_degrees as int),
            ),
        ),
    )
}

/// Truncates a milli-rpm setpoint toward zero into whole rpm.
fn setpoint_to_rpm(sp_milli: i128) -> (r: i128)
    requires
        -0x1_0000_0000_0000_0000_0000_0000 <= sp_milli <= 0x1_0000_0000_0000_0000_0000_0000,
    ensures
        r == trunc_div_milli(sp_milli as int),
{
    if sp_milli >= 0 {
        sp_milli / 1000
    } else {
        let mag: i128 = -sp_milli;
        -(mag / 1000)
    }
}

/// One iteration of the control loop, from the sampled values to the next
/// accumulator and the clamped speed command: the accumulator is frozen while
/// the feedback speed is at or above the saturation threshold, otherwise it
/// receives the time-weighted error under the anti-windup clamp; the setpoint
/// is computed from the updated accumulator and the same temperature sample,
/// truncated to whole rpm, and clamped into the actuator band.
pub fn control_step(
    params: &ControlParams,
    acc: i64,
    measured_degrees: i64,
    speed_rpm: u64,
    elapsed_ms: u32,
) -> (r: (i64, u64))
    ensures
        r.0 == accumulator_after_iteration(
            acc as int,
            measured_degrees as int,
            params.target_degrees as int,
            speed_rpm as int,
            elapsed_ms as int,
        ),
        r.1 == command_after_iteration(
            *params,
            acc as int,
            measured_degrees as int,
            speed_rpm as int,
            elapsed_ms as int,
        ),
        MIN_ACTUATOR_RPM <= r.1 <= MAX_ACTUATOR_RPM,
{
    let error: i128 = (measured_degrees as i128) - (params.target_degrees as i128);
    let new_acc: i64 = if speed_rpm >= SATURATION_RPM {
        acc
    } else {
        apply_increment(acc, error, elapsed_ms)
    };
    let sp_milli: i128 = compute_setpoint_milli(new_acc, params.k_i_milli, params.k_p_milli, error);
    proof {
        lemma_abs_mul_bound(new_acc as int, params.k_i_milli as int, 0x8000_0000_0000_0000, 0x8000_0000);
        lemma_abs_mul_bound(params.k_p_milli as int, error as int, 0x8000_0000, 0x1_0000_0000_0000_0000);
    }
    let rpm: i128 = setpoint_to_rpm(sp_milli);
    let command: u64 = if rpm < MIN_ACTUATOR_RPM as i128 {
        MIN_ACTUATOR_RPM
    } else if rpm > MAX_ACTUATOR_RPM as i128 {
        MAX_ACTUATOR_RPM
    } else {
        rpm as u64
    };
    (new_acc, command)
}

/// While the feedback speed is at or above the saturation threshold, an
/// iteration leaves the accumulator exactly as it was, whatever the sample,
/// the target, and the elapsed time.
pub proof fn lemma_saturation_freezes_accumulator(
    acc: int,
    measured: int,
    target: int,
    speed: int,
    elapsed_ms: int,
)
    requires
        speed >= SATURATION_RPM as int,
    ensures
        accumulator_after_iteration(acc, measured, target, speed, elapsed_ms) == acc,
{
}

/// While the accumulator is negative and the iteration's time-weighted error
/// is negative, the increment is suppressed and the accumulator is unchanged.
pub proof fn lemma_negative_increment_suppressed(
    acc: int,
    measured: int,
    target: int,
    speed: int,
    elapsed_ms: int,
)
    requires
        i64::MIN <= acc < 0,
        temperature_error(measured, target) * elapsed_ms < 0,
    ensures
        accumulator_after_iteration(acc, measured, target, speed, elapsed_ms) == acc,
{
}

/// A positive increment is applied whatever the sign of the accumulator,
/// as long as the actuator is not saturated and the sum stays representable.
pub proof fn lemma_positive_increment_applied(
    acc: int,
    measured: int,
    target: int,
    speed: int,
    elapsed_ms: int,
)
    requires
        speed < SATURATION_RPM as int,
        temperature_error(measured, target) * elapsed_ms > 0,
        i64::MIN <= acc + temperature_error(measured, target) * elapsed_ms <= i64::MAX,
    ensures
        accumulator_after_iteration(acc, measured, target, speed, elapsed_ms)
            == acc + temperature_error(measured, target) * elapsed_ms,
{
}

/// The setpoint is a function of the accumulator, the gains and the error
/// alone: equal inputs give an equal setpoint.
pub proof fn lemma_setpoint_deterministic(
    acc1: int,
    k_i1: int,
    k_p1: int,
    error1: int,
    acc2: int,
    k_i2: int,
    k_p2: int,
    error2: int,
)
    requires
        acc1 == acc2,
        k_i1 == k_i2,
        k_p1 == k_p2,
        error1 == error2,
    ensures
        setpoint_milli(acc1, k_i1, k_p1, error1) == setpoint_milli(acc2, k_i2, k_p2, error2),
{
}

} // verus!
