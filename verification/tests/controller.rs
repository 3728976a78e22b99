use macpifan::control::{clamp_speed, compute_setpoint_milli, control_step, ControlParams};
use macpifan::shared::SharedAccumulator;

fn reference_params() -> ControlParams {
    ControlParams { k_i_milli: 50, k_p_milli: 400_000, target_degrees: 70 }
}

#[test]
fn setpoint_from_zero_accumulator() {
    // accumulator 0, K_i 0.05, K_p 400, target 70, measured 75:
    // error 5, setpoint 0*0.05 + 400*5 = 2000, already inside the band.
    let params = reference_params();
    let (acc, command) = control_step(&params, 0, 75, 3000, 0);
    assert_eq!(acc, 0);
    assert_eq!(command, 2000);
}

#[test]
fn saturation_freezes_accumulator() {
    // measured 60 (10 below target), accumulator 50000, feedback 6500 at or
    // above the saturation threshold 6000: the accumulator must stay 50000
    // whatever the elapsed time.
    let params = reference_params();
    let (acc, _) = control_step(&params, 50_000, 60, 6500, 777);
    assert_eq!(acc, 50_000);
    let (acc, _) = control_step(&params, 50_000, 60, 6500, 1);
    assert_eq!(acc, 50_000);
    let (acc, _) = control_step(&params, 50_000, 60, 6000, 123_456);
    assert_eq!(acc, 50_000);
}

#[test]
fn below_saturation_accumulates() {
    let params = reference_params();
    // error 5 over 1000 ms: increment 5000.
    let (acc, command) = control_step(&params, 500, 75, 5999, 1000);
    assert_eq!(acc, 5500);
    // setpoint 5500*0.05 + 400*5 = 275 + 2000 = 2275.
    assert_eq!(command, 2275);
}

#[test]
fn negative_increment_on_negative_accumulator_is_suppressed() {
    let params = reference_params();
    // accumulator -100, error -10 over 10 ms: increment -100 is suppressed.
    let (acc, command) = control_step(&params, -100, 60, 3000, 10);
    assert_eq!(acc, -100);
    // setpoint -100*0.05 + 400*(-10) = -4005, clamped up to 1300.
    assert_eq!(command, 1300);
}

#[test]
fn positive_increment_applies_to_negative_accumulator() {
    let params = reference_params();
    // accumulator -100, error 10 over 10 ms: increment +100 is applied.
    let (acc, command) = control_step(&params, -100, 80, 3000, 10);
    assert_eq!(acc, 0);
    // setpoint 0*0.05 + 400*10 = 4000.
    assert_eq!(command, 4000);
}

#[test]
fn negative_increment_on_positive_accumulator_applies() {
    let params = reference_params();
    // accumulator 1000, error -10 over 10 ms: increment -100 is applied.
    let (acc, _) = control_step(&params, 1000, 60, 3000, 10);
    assert_eq!(acc, 900);
}

#[test]
fn clamp_covers_full_input_range() {
    assert_eq!(clamp_speed(-50), 1300);
    assert_eq!(clamp_speed(0), 1300);
    assert_eq!(clamp_speed(1299), 1300);
    assert_eq!(clamp_speed(1300), 1300);
    assert_eq!(clamp_speed(2000), 2000);
    assert_eq!(clamp_speed(6200), 6200);
    assert_eq!(clamp_speed(7000), 6200);
    assert_eq!(clamp_speed(i64::MIN), 1300);
    assert_eq!(clamp_speed(i64::MAX), 6200);
}

#[test]
fn setpoint_formula_is_exact() {
    assert_eq!(compute_setpoint_milli(0, 50, 400_000, 5), 2_000_000);
    assert_eq!(compute_setpoint_milli(50_000, 50, 400_000, -10), 2_500_000 - 4_000_000);
    assert_eq!(compute_setpoint_milli(-100, 50, 400_000, -10), -4_005_000);
}

#[test]
fn shared_accumulator_snapshot_and_iteration() {
    let cell = SharedAccumulator::new(0);
    assert_eq!(cell.snapshot(), 0);
    let params = reference_params();
    let command = cell.control_iteration(&params, 75, 3000, 0);
    assert_eq!(command, 2000);
    assert_eq!(cell.snapshot(), 0);
    let command = cell.control_iteration(&params, 75, 3000, 1000);
    // error 5 over 1000 ms: the accumulator gains 5000, setpoint
    // 5000*0.05 + 400*5 = 2250.
    assert_eq!(command, 2250);
    assert_eq!(cell.snapshot(), 5000);
    // saturated feedback: frozen accumulator.
    let _ = cell.control_iteration(&params, 60, 6500, 999);
    assert_eq!(cell.snapshot(), 5000);
}
