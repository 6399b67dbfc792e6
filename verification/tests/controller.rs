use cylinder_control::controller::{ControlGains, CylinderPositionController};

#[test]
fn controller_drives_in_the_correct_direction() {
    let mut controller = CylinderPositionController::new(ControlGains::P(1_000_000), 500_000);
    assert!(controller.control_signal(0) > 0);
    assert!(controller.control_signal(1_000_000) < 0);
    assert_eq!(controller.control_signal(500_000), 0);
}

#[test]
fn controller_setpoint_changes() {
    let mut controller = CylinderPositionController::new(ControlGains::P(1_000_000), 500_000);
    assert!(controller.new_setpoint(0).control_signal(500_000) < 0);
    assert_eq!(controller.new_setpoint(500_000).control_signal(500_000), 0);
    assert!(controller.new_setpoint(1_000_000).control_signal(500_000) > 0);
}

#[test]
fn control_increases_proportional_to_error() {
    let mut controller = CylinderPositionController::new(ControlGains::P(1_000_000), 0);
    for k in 0..10i64 {
        assert_eq!(
            controller.control_signal(100_000) * k,
            controller.control_signal(k * 100_000)
        );
    }
    let controller = controller.new_setpoint(1_000_000);
    for k in 0..10i64 {
        assert_eq!(
            controller.control_signal(900_000) * k,
            controller.control_signal(1_000_000 - k * 100_000)
        );
    }
}

#[test]
fn control_increases_with_integral_of_error() {
    let mut controller =
        CylinderPositionController::new(ControlGains::PI(1_000_000, 1_000_000), 0);
    let controller = controller.new_setpoint(0);
    let mut previous_control_signal: i64 = 0;
    for _ in 0..10i64 {
        let current_control_signal: i64 = controller.control_signal(100_000);
        assert!(current_control_signal.abs() > previous_control_signal.abs());
        previous_control_signal = current_control_signal;
    }
    let controller = controller.new_setpoint(1_000_000);
    let mut previous_control_signal: i64 = 0;
    for _ in 0..10i64 {
        let current_control_signal: i64 = controller.control_signal(900_000);
        assert!(current_control_signal.abs() > previous_control_signal.abs());
        previous_control_signal = current_control_signal;
    }
}

#[test]
fn control_increases_with_higher_gains() {
    // proportional gain
    let mut controller0 = CylinderPositionController::new(ControlGains::P(1_000_000), 0);
    let mut controller1 = CylinderPositionController::new(ControlGains::P(10_000_000), 0);

    assert!(
        controller1.control_signal(1_000_000).abs() > controller0.control_signal(1_000_000).abs()
    );

    // integral gain
    let mut controller0 =
        CylinderPositionController::new(ControlGains::PI(1_000_000, 1_000_000), 0);
    let mut controller1 =
        CylinderPositionController::new(ControlGains::PI(1_000_000, 10_000_000), 0);
    let _ = controller0.control_signal(1_000_000);
    let _ = controller1.control_signal(1_000_000);
    assert!(
        controller1.control_signal(1_000_000).abs() > controller0.control_signal(1_000_000).abs()
    );
}

#[test]
fn new_setpoint_clamps_out_of_range_targets() {
    // An overshooting target is clamped to one: measuring exactly one then
    // yields a signal of exactly zero.
    let mut controller = CylinderPositionController::new(ControlGains::P(1_000_000), 0);
    controller.new_setpoint(1_500_000);
    assert_eq!(controller.control_signal(1_000_000), 0);
    // An undershooting target is clamped to zero.
    controller.new_setpoint(-500_000);
    assert_eq!(controller.control_signal(0), 0);
}

#[test]
fn new_setpoint_matches_fresh_controller() {
    // A controller that reached a setpoint through `new_setpoint` after prior
    // use behaves exactly like one freshly constructed there.
    let mut seasoned =
        CylinderPositionController::new(ControlGains::PI(1_000_000, 2_000_000), 900_000);
    let _ = seasoned.control_signal(100_000);
    let _ = seasoned.control_signal(750_000);
    seasoned.new_setpoint(300_000);
    let mut fresh =
        CylinderPositionController::new(ControlGains::PI(1_000_000, 2_000_000), 300_000);
    for measurement in [0i64, 450_000, 300_000, 1_000_000] {
        assert_eq!(seasoned.control_signal(measurement), fresh.control_signal(measurement));
    }
}

#[test]
fn proportional_controller_is_exact_at_setpoint() {
    // Exactness, not approximation: at the setpoint the signal is zero even
    // after arbitrary accumulated error.
    let mut controller = CylinderPositionController::new(ControlGains::P(3_141_592), 250_000);
    let _ = controller.control_signal(0);
    let _ = controller.control_signal(1_000_000);
    assert_eq!(controller.control_signal(250_000), 0);
}
