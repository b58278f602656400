use robot_hal::{HardwareError, Motor, MotorDirection, N20Motor, SimulatedMotor};

const RANGE_MSG: &str = "Speed must be between 0.0 and 1.0";

fn fresh() -> SimulatedMotor {
    SimulatedMotor::new(18, 23, 24).expect("simulated construction cannot fail")
}

#[test]
fn sim_construction_always_succeeds() {
    assert!(SimulatedMotor::new(18, 23, 24).is_ok());
    assert!(SimulatedMotor::new(0, 0, 0).is_ok());
    assert!(SimulatedMotor::new(255, 254, 253).is_ok());
    assert!(SimulatedMotor::new(7, 91, 200).is_ok());
}

#[test]
fn sim_initial_state_is_stopped() {
    let motor = fresh();
    assert_eq!(motor.current_direction(), MotorDirection::Stop);
    assert_eq!(f32::from_bits(motor.current_speed()), 0.0);
}

#[test]
fn sim_set_speed_in_range_reads_back_exactly() {
    let mut motor = fresh();
    for value in [0.0f32, 0.25, 0.5, 0.75, 1.0, 1.0e-40, f32::MIN_POSITIVE] {
        assert!(motor.set_speed(value.to_bits()).is_ok());
        assert_eq!(motor.current_speed(), value.to_bits());
        assert_eq!(f32::from_bits(motor.current_speed()), value);
    }
}

#[test]
fn sim_negative_zero_speed_is_in_range() {
    let mut motor = fresh();
    assert!(motor.set_speed((-0.0f32).to_bits()).is_ok());
    assert_eq!(f32::from_bits(motor.current_speed()), 0.0);
}

#[test]
fn sim_set_speed_out_of_range_rejected_and_state_kept() {
    let mut motor = fresh();
    assert!(motor.set_speed(0.5f32.to_bits()).is_ok());
    for value in [-0.1f32, 1.1, -1.0, 2.0, f32::NAN, -f32::NAN, f32::INFINITY, f32::NEG_INFINITY]
    {
        match motor.set_speed(value.to_bits()) {
            Err(HardwareError::MotorError(msg)) => assert_eq!(msg, RANGE_MSG),
            other => panic!("expected a motor error, got {:?}", other),
        }
        assert_eq!(f32::from_bits(motor.current_speed()), 0.5);
        assert_eq!(motor.current_direction(), MotorDirection::Stop);
    }
}

#[test]
fn sim_overspeed_rejected_from_fresh_motor() {
    let mut motor = fresh();
    match motor.set_speed(1.5f32.to_bits()) {
        Err(HardwareError::MotorError(msg)) => assert_eq!(msg, RANGE_MSG),
        other => panic!("expected a motor error, got {:?}", other),
    }
    assert_eq!(f32::from_bits(motor.current_speed()), 0.0);
}

#[test]
fn sim_set_direction_applies_every_direction() {
    let mut motor = fresh();
    for direction in
        [MotorDirection::Forward, MotorDirection::Backward, MotorDirection::Stop,
            MotorDirection::Forward]
    {
        assert!(motor.set_direction(direction).is_ok());
        assert_eq!(motor.current_direction(), direction);
    }
}

#[test]
fn sim_set_direction_keeps_speed() {
    let mut motor = fresh();
    assert!(motor.set_speed(0.75f32.to_bits()).is_ok());
    assert!(motor.set_direction(MotorDirection::Backward).is_ok());
    assert_eq!(f32::from_bits(motor.current_speed()), 0.75);
}

#[test]
fn sim_drive_then_stop_scenario() {
    let mut motor = SimulatedMotor::new(18, 23, 24).expect("construction");
    assert!(motor.set_speed(0.5f32.to_bits()).is_ok());
    assert_eq!(f32::from_bits(motor.current_speed()), 0.5);
    assert!(motor.set_direction(MotorDirection::Forward).is_ok());
    assert!(motor.stop().is_ok());
    assert_eq!(motor.current_direction(), MotorDirection::Stop);
    assert_eq!(f32::from_bits(motor.current_speed()), 0.0);
}

#[test]
fn stop_matches_set_direction_then_set_speed() {
    let mut stopped = fresh();
    assert!(stopped.set_speed(0.9f32.to_bits()).is_ok());
    assert!(stopped.set_direction(MotorDirection::Backward).is_ok());
    assert!(stopped.stop().is_ok());

    let mut composed = fresh();
    assert!(composed.set_speed(0.9f32.to_bits()).is_ok());
    assert!(composed.set_direction(MotorDirection::Backward).is_ok());
    assert!(composed.set_direction(MotorDirection::Stop).is_ok());
    assert!(composed.set_speed(0.0f32.to_bits()).is_ok());

    assert_eq!(stopped.current_direction(), composed.current_direction());
    assert_eq!(stopped.current_speed(), composed.current_speed());
}

#[test]
fn sim_say_hello_changes_nothing() {
    let mut motor = fresh();
    assert!(motor.set_speed(0.25f32.to_bits()).is_ok());
    assert!(motor.say_hello().is_ok());
    assert_eq!(f32::from_bits(motor.current_speed()), 0.25);
    assert_eq!(motor.current_direction(), MotorDirection::Stop);
}

#[test]
fn hardware_construction_failure_is_a_gpio_error() {
    // On a machine without the GPIO peripheral, acquisition fails; the
    // failure must surface as a GPIO error, never another kind. On a board
    // that does expose the pins, construction yields a stopped motor.
    match N20Motor::new(18, 23, 24) {
        Err(HardwareError::GpioError(msg)) => assert!(!msg.is_empty()),
        Err(other) => panic!("expected a GPIO error, got {:?}", other),
        Ok(motor) => {
            assert_eq!(motor.current_direction(), MotorDirection::Stop);
            assert_eq!(f32::from_bits(motor.current_speed()), 0.0);
        }
    }
}
