use motorgroup::BrakeMode;
use motorgroup::Direction;
use motorgroup::FlagKind;
use motorgroup::Gearset;
use motorgroup::Motor;
use motorgroup::MotorControl;
use motorgroup::MotorError;
use motorgroup::MotorGroup;
use motorgroup::Position;
use motorgroup::ReadKind;
use motorgroup::WriteErrorStrategy;

#[test]
fn write_error_strategy_default_is_ignore() {
    // Default strategy should be Ignore
    assert_eq!(WriteErrorStrategy::default(), WriteErrorStrategy::Ignore);
}

#[test]
fn motor_group_compiles() {
    let mg_1 = MotorGroup::new(vec![
        Motor::new(Gearset::Green, Direction::Forward),
        Motor::new(Gearset::Green, Direction::Forward),
    ]);
    println!("{:?}", mg_1);
}

fn healthy(n: usize) -> Vec<Motor> {
    let mut v = Vec::new();
    for _ in 0..n {
        v.push(Motor::new(Gearset::Green, Direction::Forward));
    }
    v
}

#[test]
fn set_voltage_ignore_writes_around_failure() {
    // 3 motors; the middle one is disconnected.  Under the default (Ignore)
    // strategy the write still reaches motors 0 and 2.
    let mut motors = healthy(3);
    motors[1].set_fault(MotorError::Port);
    let mut g = MotorGroup::new(motors);

    let err = g.set_voltage(5000).unwrap_err();
    assert_eq!(err.errors.len(), 1);
    assert_eq!(err.errors[0], MotorError::Port);
    assert!(err.has_port_error());
    assert!(!err.has_busy_error());

    assert_eq!(g.motors[0].target, MotorControl::Voltage(5000));
    assert_eq!(g.motors[1].target, MotorControl::Voltage(0));
    assert_eq!(g.motors[2].target, MotorControl::Voltage(5000));
}

#[test]
fn set_voltage_stop_leaves_later_motors_untouched() {
    // Same 3 motors under Stop: motor 0 receives the write, motor 1 fails
    // and halts the fan-out, motor 2 is never touched.
    let mut motors = healthy(3);
    motors[1].set_fault(MotorError::Port);
    let mut g = MotorGroup::new(motors);
    g.write_error_strategy(WriteErrorStrategy::Stop);

    let err = g.set_voltage(5000).unwrap_err();
    assert_eq!(err.errors.len(), 1);
    assert_eq!(err.errors[0], MotorError::Port);

    assert_eq!(g.motors[0].target, MotorControl::Voltage(5000));
    assert_eq!(g.motors[1].target, MotorControl::Voltage(0));
    assert_eq!(g.motors[2].target, MotorControl::Voltage(0));
}

#[test]
fn write_ignore_collects_every_failure_in_order() {
    let mut motors = healthy(4);
    motors[0].set_fault(MotorError::Busy);
    motors[2].set_fault(MotorError::Port);
    let mut g = MotorGroup::new(motors);

    let err = g.set_velocity(100).unwrap_err();
    assert_eq!(err.errors, vec![MotorError::Busy, MotorError::Port]);
    assert_eq!(err.first(), &MotorError::Busy);

    assert_eq!(g.motors[1].target, MotorControl::Velocity(100));
    assert_eq!(g.motors[3].target, MotorControl::Velocity(100));
}

#[test]
fn write_all_succeed_returns_ok() {
    let mut g = MotorGroup::new(healthy(2));
    assert!(g.brake(BrakeMode::Hold).is_ok());
    assert_eq!(g.motors[0].target, MotorControl::Brake(BrakeMode::Hold));
    assert_eq!(g.motors[1].target, MotorControl::Brake(BrakeMode::Hold));
}

#[test]
fn temperature_partial_failure_averages_successes() {
    // 4 motors: one busy, the others report 40.000, 42.000 and 44.000
    // millidegrees Celsius; the partial result is their average.
    let mut motors = healthy(4);
    motors[0].set_reading(ReadKind::Temperature, 40_000);
    motors[1].set_reading(ReadKind::Temperature, 42_000);
    motors[2].set_reading(ReadKind::Temperature, 44_000);
    motors[3].set_fault(MotorError::Busy);
    let g = MotorGroup::new(motors);

    let err = g.temperature().unwrap_err();
    assert_eq!(err.result(), &Some(42_000));
    assert_eq!(err.errors.len(), 1);
    assert!(err.has_busy_error());
}

#[test]
fn velocity_full_success_averages_all() {
    let mut motors = healthy(3);
    motors[0].set_reading(ReadKind::Velocity, 100_000);
    motors[1].set_reading(ReadKind::Velocity, 200_000);
    motors[2].set_reading(ReadKind::Velocity, 300_000);
    let g = MotorGroup::new(motors);
    assert_eq!(g.velocity(), Ok(200_000));
}

#[test]
fn read_average_rounds_towards_negative_infinity() {
    let mut motors = healthy(3);
    motors[0].set_reading(ReadKind::Velocity, 0);
    motors[1].set_reading(ReadKind::Velocity, 0);
    motors[2].set_reading(ReadKind::Velocity, -1);
    let g = MotorGroup::new(motors);
    // -1 / 3 rounds down to -1, not up to 0.
    assert_eq!(g.velocity(), Ok(-1));
}

#[test]
fn read_total_failure_has_no_result() {
    let mut motors = healthy(3);
    motors[0].set_fault(MotorError::Port);
    motors[1].set_fault(MotorError::Busy);
    motors[2].set_fault(MotorError::Other(9));
    let g = MotorGroup::new(motors);

    let err = g.power().unwrap_err();
    assert_eq!(err.result(), &None);
    assert_eq!(err.errors.len(), 3);
    assert_eq!(
        err.errors,
        vec![MotorError::Port, MotorError::Busy, MotorError::Other(9)]
    );
}

#[test]
fn numeric_read_getters_report_their_reading() {
    let mut motors = healthy(1);
    motors[0].set_reading(ReadKind::Power, 11_000);
    motors[0].set_reading(ReadKind::Torque, 2_100);
    motors[0].set_reading(ReadKind::Voltage, 7_500);
    motors[0].set_reading(ReadKind::Current, 2_500);
    motors[0].set_reading(ReadKind::Efficiency, 65_000);
    let g = MotorGroup::new(motors);
    assert_eq!(g.power(), Ok(11_000));
    assert_eq!(g.torque(), Ok(2_100));
    assert_eq!(g.voltage(), Ok(7_500));
    assert_eq!(g.current(), Ok(2_500));
    assert_eq!(g.efficiency(), Ok(65_000));
}

#[test]
fn position_averages_ticks() {
    let mut motors = healthy(2);
    motors[0].set_reading(ReadKind::Position, 100);
    motors[1].set_reading(ReadKind::Position, 301);
    let g = MotorGroup::new(motors);
    assert_eq!(g.position(), Ok(Position { ticks: 200 }));
}

#[test]
fn position_partial_failure_carries_average_of_successes() {
    let mut motors = healthy(3);
    motors[0].set_reading(ReadKind::Position, 120);
    motors[1].set_reading(ReadKind::Position, 240);
    motors[2].set_fault(MotorError::Busy);
    let g = MotorGroup::new(motors);

    let err = g.position().unwrap_err();
    assert_eq!(err.result(), &Some(Position { ticks: 180 }));
    assert_eq!(err.errors.len(), 1);
}

#[test]
fn flag_or_short_circuits_past_earlier_errors() {
    // The first motor errors, the second reports the flag: the group answer
    // is still a plain `true`.
    let mut motors = healthy(3);
    motors[0].set_fault(MotorError::Busy);
    motors[1].set_flag(FlagKind::OverTemperature, true);
    let g = MotorGroup::new(motors);
    assert_eq!(g.is_over_temperature(), Ok(true));
}

#[test]
fn flag_all_false_without_errors_is_false() {
    let g = MotorGroup::new(healthy(3));
    assert_eq!(g.is_over_temperature(), Ok(false));
    assert_eq!(g.is_over_current(), Ok(false));
    assert_eq!(g.is_driver_fault(), Ok(false));
    assert_eq!(g.is_driver_over_current(), Ok(false));
}

#[test]
fn flag_no_true_with_errors_is_ambiguous() {
    let mut motors = healthy(3);
    motors[1].set_fault(MotorError::Busy);
    let g = MotorGroup::new(motors);

    let err = g.is_over_current().unwrap_err();
    assert_eq!(err.errors, vec![MotorError::Busy]);
    assert_eq!(err.result(), &None);
}

#[test]
fn each_flag_kind_is_reported() {
    let kinds = [
        FlagKind::OverTemperature,
        FlagKind::OverCurrent,
        FlagKind::DriverFault,
        FlagKind::DriverOverCurrent,
    ];
    for kind in kinds {
        let mut motors = healthy(2);
        motors[1].set_flag(kind, true);
        let g = MotorGroup::new(motors);
        let r = match kind {
            FlagKind::OverTemperature => g.is_over_temperature(),
            FlagKind::OverCurrent => g.is_over_current(),
            FlagKind::DriverFault => g.is_driver_fault(),
            FlagKind::DriverOverCurrent => g.is_driver_over_current(),
        };
        assert_eq!(r, Ok(true));
    }
}

#[test]
fn set_gearset_rejected_by_exp_motor() {
    let mut g = MotorGroup::new(vec![
        Motor::new(Gearset::Green, Direction::Forward),
        Motor::new_exp(Direction::Forward),
    ]);
    let err = g.set_gearset(Gearset::Red).unwrap_err();
    assert_eq!(err.errors, vec![MotorError::SetGearsetUnsupported]);
    // The 11W motor still took the new gearset.
    assert_eq!(g.motors[0].gearset, Gearset::Red);
    assert_eq!(g.motors[1].gearset, Gearset::Green);
}

#[test]
fn fault_takes_precedence_over_gearset_rule() {
    // A faulted 5.5W motor reports its fault, not the fixed-gearset rule.
    let mut motor = Motor::new_exp(Direction::Forward);
    motor.set_fault(MotorError::Other(42));
    let mut g = MotorGroup::new(vec![motor]);
    let err = g.set_gearset(Gearset::Blue).unwrap_err();
    assert_eq!(err.errors, vec![MotorError::Other(42)]);
}

#[test]
fn classification_and_max_voltage() {
    let mixed = MotorGroup::new(vec![
        Motor::new(Gearset::Blue, Direction::Forward),
        Motor::new_exp(Direction::Reverse),
    ]);
    assert!(mixed.has_exp());
    assert!(mixed.has_v5());
    assert_eq!(mixed.max_voltage(), 12_000);

    let exp_only = MotorGroup::new(vec![Motor::new_exp(Direction::Forward)]);
    assert!(exp_only.has_exp());
    assert!(!exp_only.has_v5());
    assert_eq!(exp_only.max_voltage(), 8_000);
}

#[test]
fn remaining_write_operations_apply_their_command() {
    let mut g = MotorGroup::new(healthy(2));

    assert!(g
        .set_target(MotorControl::Voltage(1_000))
        .is_ok());
    assert_eq!(g.motors[0].target, MotorControl::Voltage(1_000));

    assert!(g
        .set_position_target(Position { ticks: 3_600 }, 200)
        .is_ok());
    assert_eq!(
        g.motors[1].target,
        MotorControl::Position(Position { ticks: 3_600 }, 200)
    );

    // Profiled velocity only retargets motors following a position profile.
    assert!(g.set_profiled_velocity(150).is_ok());
    assert_eq!(
        g.motors[0].target,
        MotorControl::Position(Position { ticks: 3_600 }, 150)
    );

    assert!(g.set_position(Position { ticks: 720 }).is_ok());
    assert_eq!(g.motors[0].position, Position { ticks: 720 });

    assert!(g.reset_position().is_ok());
    assert_eq!(g.motors[1].position, Position { ticks: 0 });

    assert!(g.set_current_limit(2_500).is_ok());
    assert_eq!(g.motors[0].current_limit, 2_500);

    assert!(g.set_voltage_limit(8_000).is_ok());
    assert_eq!(g.motors[1].voltage_limit, 8_000);

    assert!(g.set_direction(Direction::Reverse).is_ok());
    assert_eq!(g.motors[0].direction, Direction::Reverse);
}

#[test]
fn strategy_setter_chains_and_switches_back() {
    let mut motors = healthy(2);
    motors[0].set_fault(MotorError::Port);
    let mut g = MotorGroup::new(motors);

    // Chained call, as the setter returns the group itself.
    let err = g
        .write_error_strategy(WriteErrorStrategy::Stop)
        .set_voltage(3_000)
        .unwrap_err();
    assert_eq!(err.errors.len(), 1);
    assert_eq!(g.motors[1].target, MotorControl::Voltage(0));

    // Back to Ignore: the later motor is attempted again.
    g.write_error_strategy(WriteErrorStrategy::Ignore);
    let err = g.set_voltage(3_000).unwrap_err();
    assert_eq!(err.errors.len(), 1);
    assert_eq!(g.motors[1].target, MotorControl::Voltage(3_000));
}

#[test]
fn single_motor_group_works() {
    let mut g = MotorGroup::new(healthy(1));
    assert!(g.set_voltage(1_234).is_ok());
    assert_eq!(g.motors[0].target, MotorControl::Voltage(1_234));
    assert_eq!(g.velocity(), Ok(0));
}

#[test]
fn cleared_fault_answers_again() {
    let mut motors = healthy(2);
    motors[0].set_fault(MotorError::Busy);
    let mut g = MotorGroup::new(motors);
    assert!(g.set_voltage(500).is_err());

    g.motors[0].clear_fault();
    assert!(g.set_voltage(500).is_ok());
    assert_eq!(g.motors[0].target, MotorControl::Voltage(500));
}
