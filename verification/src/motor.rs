use vstd::prelude::*;

use crate::error::MotorError;

verus! {

/// Bound on the magnitude of every stored reading (and of the position
/// tick count), so that a sum of readings over a group of any size fits in
/// an `i128` accumulator.  This is 2^47: far beyond any physical reading in
/// milli-units, and 2^47 * 2^64 (the largest possible group length) still
/// fits in an `i128`.
pub const READING_BOUND: i64 = 140_737_488_355_328;

/// Maximum output voltage of an 11W (V5) motor, in millivolts.
pub const V5_MAX_VOLTAGE: i64 = 12_000;

/// Maximum output voltage of a 5.5W (EXP) motor, in millivolts.
pub const EXP_MAX_VOLTAGE: i64 = 8_000;

/// The hardware family a motor belongs to.
#[derive(Clone, Copy, Debug, PartialEq, Eq)]
pub enum MotorFamily {
    /// An 11W V5 Smart Motor, with a swappable gearset.
    V5,
    /// A 5.5W EXP Smart Motor, with a fixed gearset.
    Exp,
}

/// The internal gearing of an 11W motor.
#[derive(Clone, Copy, Debug, PartialEq, Eq)]
pub enum Gearset {
    /// 100 RPM gearing.
    Red,
    /// 200 RPM gearing.
    Green,
    /// 600 RPM gearing.
    Blue,
}

/// The direction a motor treats as positive.
#[derive(Clone, Copy, Debug, PartialEq, Eq)]
pub enum Direction {
    Forward,
    Reverse,
}

/// How a motor should resist motion when told to brake.
#[derive(Clone, Copy, Debug, PartialEq, Eq)]
pub enum BrakeMode {
    /// Freewheel.
    Coast,
    /// Resist motion passively.
    Brake,
    /// Hold the current position actively.
    Hold,
}

/// An angular position, as a signed tick count at the motor's internal
/// encoder resolution.  Averages over a group divide the accumulated tick
/// count by the number of motors, rounding towards negative infinity.
#[derive(Clone, Copy, Debug, PartialEq, Eq, Structural)]
pub struct Position {
    /// The signed number of encoder ticks.
    pub ticks: i64,
}

/// The target a motor has been told to reach.
#[derive(Clone, Copy, Debug, PartialEq, Eq)]
pub enum MotorControl {
    /// A raw output voltage, in millivolts.
    Voltage(i64),
    /// A velocity held by the motor's internal controller, in RPM.
    Velocity(i32),
    /// An absolute position target, with a cruise velocity in RPM.
    Position(Position, i32),
    /// A brake mode.
    Brake(BrakeMode),
}

/// Selects one of the numeric readings a motor reports.
#[derive(Clone, Copy, Debug, PartialEq, Eq)]
pub enum ReadKind {
    /// Estimated angular velocity, in milli-RPM.
    Velocity,
    /// Drawn power, in milliwatts.
    Power,
    /// Output torque, in milli-newton-metres.
    Torque,
    /// Output voltage, in millivolts.
    Voltage,
    /// Angular position, in encoder ticks.
    Position,
    /// Drawn current, in milliamperes.
    Current,
    /// Efficiency, in thousandths of a percent.
    Efficiency,
    /// Temperature, in millidegrees Celsius.
    Temperature,
}

/// Selects one of the boolean status flags a motor reports.
#[derive(Clone, Copy, Debug, PartialEq, Eq)]
pub enum FlagKind {
    OverTemperature,
    OverCurrent,
    DriverFault,
    DriverOverCurrent,
}

/// A single write operation, as fanned out by the group to each motor.
#[derive(Clone, Copy, Debug, PartialEq, Eq)]
pub enum WriteCommand {
    /// Set the motor's target.
    SetTarget(MotorControl),
    /// Set the motor's target to a brake mode.
    Brake(BrakeMode),
    /// Set the motor's target to a velocity, in RPM.
    SetVelocity(i32),
    /// Set the motor's target to a raw voltage, in millivolts.
    SetVoltage(i64),
    /// Set the motor's target to an absolute position, with a cruise
    /// velocity in RPM.
    SetPositionTarget(Position, i32),
    /// Change the cruise velocity of an ongoing profiled movement.
    SetProfiledVelocity(i32),
    /// Change the gearset of an 11W motor.
    SetGearset(Gearset),
    /// Reset the reported position to zero.
    ResetPosition,
    /// Overwrite the reported position.
    SetPosition(Position),
    /// Set the current limit, in milliamperes.
    SetCurrentLimit(i64),
    /// Set the voltage limit, in millivolts.
    SetVoltageLimit(i64),
    /// Set the motor's positive direction.
    SetDirection(Direction),
}

/// A single addressable motor, modelled by the plain values the group logic
/// reads and writes: its classification, its commanded state, the readings
/// and flags it currently reports, and the fault — if any — that makes its
/// operations fail.
///
/// A faulted motor rejects every read and write with its fault; a healthy
/// motor accepts them (except that changing the gearset of a 5.5W motor
/// always fails).  Code that bridges to real hardware keeps these fields in
/// step with what the device reports.
#[derive(Clone, Copy, Debug, PartialEq, Eq)]
pub struct Motor {
    /// The hardware family, fixed at construction.
    pub family: MotorFamily,
    /// The configured gearset.
    pub gearset: Gearset,
    /// The configured positive direction.
    pub direction: Direction,
    /// The fault the motor currently reports, if any.
    pub fault: Option<MotorError>,
    /// The target last written.
    pub target: MotorControl,
    /// The reported angular position.
    pub position: Position,
    /// The configured current limit, in milliamperes.
    pub current_limit: i64,
    /// The configured voltage limit, in millivolts.
    pub voltage_limit: i64,
    /// Estimated angular velocity, in milli-RPM.
    pub velocity: i64,
    /// Drawn power, in milliwatts.
    pub power: i64,
    /// Output torque, in milli-newton-metres.
    pub torque: i64,
    /// Output voltage, in millivolts.
    pub voltage: i64,
    /// Drawn current, in milliamperes.
    pub current: i64,
    /// Efficiency, in thousandths of a percent.
    pub efficiency: i64,
    /// Temperature, in millidegrees Celsius.
    pub temperature: i64,
    /// Whether the motor reports being over temperature.
    pub over_temperature: bool,
    /// Whether the motor reports drawing more than its current limit.
    pub over_current: bool,
    /// Whether the motor's driver reports a fault.
    pub driver_fault: bool,
    /// Whether the motor's driver reports an over-current condition.
    pub driver_over_current: bool,
}

/// The reading of kind `k` that motor `m` currently reports.
pub open spec fn reading_of(m: Motor, k: ReadKind) -> i64 {
    match k {
        ReadKind::Velocity => m.velocity,
        ReadKind::Power => m.power,
        ReadKind::Torque => m.torque,
        ReadKind::Voltage => m.voltage,
        ReadKind::Position => m.position.ticks,
        ReadKind::Current => m.current,
        ReadKind::Efficiency => m.efficiency,
        ReadKind::Temperature => m.temperature,
    }
}

/// The status flag of kind `k` that motor `m` currently reports.
pub open spec fn flag_of(m: Motor, k: FlagKind) -> bool {
    match k {
        FlagKind::OverTemperature => m.over_temperature,
        FlagKind::OverCurrent => m.over_current,
        FlagKind::DriverFault => m.driver_fault,
        FlagKind::DriverOverCurrent => m.driver_over_current,
    }
}

/// The error, if any, with which motor `m` rejects write command `c`: its
/// current fault, or the fixed-gearset rule for 5.5W motors.
pub open spec fn write_outcome(m: Motor, c: WriteCommand) -> Option<MotorError> {
    match m.fault {
        Some(e) => Some(e),
        None => match c {
            WriteCommand::SetGearset(_) => {
                if m.family is Exp {
                    Some(MotorError::SetGearsetUnsupported)
                } else {
                    None
                }
            },
            _ => None,
        },
    }
}

/// The state of motor `m` after write command `c`: updated when the motor
/// accepts the write, unchanged when it rejects it.
pub open spec fn apply_write(m: Motor, c: WriteCommand) -> Motor {
    if write_outcome(m, c) is Some {
        m
    } else {
        match c {
            WriteCommand::SetTarget(t) => Motor { target: t, ..m },
            WriteCommand::Brake(mode) => Motor { target: MotorControl::Brake(mode), ..m },
            WriteCommand::SetVelocity(rpm) => Motor { target: MotorControl::Velocity(rpm), ..m },
            WriteCommand::SetVoltage(mv) => Motor { target: MotorControl::Voltage(mv), ..m },
            WriteCommand::SetPositionTarget(p, v) => Motor {
                target: MotorControl::Position(p, v),
                ..m
            },
            WriteCommand::SetProfiledVelocity(v) => match m.target {
                MotorControl::Position(p, _) => Motor { target: MotorControl::Position(p, v), ..m },
                _ => m,
            },
            WriteCommand::SetGearset(g) => Motor { gearset: g, ..m },
            WriteCommand::ResetPosition => Motor { position: Position { ticks: 0 }, ..m },
            WriteCommand::SetPosition(p) => Motor { position: p, ..m },
            WriteCommand::SetCurrentLimit(l) => Motor { current_limit: l, ..m },
            WriteCommand::SetVoltageLimit(l) => Motor { voltage_limit: l, ..m },
            WriteCommand::SetDirection(d) => Motor { direction: d, ..m },
        }
    }
}

/// The result a motor hands back for write command `c`.
pub open spec fn write_result(m: Motor, c: WriteCommand) -> Result<(), MotorError> {
    match write_outcome(m, c) {
        Some(e) => Err(e),
        None => Ok(()),
    }
}

/// A position payload of a write command must respect the reading bound, so
/// that the position a motor stores keeps fitting the group's accumulator.
pub open spec fn command_wf(c: WriteCommand) -> bool {
    match c {
        WriteCommand::SetPosition(p) => -READING_BOUND <= p.ticks <= READING_BOUND,
        _ => true,
    }
}

impl Motor {
    /// Every reading a motor reports stays within [`READING_BOUND`].
    pub open spec fn wf(&self) -> bool {
        &&& -READING_BOUND <= self.velocity <= READING_BOUND
        &&& -READING_BOUND <= self.power <= READING_BOUND
        &&& -READING_BOUND <= self.torque <= READING_BOUND
        &&& -READING_BOUND <= self.voltage <= READING_BOUND
        &&& -READING_BOUND <= self.position.ticks <= READING_BOUND
        &&& -READING_BOUND <= self.current <= READING_BOUND
        &&& -READING_BOUND <= self.efficiency <= READING_BOUND
        &&& -READING_BOUND <= self.temperature <= READING_BOUND
    }

    /// The state of a freshly constructed, healthy motor: no fault, zeroed
    /// readings and limits, all flags clear, a zero-voltage target.
    pub open spec fn initial(family: MotorFamily, gearset: Gearset, direction: Direction) -> Motor {
        Motor {
            family,
            gearset,
            direction,
            fault: None,
            target: MotorControl::Voltage(0),
            position: Position { ticks: 0 },
            current_limit: 0,
            voltage_limit: 0,
            velocity: 0,
            power: 0,
            torque: 0,
            voltage: 0,
            current: 0,
            efficiency: 0,
            temperature: 0,
            over_temperature: false,
            over_current: false,
            driver_fault: false,
            driver_over_current: false,
        }
    }

    /// Creates an 11W (V5) motor with the given gearset and direction.
    pub fn new(gearset: Gearset, direction: Direction) -> (r: Motor)
        ensures
            r == Motor::initial(MotorFamily::V5, gearset, direction),
            r.wf(),
    {
        Motor {
            family: MotorFamily::V5,
            gearset,
            direction,
            fault: None,
            target: MotorControl::Voltage(0),
            position: Position { ticks: 0 },
            current_limit: 0,
            voltage_limit: 0,
            velocity: 0,
            power: 0,
            torque: 0,
            voltage: 0,
            current: 0,
            efficiency: 0,
            temperature: 0,
            over_temperature: false,
            over_current: false,
            driver_fault: false,
            driver_over_current: false,
        }
    }

    /// Creates a 5.5W (EXP) motor with the given direction.  EXP motors have
    /// a fixed gearset, reported as green.
    pub fn new_exp(direction: Direction) -> (r: Motor)
        ensures
            r == Motor::initial(MotorFamily::Exp, Gearset::Green, direction),
            r.wf(),
    {
        Motor {
            family: MotorFamily::Exp,
            gearset: Gearset::Green,
            direction,
            fault: None,
            target: MotorControl::Voltage(0),
            position: Position { ticks: 0 },
            current_limit: 0,
            voltage_limit: 0,
            velocity: 0,
            power: 0,
            torque: 0,
            voltage: 0,
            current: 0,
            efficiency: 0,
            temperature: 0,
            over_temperature: false,
            over_current: false,
            driver_fault: false,
            driver_over_current: false,
        }
    }

    /// Whether this is a 5.5W EXP Smart Motor.
    pub fn is_exp(&self) -> (r: bool)
        ensures
            r == (self.family is Exp),
    {
        matches!(self.family, MotorFamily::Exp)
    }

    /// Whether this is an 11W V5 Smart Motor.
    pub fn is_v5(&self) -> (r: bool)
        ensures
            r == (self.family is V5),
    {
        matches!(self.family, MotorFamily::V5)
    }

    /// The maximum output voltage for this motor's family, in millivolts.
    /// Never fails.
    pub fn max_voltage(&self) -> (r: i64)
        ensures
            r == self.spec_max_voltage(),
    {
        match self.family {
            MotorFamily::Exp => EXP_MAX_VOLTAGE,
            MotorFamily::V5 => V5_MAX_VOLTAGE,
        }
    }

    /// The maximum output voltage for this motor's family, in millivolts.
    pub open spec fn spec_max_voltage(&self) -> i64 {
        match self.family {
            MotorFamily::Exp => EXP_MAX_VOLTAGE,
            MotorFamily::V5 => V5_MAX_VOLTAGE,
        }
    }

    /// Performs one write command: rejected with the motor's fault (or the
    /// fixed-gearset rule), or applied to the commanded state.
    pub fn apply(&mut self, c: WriteCommand) -> (r: Result<(), MotorError>)
        requires
            command_wf(c),
        ensures
            *final(self) == apply_write(*old(self), c),
            r == write_result(*old(self), c),
            old(self).wf() ==> final(self).wf(),
    {
        if let Some(e) = self.fault {
            return Err(e);
        }
        match c {
            WriteCommand::SetTarget(t) => {
                self.target = t;
            },
            WriteCommand::Brake(mode) => {
                self.target = MotorControl::Brake(mode);
            },
            WriteCommand::SetVelocity(rpm) => {
                self.target = MotorControl::Velocity(rpm);
            },
            WriteCommand::SetVoltage(mv) => {
                self.target = MotorControl::Voltage(mv);
            },
            WriteCommand::SetPositionTarget(p, v) => {
                self.target = MotorControl::Position(p, v);
            },
            WriteCommand::SetProfiledVelocity(v) => {
                if let MotorControl::Position(p, _) = self.target {
                    self.target = MotorControl::Position(p, v);
                }
            },
            WriteCommand::SetGearset(g) => {
                if matches!(self.family, MotorFamily::Exp) {
                    return Err(MotorError::SetGearsetUnsupported);
                }
                self.gearset = g;
            },
            WriteCommand::ResetPosition => {
                self.position = Position { ticks: 0 };
            },
            WriteCommand::SetPosition(p) => {
                self.position = p;
            },
            WriteCommand::SetCurrentLimit(l) => {
                self.current_limit = l;
            },
            WriteCommand::SetVoltageLimit(l) => {
                self.voltage_limit = l;
            },
            WriteCommand::SetDirection(d) => {
                self.direction = d;
            },
        }
        Ok(())
    }

    /// Reads one numeric value: the motor's fault if it has one, the stored
    /// reading otherwise.
    pub fn read(&self, k: ReadKind) -> (r: Result<i64, MotorError>)
        ensures
            r == (match self.fault {
                Some(e) => Err::<i64, MotorError>(e),
                None => Ok(reading_of(*self, k)),
            }),
    {
        if let Some(e) = self.fault {
            return Err(e);
        }
        Ok(
            match k {
                ReadKind::Velocity => self.velocity,
                ReadKind::Power => self.power,
                ReadKind::Torque => self.torque,
                ReadKind::Voltage => self.voltage,
                ReadKind::Position => self.position.ticks,
                ReadKind::Current => self.current,
                ReadKind::Efficiency => self.efficiency,
                ReadKind::Temperature => self.temperature,
            },
        )
    }

    /// Reads one status flag: the motor's fault if it has one, the stored
    /// flag otherwise.
    pub fn flag(&self, k: FlagKind) -> (r: Result<bool, MotorError>)
        ensures
            r == (match self.fault {
                Some(e) => Err::<bool, MotorError>(e),
                None => Ok(flag_of(*self, k)),
            }),
    {
        if let Some(e) = self.fault {
            return Err(e);
        }
        Ok(
            match k {
                FlagKind::OverTemperature => self.over_temperature,
                FlagKind::OverCurrent => self.over_current,
                FlagKind::DriverFault => self.driver_fault,
                FlagKind::DriverOverCurrent => self.driver_over_current,
            },
        )
    }

    /// Makes the motor report a fault, so every subsequent read and write
    /// fails with it until the fault is cleared.
    pub fn set_fault(&mut self, e: MotorError)
        ensures
            *final(self) == (Motor { fault: Some(e), ..*old(self) }),
    {
        self.fault = Some(e);
    }

    /// Clears the motor's fault, so subsequent reads and writes succeed.
    pub fn clear_fault(&mut self)
        ensures
            *final(self) == (Motor { fault: None::<MotorError>, ..*old(self) }),
    {
        self.fault = None;
    }

    /// Overwrites the reading of kind `k` that the motor reports.
    pub fn set_reading(&mut self, k: ReadKind, value: i64)
        requires
            -READING_BOUND <= value <= READING_BOUND,
        ensures
            *final(self) == with_reading(*old(self), k, value),
            old(self).wf() ==> final(self).wf(),
    {
        match k {
            ReadKind::Velocity => {
                self.velocity = value;
            },
            ReadKind::Power => {
                self.power = value;
            },
            ReadKind::Torque => {
                self.torque = value;
            },
            ReadKind::Voltage => {
                self.voltage = value;
            },
            ReadKind::Position => {
                self.position = Position { ticks: value };
            },
            ReadKind::Current => {
                self.current = value;
            },
            ReadKind::Efficiency => {
                self.efficiency = value;
            },
            ReadKind::Temperature => {
                self.temperature = value;
            },
        }
    }

    /// Overwrites the status flag of kind `k` that the motor reports.
    pub fn set_flag(&mut self, k: FlagKind, value: bool)
        ensures
            *final(self) == with_flag(*old(self), k, value),
            old(self).wf() ==> final(self).wf(),
    {
        match k {
            FlagKind::OverTemperature => {
                self.over_temperature = value;
            },
            FlagKind::OverCurrent => {
                self.over_current = value;
            },
            FlagKind::DriverFault => {
                self.driver_fault = value;
            },
            FlagKind::DriverOverCurrent => {
                self.driver_over_current = value;
            },
        }
    }
}

/// Motor `m` with the reading of kind `k` replaced by `value`.
pub open spec fn with_reading(m: Motor, k: ReadKind, value: i64) -> Motor {
    match k {
        ReadKind::Velocity => Motor { velocity: value, ..m },
        ReadKind::Power => Motor { power: value, ..m },
        ReadKind::Torque => Motor { torque: value, ..m },
        ReadKind::Voltage => Motor { voltage: value, ..m },
        ReadKind::Position => Motor { position: Position { ticks: value }, ..m },
        ReadKind::Current => Motor { current: value, ..m },
        ReadKind::Efficiency => Motor { efficiency: value, ..m },
        ReadKind::Temperature => Motor { temperature: value, ..m },
    }
}

/// Motor `m` with the status flag of kind `k` replaced by `value`.
pub open spec fn with_flag(m: Motor, k: FlagKind, value: bool) -> Motor {
    match k {
        FlagKind::OverTemperature => Motor { over_temperature: value, ..m },
        FlagKind::OverCurrent => Motor { over_current: value, ..m },
        FlagKind::DriverFault => Motor { driver_fault: value, ..m },
        FlagKind::DriverOverCurrent => Motor { driver_over_current: value, ..m },
    }
}

} // verus!
