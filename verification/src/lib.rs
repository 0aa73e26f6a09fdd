//! Group control for collections of smart motors.
//!
//! A [`MotorGroup`] owns an ordered, non-empty collection of [`Motor`]
//! handles and fans every operation out across them, so a set of motors
//! bolted to one mechanism can be commanded and queried as a single logical
//! unit:
//!
//! - **writes** (targets, limits, configuration) reach every motor under
//!   the configured [`WriteErrorStrategy`]: `Ignore` keeps going past a
//!   failing motor, `Stop` leaves the motors after the first failure
//!   untouched;
//! - **numeric reads** (velocity, power, temperature, ...) average the
//!   readings of the motors that answered;
//! - **boolean flag reads** (over-temperature, driver faults, ...) are a
//!   logical OR that returns `true` as soon as one motor reports the flag.
//!
//! A failing group call never loses information: every failing motor's
//! error is retained, in device order, in a [`MotorGroupError`], together
//! with the partial aggregate where one could be computed.
//!
//! Physical quantities are carried as fixed-point integers in milli-units
//! (millivolts, milliamperes, millidegrees Celsius, ...), and angular
//! positions as signed encoder tick counts.

mod error;
mod group;
mod motor;

pub use error::GetterResult;
pub use error::MotorError;
pub use error::MotorGroupError;
pub use motor::apply_write;
pub use motor::command_wf;
pub use motor::flag_of;
pub use motor::reading_of;
pub use motor::with_flag;
pub use motor::with_reading;
pub use motor::write_outcome;
pub use motor::write_result;
pub use motor::BrakeMode;
pub use motor::Direction;
pub use motor::FlagKind;
pub use motor::Gearset;
pub use motor::Motor;
pub use motor::MotorControl;
pub use motor::MotorFamily;
pub use motor::Position;
pub use motor::ReadKind;
pub use motor::WriteCommand;
pub use motor::EXP_MAX_VOLTAGE;
pub use motor::READING_BOUND;
pub use motor::V5_MAX_VOLTAGE;
pub use group::first_rejecting;
pub use group::flag_post;
pub use group::group_max_voltage;
pub use group::lemma_first_rejecting;
pub use group::lemma_read_errors_count;
pub use group::lemma_write_errors_all_accept;
pub use group::lemma_write_errors_single_rejection;
pub use group::lemma_write_errors_two_rejections;
pub use group::ok_count;
pub use group::ok_sum;
pub use group::position_read_post;
pub use group::read_errors;
pub use group::read_post;
pub use group::write_errors;
pub use group::write_post;
pub use group::MotorGroup;
pub use group::WriteErrorStrategy;
