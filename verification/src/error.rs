use vstd::prelude::*;

verus! {

/// An error reported by a single motor.
///
/// The group never constructs these itself (except for the gearset rule, see
/// [`crate::Motor`]); it collects and forwards what the individual motors
/// report.
#[derive(Clone, Copy, Debug, PartialEq, Eq)]
pub enum MotorError {
    /// The motor is not currently connected to its port.
    Port,
    /// Communication with the motor was not possible.
    Busy,
    /// The motor's gearset cannot be changed (5.5W motors have a fixed
    /// gearset).
    SetGearsetUnsupported,
    /// Some other device-specific fault, identified by a raw code.
    Other(u32),
}

/// The result of a group read operation: either the aggregate value, or a
/// [`MotorGroupError`] carrying every per-motor error together with the
/// partial aggregate over the motors that did answer.
pub type GetterResult<T> = Result<T, MotorGroupError<MotorError, T>>;

/// An error produced when one or more motors of a group fail during a single
/// group operation.
///
/// It carries the full list of per-motor errors, in device order, and — for
/// read operations — an optional partial result computed from the motors that
/// succeeded.  A well-formed `MotorGroupError` always holds at least one
/// error.
#[derive(Debug, PartialEq, Eq)]
pub struct MotorGroupError<E, T = ()> {
    /// Every error encountered, in device order.
    pub errors: Vec<E>,
    /// The partial aggregate over the motors that succeeded, if any did.
    pub result: Option<T>,
}

impl<E, T> MotorGroupError<E, T> {
    /// A `MotorGroupError` is well-formed when it holds at least one error.
    pub open spec fn wf(&self) -> bool {
        self.errors@.len() >= 1
    }

    /// Creates an aggregate error with no attached result, for write
    /// operations.
    pub fn new(errors: Vec<E>) -> (r: Self)
        requires
            errors@.len() >= 1,
        ensures
            r.errors@ == errors@,
            r.result is None,
            r.wf(),
    {
        MotorGroupError { errors, result: None }
    }

    /// Creates an aggregate error carrying the partial result computed from
    /// the motors that succeeded.
    pub fn with_result(errors: Vec<E>, result: T) -> (r: Self)
        requires
            errors@.len() >= 1,
        ensures
            r.errors@ == errors@,
            r.result == Some(result),
            r.wf(),
    {
        MotorGroupError { errors, result: Some(result) }
    }

    /// Creates an aggregate error with explicitly no result, for reads on
    /// which every motor failed.
    pub fn with_empty_result(errors: Vec<E>) -> (r: Self)
        requires
            errors@.len() >= 1,
        ensures
            r.errors@ == errors@,
            r.result is None,
            r.wf(),
    {
        MotorGroupError { errors, result: None }
    }

    /// Returns the partial result of the failed group operation, if at least
    /// one motor succeeded.
    pub fn result(&self) -> (r: &Option<T>)
        ensures
            *r == self.result,
    {
        &self.result
    }

    /// The earliest error encountered, by device order.
    pub fn first(&self) -> (r: &E)
        requires
            self.wf(),
        ensures
            *r == self.errors@[0],
    {
        &self.errors[0]
    }
}

impl<T> MotorGroupError<MotorError, T> {
    /// Whether any collected error reports a busy motor (a transient
    /// condition: communication was not possible).
    pub fn has_busy_error(&self) -> (r: bool)
        ensures
            r == exists|i: int| 0 <= i < self.errors@.len() && self.errors@[i] is Busy,
    {
        let n = self.errors.len();
        let mut i: usize = 0;
        while i < n
            invariant
                i <= n,
                n == self.errors@.len(),
                forall|j: int| 0 <= j < i ==> !(self.errors@[j] is Busy),
            decreases n - i,
        {
            if matches!(self.errors[i], MotorError::Busy) {
                return true;
            }
            i += 1;
        }
        false
    }

    /// Whether any collected error reports a disconnected port (a structural
    /// condition: the motor is not plugged in).
    pub fn has_port_error(&self) -> (r: bool)
        ensures
            r == exists|i: int| 0 <= i < self.errors@.len() && self.errors@[i] is Port,
    {
        let n = self.errors.len();
        let mut i: usize = 0;
        while i < n
            invariant
                i <= n,
                n == self.errors@.len(),
                forall|j: int| 0 <= j < i ==> !(self.errors@[j] is Port),
            decreases n - i,
        {
            if matches!(self.errors[i], MotorError::Port) {
                return true;
            }
            i += 1;
        }
        false
    }

    /// Collapses the aggregate into its earliest error, discarding the rest,
    /// for callers that propagate failure through a single-error channel.
    pub fn into_first(self) -> (r: MotorError)
        requires
            self.wf(),
        ensures
            r == self.errors@[0],
    {
        self.errors[0]
    }
}

} // verus!
