use vstd::arithmetic::div_mod::lemma_div_is_ordered;
use vstd::arithmetic::div_mod::lemma_div_multiples_vanish;
use vstd::arithmetic::div_mod::lemma_fundamental_div_mod;
use vstd::arithmetic::div_mod::lemma_fundamental_div_mod_converse_div;
use vstd::arithmetic::div_mod::lemma_mod_bound;
use vstd::prelude::*;

use crate::error::GetterResult;
use crate::error::MotorError;
use crate::error::MotorGroupError;
use crate::motor::apply_write;
use crate::motor::command_wf;
use crate::motor::flag_of;
use crate::motor::reading_of;
use crate::motor::write_outcome;
use crate::motor::BrakeMode;
use crate::motor::Direction;
use crate::motor::FlagKind;
use crate::motor::Gearset;
use crate::motor::Motor;
use crate::motor::MotorControl;
use crate::motor::Position;
use crate::motor::ReadKind;
use crate::motor::WriteCommand;
use crate::motor::READING_BOUND;

verus! {

/// How a group handles a failing motor while fanning out a write.
///
/// Reads are not affected: a read always attempts every motor.
#[derive(Clone, Copy, Debug, PartialEq, Eq, Structural)]
pub enum WriteErrorStrategy {
    /// Keep writing to the remaining motors after one fails; the call still
    /// reports every failure in its result.  This is the default.
    Ignore,
    /// Stop at the first failing motor; the motors after it are not
    /// attempted at all.
    Stop,
}

impl Default for WriteErrorStrategy {
    fn default() -> (r: Self)
        ensures
            r == WriteErrorStrategy::Ignore,
    {
        WriteErrorStrategy::Ignore
    }
}

/// The errors with which the motors of `ms` reject write command `c`, in
/// device order, one per rejecting motor.
pub open spec fn write_errors(ms: Seq<Motor>, c: WriteCommand) -> Seq<MotorError>
    decreases ms.len(),
{
    if ms.len() == 0 {
        Seq::empty()
    } else {
        let init = write_errors(ms.drop_last(), c);
        match write_outcome(ms.last(), c) {
            Some(e) => init.push(e),
            None => init,
        }
    }
}

/// A sequence of motors that all accept write command `c` collects no
/// errors.
pub proof fn lemma_write_errors_all_accept(ms: Seq<Motor>, c: WriteCommand)
    requires
        forall|j: int| 0 <= j < ms.len() ==> write_outcome(#[trigger] ms[j], c) is None,
    ensures
        write_errors(ms, c) == Seq::<MotorError>::empty(),
    decreases ms.len(),
{
    if ms.len() > 0 {
        lemma_write_errors_all_accept(ms.drop_last(), c);
    }
}

/// The index of the first motor of `ms` that rejects write command `c`, or
/// `ms.len()` if every motor accepts it.
pub open spec fn first_rejecting(ms: Seq<Motor>, c: WriteCommand) -> int
    decreases ms.len(),
{
    if ms.len() == 0 {
        0
    } else if write_outcome(ms[0], c) is Some {
        0
    } else {
        1 + first_rejecting(ms.subrange(1, ms.len() as int), c)
    }
}

/// `first_rejecting` is exactly the index of the first motor whose outcome
/// is an error: everything before it accepts, and it rejects unless it is
/// the end of the sequence.
pub proof fn lemma_first_rejecting(ms: Seq<Motor>, c: WriteCommand, k: int)
    requires
        0 <= k <= ms.len(),
        forall|j: int| 0 <= j < k ==> write_outcome(#[trigger] ms[j], c) is None,
        k < ms.len() ==> write_outcome(ms[k], c) is Some,
    ensures
        first_rejecting(ms, c) == k,
    decreases ms.len(),
{
    if ms.len() == 0 {
    } else if k == 0 {
    } else {
        let rest = ms.subrange(1, ms.len() as int);
        assert forall|j: int| 0 <= j < k - 1 implies write_outcome(
            #[trigger] rest[j],
            c,
        ) is None by {
            assert(rest[j] == ms[j + 1]);
        }
        if k - 1 < rest.len() {
            assert(rest[k - 1] == ms[k]);
        }
        lemma_first_rejecting(rest, c, k - 1);
    }
}

/// With exactly one rejecting motor, a write collects exactly that motor's
/// error and no other.
pub proof fn lemma_write_errors_single_rejection(ms: Seq<Motor>, c: WriteCommand, i1: int)
    requires
        0 <= i1 < ms.len(),
        write_outcome(ms[i1], c) is Some,
        forall|j: int|
            0 <= j < ms.len() && j != i1 ==> write_outcome(#[trigger] ms[j], c) is None,
    ensures
        write_outcome(ms[i1], c) matches Some(e1) && write_errors(ms, c) == seq![e1],
    decreases ms.len(),
{
    if i1 == ms.len() - 1 {
        lemma_write_errors_all_accept(ms.drop_last(), c);
        match write_outcome(ms[i1], c) {
            Some(e1) => {
                assert(write_errors(ms, c) =~= seq![e1]);
            },
            None => {},
        }
    } else {
        assert forall|j: int|
            0 <= j < ms.drop_last().len() && j != i1 implies write_outcome(
            #[trigger] ms.drop_last()[j],
            c,
        ) is None by {
            assert(ms.drop_last()[j] == ms[j]);
        }
        assert(ms.drop_last()[i1] == ms[i1]);
        lemma_write_errors_single_rejection(ms.drop_last(), c, i1);
    }
}

/// With exactly two rejecting motors, a write collects exactly their two
/// errors, in device order.
pub proof fn lemma_write_errors_two_rejections(ms: Seq<Motor>, c: WriteCommand, i1: int, i2: int)
    requires
        0 <= i1 < i2 < ms.len(),
        write_outcome(ms[i1], c) is Some,
        write_outcome(ms[i2], c) is Some,
        forall|j: int|
            0 <= j < ms.len() && j != i1 && j != i2 ==> write_outcome(#[trigger] ms[j], c) is None,
    ensures
        write_outcome(ms[i1], c) matches Some(e1) && write_outcome(ms[i2], c) matches Some(e2)
            && write_errors(ms, c) == seq![e1, e2],
    decreases ms.len(),
{
    if i2 == ms.len() - 1 {
        assert forall|j: int|
            0 <= j < ms.drop_last().len() && j != i1 implies write_outcome(
            #[trigger] ms.drop_last()[j],
            c,
        ) is None by {
            assert(ms.drop_last()[j] == ms[j]);
        }
        assert(ms.drop_last()[i1] == ms[i1]);
        lemma_write_errors_single_rejection(ms.drop_last(), c, i1);
        match (write_outcome(ms[i1], c), write_outcome(ms[i2], c)) {
            (Some(e1), Some(e2)) => {
                assert(write_errors(ms, c) =~= seq![e1, e2]);
            },
            _ => {},
        }
    } else {
        assert forall|j: int|
            0 <= j < ms.drop_last().len() && j != i1 && j != i2 implies write_outcome(
            #[trigger] ms.drop_last()[j],
            c,
        ) is None by {
            assert(ms.drop_last()[j] == ms[j]);
        }
        assert(ms.drop_last()[i1] == ms[i1]);
        assert(ms.drop_last()[i2] == ms[i2]);
        lemma_write_errors_two_rejections(ms.drop_last(), c, i1, i2);
    }
}

/// The faults with which the motors of `ms` reject a read, in device order,
/// one per faulted motor.  Reads are not affected by the write strategy:
/// every motor is always attempted.
pub open spec fn read_errors(ms: Seq<Motor>) -> Seq<MotorError>
    decreases ms.len(),
{
    if ms.len() == 0 {
        Seq::empty()
    } else {
        let init = read_errors(ms.drop_last());
        match ms.last().fault {
            Some(e) => init.push(e),
            None => init,
        }
    }
}

/// The number of motors of `ms` that answer reads (those without a fault).
pub open spec fn ok_count(ms: Seq<Motor>) -> int
    decreases ms.len(),
{
    if ms.len() == 0 {
        0
    } else {
        ok_count(ms.drop_last()) + if ms.last().fault is None {
            1int
        } else {
            0int
        }
    }
}

/// The sum of the readings of kind `k` over the motors of `ms` that answer.
pub open spec fn ok_sum(ms: Seq<Motor>, k: ReadKind) -> int
    decreases ms.len(),
{
    if ms.len() == 0 {
        0
    } else {
        ok_sum(ms.drop_last(), k) + if ms.last().fault is None {
            reading_of(ms.last(), k) as int
        } else {
            0int
        }
    }
}

/// A failing read reports exactly one error per faulted motor: the number
/// of collected errors and the number of answering motors always add up to
/// the size of the group.
pub proof fn lemma_read_errors_count(ms: Seq<Motor>)
    ensures
        0 <= ok_count(ms) <= ms.len(),
        read_errors(ms).len() + ok_count(ms) == ms.len(),
    decreases ms.len(),
{
    if ms.len() > 0 {
        lemma_read_errors_count(ms.drop_last());
    }
}

/// What every numeric read of a group guarantees, given the group `g`, the
/// reading `k` that was fanned out and the returned result `r`.
///
/// Every motor is attempted.  With no faulted motor the call returns the
/// average of all readings; with some faulted motors it fails, carrying
/// their faults in device order and the average over the motors that
/// answered; with every motor faulted it fails with no result at all.
/// Averages divide the accumulated sum by the number of answering motors,
/// rounding towards negative infinity.
pub open spec fn read_post(g: MotorGroup, k: ReadKind, r: GetterResult<i64>) -> bool {
    let ms = g.motors@;
    let errs = read_errors(ms);
    let cnt = ok_count(ms);
    let total = ok_sum(ms, k);
    if errs.len() == 0 {
        r == Ok::<i64, MotorGroupError<MotorError, i64>>(((total / cnt) as i64))
    } else if cnt > 0 {
        &&& r matches Err(e)
        &&& e.errors@ == errs
        &&& e.result == Some(((total / cnt) as i64))
    } else {
        &&& r matches Err(e)
        &&& e.errors@ == errs
        &&& e.result is None
    }
}

/// What the position read of a group guarantees: as [`read_post`], with the
/// averaged tick count carried as a [`Position`].
pub open spec fn position_read_post(g: MotorGroup, r: GetterResult<Position>) -> bool {
    let ms = g.motors@;
    let errs = read_errors(ms);
    let cnt = ok_count(ms);
    let total = ok_sum(ms, ReadKind::Position);
    if errs.len() == 0 {
        r == Ok::<Position, MotorGroupError<MotorError, Position>>(
            Position { ticks: ((total / cnt) as i64) },
        )
    } else if cnt > 0 {
        &&& r matches Err(e)
        &&& e.errors@ == errs
        &&& e.result == Some(Position { ticks: ((total / cnt) as i64) })
    } else {
        &&& r matches Err(e)
        &&& e.errors@ == errs
        &&& e.result is None
    }
}

/// What every boolean flag read of a group guarantees, given the group `g`,
/// the flag `k` and the returned result `r`.
///
/// The aggregate is a logical OR: as soon as some answering motor reports
/// the flag, the call returns `true`, whatever the other motors do.  With
/// no motor reporting the flag, the call returns `false` when every motor
/// answered, and fails with every fault (in device order) otherwise — a
/// missing answer makes a negative result ambiguous, so no partial result
/// is attached.
pub open spec fn flag_post(
    g: MotorGroup,
    k: FlagKind,
    r: Result<bool, MotorGroupError<MotorError>>,
) -> bool {
    let ms = g.motors@;
    if exists|i: int|
        0 <= i < ms.len() && (#[trigger] ms[i]).fault is None && flag_of(ms[i], k) {
        r == Ok::<bool, MotorGroupError<MotorError>>(true)
    } else if read_errors(ms).len() == 0 {
        r == Ok::<bool, MotorGroupError<MotorError>>(false)
    } else {
        &&& r matches Err(e)
        &&& e.errors@ == read_errors(ms)
        &&& e.result is None
    }
}

/// The largest per-motor maximum voltage over `ms`, in millivolts.
pub open spec fn group_max_voltage(ms: Seq<Motor>) -> int
    decreases ms.len(),
{
    if ms.len() == 0 {
        0
    } else {
        let rest = group_max_voltage(ms.drop_last());
        let v = ms.last().spec_max_voltage() as int;
        if v > rest {
            v
        } else {
            rest
        }
    }
}

/// Divides an accumulated sum of readings by the number of motors that
/// contributed, rounding towards negative infinity.
///
/// The bound on `sum` is [`READING_BOUND`] (2^47) times `count`, written
/// with the literal coefficient so the solver keeps the arithmetic linear.
fn average(sum: i128, count: usize) -> (r: i64)
    requires
        count >= 1,
        -140737488355328 * (count as int) <= sum <= 140737488355328 * (count as int),
    ensures
        r == sum as int / count as int,
        -READING_BOUND <= r <= READING_BOUND,
{
    proof {
        assert(READING_BOUND == 140737488355328i64);
    }
    let c = count as u128;
    if sum >= 0 {
        let q = (sum as u128) / c;
        proof {
            lemma_div_is_ordered(sum as int, 140737488355328 * (count as int), count as int);
            lemma_div_multiples_vanish(140737488355328, count as int);
            assert((count as int) * 140737488355328 == 140737488355328 * (count as int));
        }
        q as i64
    } else {
        let m = (-sum) as u128;
        let q = (m + c - 1) / c;
        proof {
            let s = sum as int;
            let cc = count as int;
            assert(m == -s);
            lemma_fundamental_div_mod(s, cc);
            lemma_mod_bound(s, cc);
            assert((-(s / cc)) * cc == -(cc * (s / cc))) by (nonlinear_arith);
            assert(m as int + cc - 1 == (-(s / cc)) * cc + (cc - 1 - s % cc));
            lemma_fundamental_div_mod_converse_div(
                m as int + cc - 1,
                cc,
                -(s / cc),
                cc - 1 - s % cc,
            );
            assert(q == -(s / cc));
            lemma_div_is_ordered(-140737488355328 * cc, s, cc);
            lemma_div_multiples_vanish(-140737488355328, cc);
            assert(cc * -140737488355328 == -140737488355328 * cc);
        }
        let qi = q as i64;
        -qi
    }
}

/// A group of motors controlled together: writes are fanned out under the
/// configured [`WriteErrorStrategy`], reads are averaged, flags are OR-ed.
///
/// A well-formed group holds at least one motor; the collection is fixed at
/// construction (motors are never added or removed afterwards).
#[derive(Debug)]
pub struct MotorGroup {
    /// The motors, in the order they were supplied.
    pub motors: Vec<Motor>,
    /// The strategy applied by write operations.
    pub write_error_strategy: WriteErrorStrategy,
}

/// What every write operation of a group guarantees, given the group before
/// the call (`pre`), after it (`post`), the command `c` that was fanned out
/// and the returned result `r`.
///
/// Under `Ignore`, every motor is attempted: each ends in its written state
/// (rejecting motors are unchanged), and the call fails exactly when some
/// motor rejected, carrying every rejection in device order.  Under `Stop`,
/// only the motors up to and including the first rejecting one are
/// attempted; the motors after it are untouched, and the single rejection
/// is the whole error list.
pub open spec fn write_post(
    pre: MotorGroup,
    post: MotorGroup,
    c: WriteCommand,
    r: Result<(), MotorGroupError<MotorError>>,
) -> bool {
    let ms = pre.motors@;
    let errs = write_errors(ms, c);
    let k = first_rejecting(ms, c);
    &&& post.write_error_strategy == pre.write_error_strategy
    &&& post.motors@.len() == ms.len()
    &&& match pre.write_error_strategy {
        WriteErrorStrategy::Ignore => {
            &&& forall|j: int|
                0 <= j < ms.len() ==> post.motors@[j] == apply_write(#[trigger] ms[j], c)
            &&& if errs.len() == 0 {
                r == Ok::<(), MotorGroupError<MotorError>>(())
            } else {
                &&& r matches Err(e)
                &&& e.errors@ == errs
                &&& e.result is None
            }
        },
        WriteErrorStrategy::Stop => {
            &&& forall|j: int|
                0 <= j < ms.len() ==> post.motors@[j] == if j < k {
                    apply_write(#[trigger] ms[j], c)
                } else {
                    ms[j]
                }
            &&& if k == ms.len() {
                r == Ok::<(), MotorGroupError<MotorError>>(())
            } else {
                &&& r matches Err(e)
                &&& write_outcome(ms[k], c) matches Some(e0) && e.errors@ == seq![e0]
                &&& e.result is None
            }
        },
    }
}

impl MotorGroup {
    /// A well-formed group is non-empty and holds only well-formed motors.
    pub open spec fn wf(&self) -> bool {
        &&& self.motors@.len() >= 1
        &&& forall|i: int| 0 <= i < self.motors@.len() ==> (#[trigger] self.motors@[i]).wf()
    }

    /// Creates a group from a non-empty collection of motors, in the given
    /// order, with the default (`Ignore`) write strategy.
    pub fn new(motors: Vec<Motor>) -> (r: MotorGroup)
        requires
            motors@.len() >= 1,
            forall|i: int| 0 <= i < motors@.len() ==> (#[trigger] motors@[i]).wf(),
        ensures
            r.motors@ == motors@,
            r.write_error_strategy == WriteErrorStrategy::Ignore,
            r.wf(),
    {
        MotorGroup { motors, write_error_strategy: WriteErrorStrategy::default() }
    }

    /// Sets the strategy applied by all subsequent write operations, and
    /// returns the group itself for chaining.
    pub fn write_error_strategy(&mut self, mode: WriteErrorStrategy) -> (ret: &mut Self)
        ensures
            ret.motors@ == old(self).motors@,
            ret.write_error_strategy == mode,
            *final(self) == *final(ret),
    {
        self.write_error_strategy = mode;
        self
    }

    /// Fans write command `c` out over the motors under the configured
    /// strategy, collecting every rejection in device order.
    fn write_fanout(&mut self, c: WriteCommand) -> (r: Result<(), MotorGroupError<MotorError>>)
        requires
            command_wf(c),
            old(self).wf(),
        ensures
            write_post(*old(self), *final(self), c, r),
            final(self).wf(),
    {
        let ghost ms = old(self).motors@;
        let n = self.motors.len();
        let mut errors: Vec<MotorError> = Vec::new();
        let mut i: usize = 0;
        while i < n
            invariant
                command_wf(c),
                i <= n,
                n == self.motors@.len(),
                ms.len() == n,
                ms == old(self).motors@,
                self.write_error_strategy == old(self).write_error_strategy,
                forall|j: int| i <= j < n ==> self.motors@[j] == ms[j],
                forall|j: int| 0 <= j < i ==> self.motors@[j] == apply_write(#[trigger] ms[j], c),
                forall|j: int| 0 <= j < n ==> (#[trigger] self.motors@[j]).wf(),
                errors@ == write_errors(ms.take(i as int), c),
                self.write_error_strategy is Stop ==> forall|j: int|
                    0 <= j < i ==> write_outcome(#[trigger] ms[j], c) is None,
            decreases n - i,
        {
            let mut m = self.motors[i];
            let res = m.apply(c);
            self.motors[i] = m;
            i += 1;
            proof {
                assert(ms.take(i as int).drop_last() =~= ms.take(i - 1));
                assert(ms.take(i as int).last() == ms[i - 1]);
            }
            if let Err(e) = res {
                errors.push(e);
                if matches!(self.write_error_strategy, WriteErrorStrategy::Stop) {
                    proof {
                        lemma_first_rejecting(ms, c, i - 1);
                        lemma_write_errors_all_accept(ms.take(i - 1), c);
                        assert(write_errors(ms.take(i as int), c) =~= seq![e]);
                    }
                    return Err(MotorGroupError::new(errors));
                }
            }
        }
        proof {
            assert(ms.take(n as int) =~= ms);
            if self.write_error_strategy is Stop {
                lemma_first_rejecting(ms, c, n as int);
                lemma_write_errors_all_accept(ms, c);
            }
        }
        if errors.len() == 0 {
            Ok(())
        } else {
            Err(MotorGroupError::new(errors))
        }
    }

    /// Sets the target every motor of the group should attempt to reach.
    pub fn set_target(&mut self, target: MotorControl) -> (r: Result<
        (),
        MotorGroupError<MotorError>,
    >)
        requires
            old(self).wf(),
        ensures
            write_post(*old(self), *final(self), WriteCommand::SetTarget(target), r),
            final(self).wf(),
    {
        self.write_fanout(WriteCommand::SetTarget(target))
    }

    /// Sets every motor's target to the given brake mode.
    pub fn brake(&mut self, mode: BrakeMode) -> (r: Result<(), MotorGroupError<MotorError>>)
        requires
            old(self).wf(),
        ensures
            write_post(*old(self), *final(self), WriteCommand::Brake(mode), r),
            final(self).wf(),
    {
        self.write_fanout(WriteCommand::Brake(mode))
    }

    /// Spins every motor of the group at a target velocity, in RPM.
    pub fn set_velocity(&mut self, rpm: i32) -> (r: Result<(), MotorGroupError<MotorError>>)
        requires
            old(self).wf(),
        ensures
            write_post(*old(self), *final(self), WriteCommand::SetVelocity(rpm), r),
            final(self).wf(),
    {
        self.write_fanout(WriteCommand::SetVelocity(rpm))
    }

    /// Sets every motor's raw output voltage, in millivolts.
    pub fn set_voltage(&mut self, volts: i64) -> (r: Result<(), MotorGroupError<MotorError>>)
        requires
            old(self).wf(),
        ensures
            write_post(*old(self), *final(self), WriteCommand::SetVoltage(volts), r),
            final(self).wf(),
    {
        self.write_fanout(WriteCommand::SetVoltage(volts))
    }

    /// Sets an absolute position target, with a cruise velocity in RPM, for
    /// every motor of the group.
    pub fn set_position_target(&mut self, position: Position, velocity: i32) -> (r: Result<
        (),
        MotorGroupError<MotorError>,
    >)
        requires
            old(self).wf(),
        ensures
            write_post(
                *old(self),
                *final(self),
                WriteCommand::SetPositionTarget(position, velocity),
                r,
            ),
            final(self).wf(),
    {
        self.write_fanout(WriteCommand::SetPositionTarget(position, velocity))
    }

    /// Changes the cruise velocity of an ongoing profiled movement on every
    /// motor of the group; motors not following one are unaffected.
    pub fn set_profiled_velocity(&mut self, velocity: i32) -> (r: Result<
        (),
        MotorGroupError<MotorError>,
    >)
        requires
            old(self).wf(),
        ensures
            write_post(*old(self), *final(self), WriteCommand::SetProfiledVelocity(velocity), r),
            final(self).wf(),
    {
        self.write_fanout(WriteCommand::SetProfiledVelocity(velocity))
    }

    /// Sets the gearset of every 11W motor of the group; a 5.5W motor
    /// rejects the write, since its gearset is fixed.
    pub fn set_gearset(&mut self, gearset: Gearset) -> (r: Result<(), MotorGroupError<MotorError>>)
        requires
            old(self).wf(),
        ensures
            write_post(*old(self), *final(self), WriteCommand::SetGearset(gearset), r),
            final(self).wf(),
    {
        self.write_fanout(WriteCommand::SetGearset(gearset))
    }

    /// Resets every motor's reported position to zero.
    pub fn reset_position(&mut self) -> (r: Result<(), MotorGroupError<MotorError>>)
        requires
            old(self).wf(),
        ensures
            write_post(*old(self), *final(self), WriteCommand::ResetPosition, r),
            final(self).wf(),
    {
        self.write_fanout(WriteCommand::ResetPosition)
    }

    /// Overwrites every motor's reported position with the given value.
    pub fn set_position(&mut self, position: Position) -> (r: Result<
        (),
        MotorGroupError<MotorError>,
    >)
        requires
            old(self).wf(),
            -READING_BOUND <= position.ticks <= READING_BOUND,
        ensures
            write_post(*old(self), *final(self), WriteCommand::SetPosition(position), r),
            final(self).wf(),
    {
        self.write_fanout(WriteCommand::SetPosition(position))
    }

    /// Sets every motor's current limit, in milliamperes.
    pub fn set_current_limit(&mut self, limit: i64) -> (r: Result<(), MotorGroupError<MotorError>>)
        requires
            old(self).wf(),
        ensures
            write_post(*old(self), *final(self), WriteCommand::SetCurrentLimit(limit), r),
            final(self).wf(),
    {
        self.write_fanout(WriteCommand::SetCurrentLimit(limit))
    }

    /// Sets every motor's voltage limit, in millivolts.
    pub fn set_voltage_limit(&mut self, limit: i64) -> (r: Result<(), MotorGroupError<MotorError>>)
        requires
            old(self).wf(),
        ensures
            write_post(*old(self), *final(self), WriteCommand::SetVoltageLimit(limit), r),
            final(self).wf(),
    {
        self.write_fanout(WriteCommand::SetVoltageLimit(limit))
    }

    /// Sets every motor's positive direction.
    pub fn set_direction(&mut self, direction: Direction) -> (r: Result<
        (),
        MotorGroupError<MotorError>,
    >)
        requires
            old(self).wf(),
        ensures
            write_post(*old(self), *final(self), WriteCommand::SetDirection(direction), r),
            final(self).wf(),
    {
        self.write_fanout(WriteCommand::SetDirection(direction))
    }

    /// Fans a numeric read out over every motor, averaging the readings of
    /// the motors that answer and collecting every fault in device order.
    fn read_fanout(&self, k: ReadKind) -> (r: GetterResult<i64>)
        requires
            self.wf(),
        ensures
            read_post(*self, k, r),
    {
        let ghost ms = self.motors@;
        let n = self.motors.len();
        let mut errors: Vec<MotorError> = Vec::new();
        let mut sum: i128 = 0;
        let mut count: usize = 0;
        let mut i: usize = 0;
        while i < n
            invariant
                self.wf(),
                i <= n,
                n == ms.len(),
                ms == self.motors@,
                count <= i,
                errors@ == read_errors(ms.take(i as int)),
                count == ok_count(ms.take(i as int)),
                sum == ok_sum(ms.take(i as int), k),
                -140737488355328 * (count as int) <= sum <= 140737488355328 * (count as int),
            decreases n - i,
        {
            let m = self.motors[i];
            i += 1;
            proof {
                assert(ms.take(i as int).drop_last() =~= ms.take(i - 1));
                assert(ms.take(i as int).last() == ms[i - 1]);
                assert(ms[i - 1].wf());
                assert(READING_BOUND == 140737488355328i64);
            }
            match m.read(k) {
                Ok(v) => {
                    sum = sum + (v as i128);
                    count = count + 1;
                },
                Err(e) => errors.push(e),
            }
        }
        proof {
            assert(ms.take(n as int) =~= ms);
            lemma_read_errors_count(ms);
        }
        if errors.len() == 0 {
            Ok(average(sum, count))
        } else if count > 0 {
            let avg = average(sum, count);
            Err(MotorGroupError::with_result(errors, avg))
        } else {
            Err(MotorGroupError::with_empty_result(errors))
        }
    }

    /// The average estimated angular velocity of the group, in milli-RPM.
    pub fn velocity(&self) -> (r: GetterResult<i64>)
        requires
            self.wf(),
        ensures
            read_post(*self, ReadKind::Velocity, r),
    {
        self.read_fanout(ReadKind::Velocity)
    }

    /// The average power drawn by a motor of the group, in milliwatts.
    pub fn power(&self) -> (r: GetterResult<i64>)
        requires
            self.wf(),
        ensures
            read_post(*self, ReadKind::Power, r),
    {
        self.read_fanout(ReadKind::Power)
    }

    /// The average output torque of the group, in milli-newton-metres.
    pub fn torque(&self) -> (r: GetterResult<i64>)
        requires
            self.wf(),
        ensures
            read_post(*self, ReadKind::Torque, r),
    {
        self.read_fanout(ReadKind::Torque)
    }

    /// The average output voltage of the group, in millivolts.
    pub fn voltage(&self) -> (r: GetterResult<i64>)
        requires
            self.wf(),
        ensures
            read_post(*self, ReadKind::Voltage, r),
    {
        self.read_fanout(ReadKind::Voltage)
    }

    /// The average position of the group, in encoder ticks.
    pub fn position(&self) -> (r: GetterResult<Position>)
        requires
            self.wf(),
        ensures
            position_read_post(*self, r),
    {
        match self.read_fanout(ReadKind::Position) {
            Ok(t) => Ok(Position { ticks: t }),
            Err(e) => match e.result {
                Some(t) => Err(MotorGroupError::with_result(e.errors, Position { ticks: t })),
                None => Err(MotorGroupError::with_empty_result(e.errors)),
            },
        }
    }

    /// The average current drawn by a motor of the group, in milliamperes.
    pub fn current(&self) -> (r: GetterResult<i64>)
        requires
            self.wf(),
        ensures
            read_post(*self, ReadKind::Current, r),
    {
        self.read_fanout(ReadKind::Current)
    }

    /// The average efficiency of the group, in thousandths of a percent.
    pub fn efficiency(&self) -> (r: GetterResult<i64>)
        requires
            self.wf(),
        ensures
            read_post(*self, ReadKind::Efficiency, r),
    {
        self.read_fanout(ReadKind::Efficiency)
    }

    /// The average temperature of the group, in millidegrees Celsius.
    pub fn temperature(&self) -> (r: GetterResult<i64>)
        requires
            self.wf(),
        ensures
            read_post(*self, ReadKind::Temperature, r),
    {
        self.read_fanout(ReadKind::Temperature)
    }

    /// Fans a boolean flag read out over the motors, returning `true` as
    /// soon as an answering motor reports the flag.
    fn flag_fanout(&self, k: FlagKind) -> (r: Result<bool, MotorGroupError<MotorError>>)
        requires
            self.wf(),
        ensures
            flag_post(*self, k, r),
    {
        let ghost ms = self.motors@;
        let n = self.motors.len();
        let mut errors: Vec<MotorError> = Vec::new();
        let mut i: usize = 0;
        while i < n
            invariant
                i <= n,
                n == ms.len(),
                ms == self.motors@,
                errors@ == read_errors(ms.take(i as int)),
                forall|j: int|
                    0 <= j < i ==> !((#[trigger] ms[j]).fault is None && flag_of(ms[j], k)),
            decreases n - i,
        {
            let m = self.motors[i];
            i += 1;
            proof {
                assert(ms.take(i as int).drop_last() =~= ms.take(i - 1));
                assert(ms.take(i as int).last() == ms[i - 1]);
            }
            match m.flag(k) {
                Ok(true) => {
                    proof {
                        assert(ms[i - 1].fault is None && flag_of(ms[i - 1], k));
                    }
                    return Ok(true);
                },
                Ok(false) => {},
                Err(e) => errors.push(e),
            }
        }
        proof {
            assert(ms.take(n as int) =~= ms);
        }
        if errors.len() == 0 {
            Ok(false)
        } else {
            Err(MotorGroupError::new(errors))
        }
    }

    /// Whether any motor of the group reports being over temperature.
    pub fn is_over_temperature(&self) -> (r: Result<bool, MotorGroupError<MotorError>>)
        requires
            self.wf(),
        ensures
            flag_post(*self, FlagKind::OverTemperature, r),
    {
        self.flag_fanout(FlagKind::OverTemperature)
    }

    /// Whether any motor of the group reports drawing more than its current
    /// limit.
    pub fn is_over_current(&self) -> (r: Result<bool, MotorGroupError<MotorError>>)
        requires
            self.wf(),
        ensures
            flag_post(*self, FlagKind::OverCurrent, r),
    {
        self.flag_fanout(FlagKind::OverCurrent)
    }

    /// Whether any motor of the group reports a driver fault.
    pub fn is_driver_fault(&self) -> (r: Result<bool, MotorGroupError<MotorError>>)
        requires
            self.wf(),
        ensures
            flag_post(*self, FlagKind::DriverFault, r),
    {
        self.flag_fanout(FlagKind::DriverFault)
    }

    /// Whether any motor of the group reports a driver over-current
    /// condition.
    pub fn is_driver_over_current(&self) -> (r: Result<bool, MotorGroupError<MotorError>>)
        requires
            self.wf(),
        ensures
            flag_post(*self, FlagKind::DriverOverCurrent, r),
    {
        self.flag_fanout(FlagKind::DriverOverCurrent)
    }

    /// Whether the group holds a 5.5W EXP Smart Motor.  Never fails.
    pub fn has_exp(&self) -> (r: bool)
        ensures
            r == exists|i: int|
                0 <= i < self.motors@.len() && (#[trigger] self.motors@[i]).family is Exp,
    {
        let n = self.motors.len();
        let mut i: usize = 0;
        while i < n
            invariant
                i <= n,
                n == self.motors@.len(),
                forall|j: int| 0 <= j < i ==> !((#[trigger] self.motors@[j]).family is Exp),
            decreases n - i,
        {
            if self.motors[i].is_exp() {
                return true;
            }
            i += 1;
        }
        false
    }

    /// Whether the group holds an 11W V5 Smart Motor.  Never fails.
    pub fn has_v5(&self) -> (r: bool)
        ensures
            r == exists|i: int|
                0 <= i < self.motors@.len() && (#[trigger] self.motors@[i]).family is V5,
    {
        let n = self.motors.len();
        let mut i: usize = 0;
        while i < n
            invariant
                i <= n,
                n == self.motors@.len(),
                forall|j: int| 0 <= j < i ==> !((#[trigger] self.motors@[j]).family is V5),
            decreases n - i,
        {
            if self.motors[i].is_v5() {
                return true;
            }
            i += 1;
        }
        false
    }

    /// The maximum output voltage of the group, in millivolts: the largest
    /// of the per-motor maxima.  Never fails.
    pub fn max_voltage(&self) -> (r: i64)
        requires
            self.wf(),
        ensures
            r == group_max_voltage(self.motors@),
            forall|i: int|
                0 <= i < self.motors@.len() ==> (#[trigger] self.motors@[i]).spec_max_voltage()
                    <= r,
            exists|i: int|
                0 <= i < self.motors@.len() && (#[trigger] self.motors@[i]).spec_max_voltage()
                    == r,
    {
        let ghost ms = self.motors@;
        let n = self.motors.len();
        let mut best: i64 = self.motors[0].max_voltage();
        let mut i: usize = 1;
        proof {
            assert(ms.take(1).drop_last() =~= ms.take(0));
            assert(ms.take(1).last() == ms[0]);
            assert(ms.take(0).len() == 0);
            assert(group_max_voltage(ms.take(0)) == 0);
        }
        while i < n
            invariant
                1 <= i <= n,
                n == ms.len(),
                ms == self.motors@,
                best == group_max_voltage(ms.take(i as int)),
                forall|j: int| 0 <= j < i ==> (#[trigger] ms[j]).spec_max_voltage() <= best,
                exists|j: int| 0 <= j < i && (#[trigger] ms[j]).spec_max_voltage() == best,
            decreases n - i,
        {
            let v = self.motors[i].max_voltage();
            i += 1;
            proof {
                assert(ms.take(i as int).drop_last() =~= ms.take(i - 1));
                assert(ms.take(i as int).last() == ms[i - 1]);
            }
            if v > best {
                best = v;
            }
        }
        proof {
            assert(ms.take(n as int) =~= ms);
        }
        best
    }
}

} // verus!
