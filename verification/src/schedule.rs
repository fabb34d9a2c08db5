//! The schedule: how long to wait before each reminder, and the state that
//! outlives a restart.
//!
//! The wait before reminder number `step` is `5 * step^2 + 1440` minutes: a
//! day, plus five minutes times the square of the step. The wait in seconds
//! fits a signed 64-bit count up to step `MAX_STEP` (175,341,305) and no
//! further; `StepCounter::next_wait` is defined up to there.

use vstd::prelude::*;
use crate::clock::{Timestamp, WaitDuration};

verus! {

/// The factor of the quadratic term, in minutes.
pub const FIVE_MINUTES: u64 = 5;

/// One day, in minutes: the part of every wait that does not grow.
pub const DAY: u64 = 1440;

/// The last step whose wait, in seconds, fits a signed 64-bit count.
pub const MAX_STEP: u64 = 175_341_305;

/// Seconds since the Unix epoch of the instant a timer starts from when there
/// is nothing to restore: 7 August 2019, 17:10:00 UTC.
pub const BASE_LINE_SECS: u64 = 1_565_197_800;

/// The wait before reminder number `step`, in minutes.
pub open spec fn wait_minutes(step: int) -> int {
    5 * step * step + 1440
}

/// The wait before reminder number `step`, in seconds.
pub open spec fn wait_secs(step: int) -> int {
    60 * wait_minutes(step)
}

/// The instant a timer starts from when there is nothing to restore.
pub open spec fn base_line() -> Timestamp {
    Timestamp { secs: BASE_LINE_SECS, nanos: 0 }
}

/// What is kept across restarts: the number of reminders sent so far and the
/// instant of the latest one.
#[derive(Clone, Copy, Debug, PartialEq, Eq, Structural)]
pub struct ScheduleState {
    pub step: u64,
    pub last_fired: Timestamp,
}

impl ScheduleState {
    pub open spec fn well_formed(&self) -> bool {
        self.last_fired.well_formed()
    }

    /// The state of a timer that has sent nothing yet.
    pub fn baseline() -> (r: ScheduleState)
        ensures
            r == (ScheduleState { step: 0, last_fired: base_line() }),
            r.well_formed(),
    {
        ScheduleState { step: 0, last_fired: Timestamp { secs: BASE_LINE_SECS, nanos: 0 } }
    }
}

/// The counter behind the schedule: the number of the reminder that was
/// scheduled last.
#[derive(Clone, Copy, Debug, PartialEq, Eq, Structural)]
pub struct StepCounter {
    pub value: u64,
}

impl View for StepCounter {
    type V = nat;

    open spec fn view(&self) -> nat {
        self.value as nat
    }
}

/// Steps up to `bound` have squares up to the square of `bound`.
proof fn lemma_square_bounded(v: int, bound: int)
    requires
        0 <= v <= bound,
    ensures
        0 <= v * v <= bound * bound,
{
    assert(0 <= v * v <= bound * bound) by (nonlinear_arith)
        requires
            0 <= v <= bound,
    ;
}

impl StepCounter {
    /// A fresh counter: nothing has been scheduled.
    pub fn new() -> (r: StepCounter)
        ensures
            r@ == 0,
    {
        StepCounter { value: 0 }
    }

    /// A counter that has scheduled `step` reminders.
    pub fn resume(step: u64) -> (r: StepCounter)
        ensures
            r@ == step,
    {
        StepCounter { value: step }
    }

    /// Whether the schedule has reached the step beyond which a wait no
    /// longer fits: `next_wait` may be called while this is false.
    pub fn exhausted(&self) -> (r: bool)
        ensures
            r == (self@ >= MAX_STEP),
    {
        self.value >= MAX_STEP
    }

    /// Advances the counter by one and returns the wait before the reminder
    /// with the new number.
    pub fn next_wait(&mut self) -> (d: WaitDuration)
        requires
            old(self)@ < MAX_STEP,
        ensures
            final(self)@ == value_after(old(self)@, 1),
            final(self)@ == old(self)@ + 1,
            d@ == wait_secs(final(self)@ as int),
            d.whole_minutes() == wait_minutes(final(self)@ as int),
    {
        let x: u64 = self.value + 1;
        proof {
            lemma_value_after(self@, 1);
            lemma_square_bounded(x as int, MAX_STEP as int);
            assert(5 * (x * x) == 5 * x * x) by (nonlinear_arith);
            assert(175_341_305int * 175_341_305int == 30_744_573_239_103_025int);
        }
        let minutes: u64 = FIVE_MINUTES * (x * x) + DAY;
        self.value = x;
        WaitDuration { secs: minutes * 60 }
    }
}

/// The value of a counter that stood at `from`, after `calls` calls of
/// `next_wait`.
pub open spec fn value_after(from: nat, calls: nat) -> nat
    decreases calls,
{
    if calls == 0 {
        from
    } else {
        value_after(from, (calls - 1) as nat) + 1
    }
}

/// The minutes that call number `n` of `next_wait` returns, the first call
/// being number 1, on a counter that stood at `from` before the first.
pub open spec fn nth_wait_minutes(from: nat, n: nat) -> int {
    wait_minutes(value_after(from, n) as int)
}

/// Call number `n` of `next_wait` on a fresh counter returns
/// `5 * n^2 + 1440` minutes: 1445, 1460, 1485 and so on.
pub proof fn lemma_nth_wait_from_fresh(n: nat)
    requires
        n >= 1,
    ensures
        value_after(0, n) == n,
        nth_wait_minutes(0, n) == 5 * n * n + 1440,
{
    lemma_value_after(0, n);
}

/// Each call of `next_wait` moves the counter on by one.
pub proof fn lemma_value_after(from: nat, calls: nat)
    ensures
        value_after(from, calls) == from + calls,
    decreases calls,
{
    if calls > 0 {
        lemma_value_after(from, (calls - 1) as nat);
    }
}

/// Up to the last step the wait, in seconds, fits a signed 64-bit count.
pub proof fn lemma_wait_fits(step: int)
    requires
        0 <= step <= MAX_STEP,
    ensures
        86400 <= wait_secs(step) <= 0x7fff_ffff_ffff_ffff,
{
    lemma_wait_grows(step, MAX_STEP as int);
    lemma_wait_grows(0, step);
    assert(175_341_305int * 175_341_305int == 30_744_573_239_103_025int);
    assert(5 * 175_341_305int * 175_341_305int == 5 * (175_341_305int * 175_341_305int));
}

/// Every wait is at least a day, and a later step never waits less.
pub proof fn lemma_wait_grows(a: int, b: int)
    requires
        0 <= a <= b,
    ensures
        1440 <= wait_minutes(a) <= wait_minutes(b),
{
    assert(0 <= a * a <= b * b) by (nonlinear_arith)
        requires
            0 <= a <= b,
    ;
    assert(5 * a * a == 5 * (a * a)) by (nonlinear_arith);
    assert(5 * b * b == 5 * (b * b)) by (nonlinear_arith);
}

} // verus!
