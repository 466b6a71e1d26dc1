//! The state of a progress bar at a moment in time.

use vstd::prelude::*;

use crate::estimator::{Estimator, EstimatorView};
use crate::position::{AtomicPosition, PositionView};
use crate::time::{since, Duration, Instant, MAX_NANOS};

verus! {

/// How far a progress bar has come.
#[derive(Clone, Copy, Debug, PartialEq, Eq, Structural)]
pub enum Status {
    /// The bar is running.
    InProgress,
    /// The bar is finished and stays on the screen.
    DoneVisible,
    /// The bar is finished and gone from the screen.
    DoneHidden,
}

/// The completed part of a bar, as the quotient `done / total`.
#[derive(Clone, Copy, Debug, PartialEq, Eq, Structural)]
pub struct Fraction {
    pub done: u64,
    pub total: u64,
}

impl Fraction {
    /// A number between zero and one.
    pub open spec fn wf(self) -> bool {
        &&& self.total > 0
        &&& self.done <= self.total
    }

    /// Whether this number is at most `other`.
    pub open spec fn at_most(self, other: Fraction) -> bool {
        self.done * other.total <= other.done * self.total
    }
}

/// What the number of steps per second is taken from.
#[derive(Clone, Copy, Debug, PartialEq, Eq, Structural)]
pub enum Rate {
    /// There are no samples yet: the rate is zero.
    NoSamples,
    /// The average time per step of the newest samples, of which there are some.
    Recent,
    /// The quotient of `steps` and `elapsed`.
    Overall { steps: u64, elapsed: Duration },
}

/// What a [`Rate`] says.
pub enum RateView {
    NoSamples,
    Recent,
    Overall { steps: u64, elapsed: nat },
}

impl View for Rate {
    type V = RateView;

    open spec fn view(&self) -> RateView {
        match self {
            Rate::NoSamples => RateView::NoSamples,
            Rate::Recent => RateView::Recent,
            Rate::Overall { steps, elapsed } => RateView::Overall { steps: *steps, elapsed: elapsed@ },
        }
    }
}

/// What a [`ProgressState`] holds.
pub struct StateView {
    /// The position, with its budget of grants.
    pub pos: PositionView,
    /// The length: the position at which the bar is complete.
    pub len: u64,
    /// How often the bar has ticked.
    pub tick: u64,
    /// When the bar was started.
    pub started: nat,
    /// How far the bar has come.
    pub status: Status,
    /// The samples that estimates are taken from.
    pub est: EstimatorView,
}

impl StateView {
    /// The bar is finished.
    pub open spec fn finished(self) -> bool {
        self.status != Status::InProgress
    }

    /// There is no telling when the bar will be complete: it has no length, or is finished.
    pub open spec fn has_no_eta(self) -> bool {
        self.len == u64::MAX || self.finished()
    }

    /// The completed part: all of it where there is nothing to do, and never more than all.
    pub open spec fn fraction(self) -> Fraction {
        if self.len == 0 {
            Fraction { done: 1, total: 1 }
        } else if self.pos.pos <= self.len {
            Fraction { done: self.pos.pos, total: self.len }
        } else {
            Fraction { done: self.len, total: self.len }
        }
    }

    /// The steps that are left.
    pub open spec fn remaining(self) -> int {
        if self.pos.pos <= self.len {
            self.len - self.pos.pos
        } else {
            0
        }
    }

    /// The time that the bar is expected to take from now on, where its samples let the
    /// remaining steps take `estimate`. It is zero where no step is left, and as long as there
    /// are no samples.
    pub open spec fn eta(self, estimate: nat) -> nat {
        if self.has_no_eta() || self.remaining() == 0 || self.est.steps.len() == 0 {
            0
        } else {
            estimate
        }
    }

    /// The time since the bar was started.
    pub open spec fn elapsed(self, now: nat) -> nat {
        since(now, self.started)
    }

    /// The time that the bar is expected to take in all.
    pub open spec fn duration(self, now: nat, estimate: nat) -> nat {
        if self.has_no_eta() {
            0
        } else {
            self.elapsed(now) + self.eta(estimate)
        }
    }

    /// What the number of steps per second is taken from: a running bar looks at its newest
    /// samples, if it has any, a finished one at its whole way.
    pub open spec fn rate(self, now: nat) -> RateView {
        if self.finished() {
            RateView::Overall { steps: self.len, elapsed: self.elapsed(now) }
        } else if self.est.steps.len() == 0 {
            RateView::NoSamples
        } else {
            RateView::Recent
        }
    }

    /// The position has not gone back behind the last sample, so that it can be sampled.
    pub open spec fn can_record(self) -> bool {
        self.pos.pos >= self.est.prev_pos
    }

    /// The state after the position was shown to the estimator at `now`.
    pub open spec fn after_record(self, now: nat) -> StateView {
        StateView { est: self.est.after_record(self.pos.pos, now), ..self }
    }

    /// The state after it ticked once more; the count stops at `u64::MAX`.
    pub open spec fn after_count(self) -> StateView {
        StateView {
            tick: if self.tick < u64::MAX {
                (self.tick + 1) as u64
            } else {
                u64::MAX
            },
            ..self
        }
    }

    /// The state with its position set to `pos`.
    pub open spec fn with_pos(self, pos: u64) -> StateView {
        StateView { pos: self.pos.after_set(pos), ..self }
    }
}

/// The state of a progress bar at a moment in time.
#[non_exhaustive]
pub struct ProgressState {
    pos: AtomicPosition,
    len: u64,
    tick: u64,
    started: Instant,
    status: Status,
    est: Estimator,
}

impl View for ProgressState {
    type V = StateView;

    closed spec fn view(&self) -> StateView {
        StateView {
            pos: self.pos@,
            len: self.len,
            tick: self.tick,
            started: self.started@,
            status: self.status,
            est: self.est@,
        }
    }
}

impl ProgressState {
    /// A bar of length `len` that is started at `now`.
    pub fn new(len: u64, pos: AtomicPosition, now: Instant) -> (s: ProgressState)
        ensures
            s@ == (StateView {
                pos: pos@,
                len,
                tick: 0,
                started: now@,
                status: Status::InProgress,
                est: EstimatorView::empty(now@),
            }),
    {
        ProgressState {
            pos,
            len,
            tick: 0,
            started: now,
            status: Status::InProgress,
            est: Estimator::new(now),
        }
    }

    /// Indicates that the progress bar finished.
    pub fn is_finished(&self) -> (b: bool)
        ensures
            b == self@.finished(),
    {
        match self.status {
            Status::InProgress => false,
            Status::DoneVisible => true,
            Status::DoneHidden => true,
        }
    }

    /// How far the bar has come.
    pub fn status(&self) -> (status: Status)
        ensures
            status == self@.status,
    {
        self.status
    }

    /// Returns the completion as a quotient between 0 and 1
    pub fn fraction(&self) -> (f: Fraction)
        ensures
            f == self@.fraction(),
            f.wf(),
            0 < self@.len && self@.pos.pos <= self@.len ==> f.done * self@.len == self@.pos.pos
                * f.total,
    {
        let pos: u64 = self.pos.get();
        if self.len == 0 {
            Fraction { done: 1, total: 1 }
        } else if pos <= self.len {
            Fraction { done: pos, total: self.len }
        } else {
            Fraction { done: self.len, total: self.len }
        }
    }

    /// The steps that are left, whose expected time is the `estimate` that
    /// [`eta`](ProgressState::eta) is given.
    pub fn remaining(&self) -> (n: u64)
        ensures
            n == self@.remaining(),
    {
        self.len.saturating_sub(self.pos.get())
    }

    /// The expected ETA, where the samples let the remaining steps take `estimate`
    pub fn eta(&self, estimate: Duration) -> (d: Duration)
        ensures
            d@ == self@.eta(estimate@),
    {
        if self.len == u64::MAX || self.is_finished() {
            return Duration::new(0, 0);
        }
        if self.remaining() == 0 || self.est.len() == 0 {
            return Duration::new(0, 0);
        }
        estimate
    }

    /// The expected total duration (that is, elapsed time + expected ETA)
    pub fn duration(&self, now: Instant, estimate: Duration) -> (d: Duration)
        requires
            self@.duration(now@, estimate@) <= MAX_NANOS,
        ensures
            d@ == self@.duration(now@, estimate@),
    {
        if self.len == u64::MAX || self.is_finished() {
            return Duration::new(0, 0);
        }
        self.elapsed(now).plus(self.eta(estimate))
    }

    /// What the number of steps per second is taken from
    pub fn per_sec(&self, now: Instant) -> (rate: Rate)
        ensures
            rate@ == self@.rate(now@),
    {
        match self.status {
            Status::InProgress => if self.est.len() == 0 {
                Rate::NoSamples
            } else {
                Rate::Recent
            },
            _ => Rate::Overall { steps: self.len, elapsed: self.elapsed(now) },
        }
    }

    /// The time since the bar was started.
    pub fn elapsed(&self, now: Instant) -> (d: Duration)
        ensures
            d@ == self@.elapsed(now@),
    {
        now.duration_since(self.started)
    }

    /// The current position.
    pub fn pos(&self) -> (pos: u64)
        ensures
            pos == self@.pos.pos,
    {
        self.pos.get()
    }

    /// Sets the position.
    pub fn set_pos(&mut self, pos: u64)
        ensures
            final(self)@ == old(self)@.with_pos(pos),
    {
        self.pos.set(pos);
    }

    /// The length.
    pub fn len(&self) -> (len: u64)
        ensures
            len == self@.len,
    {
        self.len
    }

    /// Sets the length.
    pub fn set_len(&mut self, len: u64)
        ensures
            final(self)@ == (StateView { len, ..old(self)@ }),
    {
        self.len = len;
    }

    /// How often the bar has ticked.
    pub fn tick(&self) -> (n: u64)
        ensures
            n == self@.tick,
    {
        self.tick
    }

    /// The position with its budget of grants.
    pub fn position(&self) -> (pos: &AtomicPosition)
        ensures
            pos@ == self@.pos,
    {
        &self.pos
    }

    /// The position with its budget of grants, to be changed in place.
    pub fn position_mut(&mut self) -> (pos: &mut AtomicPosition)
        ensures
            pos@ == old(self)@.pos,
            final(self)@ == (StateView { pos: final(pos)@, ..old(self)@ }),
    {
        &mut self.pos
    }

    /// The samples that estimates are taken from.
    pub fn estimator(&self) -> (est: &Estimator)
        ensures
            est@ == self@.est,
    {
        &self.est
    }

    /// Whether the position can be sampled: it has not gone back behind the last sample.
    pub fn can_record(&self) -> (b: bool)
        ensures
            b == self@.can_record(),
    {
        self.pos.get() >= self.est.prev().0
    }

    /// Shows the position to the estimator at `now`.
    pub(crate) fn record(&mut self, now: Instant)
        requires
            old(self)@.can_record(),
        ensures
            final(self)@ == old(self)@.after_record(now@),
    {
        let pos: u64 = self.pos.get();
        self.est.record(pos, now);
    }

    /// Counts one more tick.
    pub(crate) fn count_tick(&mut self)
        ensures
            final(self)@ == old(self)@.after_count(),
    {
        self.tick = self.tick.saturating_add(1);
    }

    /// Sets how far the bar has come.
    pub(crate) fn set_status(&mut self, status: Status)
        ensures
            final(self)@ == (StateView { status, ..old(self)@ }),
    {
        self.status = status;
    }

    /// Starts the time of the bar at `now`.
    pub(crate) fn restart_elapsed(&mut self, now: Instant)
        ensures
            final(self)@ == (StateView { started: now@, ..old(self)@ }),
    {
        self.started = now;
    }

    /// Starts the estimate at `now`.
    pub(crate) fn restart_estimate(&mut self, now: Instant)
        ensures
            final(self)@ == (StateView { est: EstimatorView::empty(now@), ..old(self)@ }),
    {
        self.est.reset(now);
    }
}

/// The completion is a number between zero and one. It is one exactly where there is nothing
/// left to do, and zero exactly where there is something to do and nothing is done.
pub proof fn fraction_is_proper(s: StateView)
    ensures
        s.fraction().wf(),
        s.fraction().done == s.fraction().total <==> s.remaining() == 0,
        s.fraction().done == 0 <==> s.len > 0 && s.pos.pos == 0,
{
}

/// The completion does not fall as the position grows.
pub proof fn fraction_grows(s: StateView, a: u64, b: u64)
    requires
        a <= b,
    ensures
        s.with_pos(a).fraction().at_most(s.with_pos(b).fraction()),
{
    let f = s.with_pos(a).fraction();
    let g = s.with_pos(b).fraction();
    assert(f.total == g.total && f.done <= g.done);
    assert(f.done * g.total <= g.done * f.total) by (nonlinear_arith)
        requires
            f.total == g.total,
            f.done <= g.done,
    ;
}

/// The expected duration is the elapsed time and the ETA together; where there is no ETA,
/// both are zero.
pub proof fn duration_is_elapsed_and_eta(s: StateView, now: nat, estimate: nat)
    ensures
        s.has_no_eta() ==> s.eta(estimate) == 0 && s.duration(now, estimate) == 0,
        !s.has_no_eta() ==> s.duration(now, estimate) == s.elapsed(now) + s.eta(estimate),
{
}

/// Where no step is left, or no sample has been taken yet, no time is expected to pass: the
/// expected duration of a running bar is then what has passed.
pub proof fn eta_needs_steps_and_samples(s: StateView, now: nat, estimate: nat)
    requires
        s.remaining() == 0 || s.est.steps.len() == 0,
    ensures
        s.eta(estimate) == 0,
        !s.has_no_eta() ==> s.duration(now, estimate) == s.elapsed(now),
{
}

/// The newest samples are looked at for the rate only where there are some.
pub proof fn recent_rate_has_samples(s: StateView, now: nat)
    requires
        s.est.wf(),
        s.rate(now) == RateView::Recent,
    ensures
        s.est.recent().len() > 0,
{
}

/// A position that can be sampled still can be after it was, and after it moved on.
pub proof fn sampling_goes_on(s: StateView, now: nat, pos: u64)
    requires
        s.can_record(),
        pos >= s.pos.pos,
    ensures
        s.after_record(now).can_record(),
        s.with_pos(pos).can_record(),
{
}

/// Where the clock has not gone back, a sample is taken at the position: the next one covers
/// only what comes after.
pub proof fn sampling_catches_up(s: StateView, now: nat)
    requires
        now >= s.est.prev_at,
    ensures
        s.after_record(now).est.prev_pos == s.pos.pos,
{
}

/// The completion is the position over the length, as long as the position is not past it; past
/// it, and where there is nothing to do, it is one.
pub proof fn fraction_is_the_quotient(s: StateView)
    ensures
        s.fraction().total > 0,
        0 < s.len && s.pos.pos <= s.len ==> s.fraction().done * s.len == s.pos.pos
            * s.fraction().total,
        s.len == 0 || s.pos.pos >= s.len ==> s.fraction().done == s.fraction().total,
{
}

/// A bar is running or finished, and is finished whether it stays on the screen or not.
pub proof fn finished_is_done(s: StateView)
    ensures
        s.status == Status::InProgress ==> !s.finished(),
        s.status == Status::DoneVisible ==> s.finished(),
        s.status == Status::DoneHidden ==> s.finished(),
{
}

/// The remaining steps lead from the position to the length; from there on there are none.
pub proof fn remaining_leads_to_length(s: StateView)
    ensures
        s.pos.pos <= s.len ==> s.pos.pos + s.remaining() == s.len,
        s.pos.pos >= s.len ==> s.remaining() == 0,
{
}

/// The elapsed time leads from the start of the bar to now, and is zero before the start.
pub proof fn elapsed_leads_to_now(s: StateView, now: nat)
    ensures
        s.started <= now ==> s.started + s.elapsed(now) == now,
        s.started >= now ==> s.elapsed(now) == 0,
{
}

/// A running bar that has a length, a step left and a sample passes the estimate on, and no
/// other bar does; its whole duration leads from its start past now by that estimate.
pub proof fn estimate_counts_only_under_way(s: StateView, now: nat, estimate: nat)
    requires
        s.started <= now,
    ensures
        s.status == Status::InProgress && s.len != u64::MAX && s.pos.pos < s.len
            && s.est.steps.len() > 0 ==> s.eta(estimate) == estimate && s.started + s.duration(
            now,
            estimate,
        ) == now + estimate,
        s.status == Status::InProgress && s.len != u64::MAX && (s.pos.pos >= s.len
            || s.est.steps.len() == 0) ==> s.eta(estimate) == 0 && s.started + s.duration(
            now,
            estimate,
        ) == now,
        s.status != Status::InProgress || s.len == u64::MAX ==> s.eta(estimate) == 0 && s.duration(
            now,
            estimate,
        ) == 0,
{
}

/// The same of a bar whose start the clock has gone back behind: no time counts as elapsed.
pub proof fn duration_before_start_is_eta(s: StateView, now: nat, estimate: nat)
    requires
        now <= s.started,
    ensures
        s.duration(now, estimate) == s.eta(estimate),
{
}

/// The rate of a running bar rests on its samples, that of a finished one on its length and the
/// time from its start to now.
pub proof fn rate_rests_on(s: StateView, now: nat)
    ensures
        s.status == Status::InProgress && s.est.steps.len() == 0 <==> s.rate(now)
            == RateView::NoSamples,
        s.status == Status::InProgress && s.est.steps.len() > 0 <==> s.rate(now)
            == RateView::Recent,
        s.status != Status::InProgress ==> (s.rate(now) matches RateView::Overall {
            steps,
            elapsed,
        } && steps == s.len && (s.started <= now ==> s.started + elapsed == now) && (s.started
            >= now ==> elapsed == 0)),
{
}

/// The view of a rate tells its kinds apart and shows what it holds.
pub proof fn rate_view_shows_rate(rate: Rate)
    ensures
        rate is NoSamples <==> rate@ is NoSamples,
        rate is Recent <==> rate@ is Recent,
        rate matches Rate::Overall { steps, elapsed } ==> rate@ == (RateView::Overall {
            steps,
            elapsed: elapsed@,
        }),
{
}

/// A position can be sampled unless it lies behind that of the last sample.
pub proof fn only_a_position_behind_is_not_sampled(s: StateView)
    ensures
        s.can_record() <==> s.est.prev_pos <= s.pos.pos,
{
}

/// Sampling shows the estimator the current position at the current time: where the position has
/// moved on and the clock has not gone back, the newest sample leads from the last one to them.
/// Nothing but the samples changes.
pub proof fn sampling_is_exact(s: StateView, now: nat)
    requires
        s.est.wf(),
        s.est.prev_pos <= s.pos.pos,
    ensures
        ({
            let after = s.after_record(now);
            let last = after.est.recent().last();
            &&& s.est.prev_pos < s.pos.pos && s.est.prev_at <= now ==> {
                &&& after.est.prev_pos == s.pos.pos
                &&& after.est.prev_at == now
                &&& after.est.recent().len() > 0
                &&& s.est.prev_pos + last.delta == s.pos.pos
                &&& s.est.prev_at + last.elapsed == now
            }
            &&& s.est.prev_pos == s.pos.pos || s.est.prev_at > now ==> after.est == s.est
            &&& after.pos == s.pos
            &&& after.len == s.len
            &&& after.tick == s.tick
            &&& after.started == s.started
            &&& after.status == s.status
        }),
{
    if s.est.prev_pos < s.pos.pos && s.est.prev_at <= now {
        crate::estimator::newest_sample_is_exact(s.est, s.pos.pos, now);
        crate::estimator::sample_takes_one_slot(s.est, s.pos.pos, now);
    }
}

/// Setting the position, and counting a tick, change that and nothing else.
pub proof fn small_changes_are_small(s: StateView, pos: u64)
    ensures
        s.with_pos(pos).pos.pos == pos,
        s.with_pos(pos).pos.capacity == s.pos.capacity,
        s.with_pos(pos).pos.prev == s.pos.prev,
        s.with_pos(pos).pos.start == s.pos.start,
        s.with_pos(pos) == (StateView { pos: s.with_pos(pos).pos, ..s }),
        s.tick < u64::MAX ==> s.after_count().tick == s.tick + 1,
        s.tick == u64::MAX ==> s.after_count().tick == u64::MAX,
        s.after_count() == (StateView { tick: s.after_count().tick, ..s }),
{
}

} // verus!
