//! Samples of how fast a position moves, in a ring buffer of constant capacity.

use vstd::prelude::*;

use crate::time::{since, Duration, Instant};

verus! {

/// The number of samples that the ring buffer holds.
pub const SLOTS: usize = 16;

/// The number of samples, the newest ones, that the time per step is averaged over.
pub const WINDOW: usize = 15;

/// What a [`Step`] holds.
pub struct StepView {
    /// The time that the advance took, in nanoseconds.
    pub elapsed: nat,
    /// How far the position advanced.
    pub delta: u64,
}

/// One sample: the position advanced by `delta` in the time `elapsed`.
#[derive(Clone, Copy, Debug)]
pub struct Step {
    /// The time that the advance took.
    pub elapsed: Duration,
    /// How far the position advanced.
    pub delta: u64,
}

impl View for Step {
    type V = StepView;

    open spec fn view(&self) -> StepView {
        StepView { elapsed: self.elapsed@, delta: self.delta }
    }
}

/// The samples in `steps`, each by what it holds.
pub open spec fn step_views(steps: Seq<Step>) -> Seq<StepView> {
    Seq::new(steps.len(), |i: int| steps[i]@)
}

/// What an [`Estimator`] holds.
pub struct EstimatorView {
    /// The samples, in the order of their slots.
    pub steps: Seq<StepView>,
    /// The slot that the next sample goes to.
    pub next: nat,
    /// The position at the last sample.
    pub prev_pos: u64,
    /// The time of the last sample.
    pub prev_at: nat,
}

impl EstimatorView {
    /// The slots fill up one after the other and are then used again in the same order, and
    /// every sample advanced the position.
    pub open spec fn wf(self) -> bool {
        &&& self.steps.len() <= SLOTS
        &&& self.next < SLOTS
        &&& self.steps.len() < SLOTS ==> self.next == self.steps.len()
        &&& forall|i: int| 0 <= i < self.steps.len() ==> (#[trigger] self.steps[i]).delta > 0
    }

    /// An estimator without samples, counting from position zero at `now`.
    pub open spec fn empty(now: nat) -> EstimatorView {
        EstimatorView { steps: Seq::empty(), next: 0, prev_pos: 0, prev_at: now }
    }

    /// Whether position `pos` at `now` makes a sample: the position moved, and the clock did
    /// not go back.
    pub open spec fn samples(self, pos: u64, now: nat) -> bool {
        pos != self.prev_pos && now >= self.prev_at
    }

    /// The sample that position `pos` at `now` makes.
    pub open spec fn sample(self, pos: u64, now: nat) -> StepView {
        StepView { elapsed: since(now, self.prev_at), delta: (pos - self.prev_pos) as u64 }
    }

    /// The estimator after it was shown position `pos` at `now`.
    pub open spec fn after_record(self, pos: u64, now: nat) -> EstimatorView {
        if self.samples(pos, now) {
            let step = self.sample(pos, now);
            EstimatorView {
                steps: if self.steps.len() < SLOTS {
                    self.steps.push(step)
                } else {
                    self.steps.update(self.next as int, step)
                },
                next: (self.next + 1) % SLOTS as nat,
                prev_pos: pos,
                prev_at: now,
            }
        } else {
            self
        }
    }

    /// The samples, from the oldest to the newest.
    pub open spec fn history(self) -> Seq<StepView> {
        if self.steps.len() < SLOTS {
            self.steps
        } else {
            self.steps.skip(self.next as int) + self.steps.take(self.next as int)
        }
    }

    /// The newest samples, at most [`WINDOW`] of them, from the oldest to the newest.
    pub open spec fn recent(self) -> Seq<StepView> {
        newest(self.history(), WINDOW as nat)
    }
}

/// The last `n` of `steps`, or all of them where there are fewer.
pub open spec fn newest(steps: Seq<StepView>, n: nat) -> Seq<StepView> {
    if steps.len() <= n {
        steps
    } else {
        steps.skip(steps.len() - n)
    }
}

/// The samples from which the time per step is estimated.
pub struct Estimator {
    steps: [Step; SLOTS],
    pos: u8,
    full: bool,
    prev: (u64, Instant),
}

impl View for Estimator {
    type V = EstimatorView;

    closed spec fn view(&self) -> EstimatorView {
        EstimatorView {
            steps: step_views(self.steps@.take(self.used())),
            next: self.pos as nat,
            prev_pos: self.prev.0,
            prev_at: self.prev.1@,
        }
    }
}

impl Estimator {
    /// The number of slots in use: the slots below it hold samples.
    closed spec fn used(self) -> int {
        if self.full {
            SLOTS as int
        } else {
            self.pos as int
        }
    }

    #[verifier::type_invariant]
    closed spec fn slots_in_range(self) -> bool {
        &&& self.pos < SLOTS
        &&& forall|i: int| 0 <= i < self.used() ==> (#[trigger] self.steps@[i]).delta > 0
    }

    /// An estimator without samples, counting from position zero at `now`.
    pub fn new(now: Instant) -> (e: Estimator)
        ensures
            e@ == EstimatorView::empty(now@),
            e@.wf(),
    {
        let blank: Step = Step { elapsed: Duration::new(0, 0), delta: 0 };
        let e = Estimator { steps: [blank; SLOTS], pos: 0, full: false, prev: (0, now) };
        assert(e@.steps =~= Seq::empty());
        e
    }

    /// Shows the estimator position `new` at `now`. A position that has not moved, or a time
    /// before the last sample, is passed over.
    pub fn record(&mut self, new: u64, now: Instant)
        requires
            new >= old(self)@.prev_pos,
        ensures
            final(self)@ == old(self)@.after_record(new, now@),
            final(self)@.wf(),
    {
        proof {
            use_type_invariant(&*self);
        }
        let ghost before = self@;
        let delta: u64 = new - self.prev.0;
        if delta == 0 || now.is_before(self.prev.1) {
            return;
        }
        let elapsed: Duration = now.duration_since(self.prev.1);
        let step: Step = Step { elapsed, delta };
        let slot: usize = self.pos as usize;

        let mut steps = self.steps;
        steps[slot] = step;
        let next: u8 = (self.pos + 1) % (SLOTS as u8);
        let full: bool = self.full || next == 0;
        *self = Estimator { steps, pos: next, full, prev: (new, now) };

        assert(self@.steps =~= before.after_record(new, now@).steps);
    }

    /// Drops all samples and counts from position zero at `now`.
    pub fn reset(&mut self, now: Instant)
        ensures
            final(self)@ == EstimatorView::empty(now@),
            final(self)@.wf(),
    {
        proof {
            use_type_invariant(&*self);
        }
        self.full = false;
        self.pos = 0;
        self.prev = (0, now);
        assert(self@.steps =~= Seq::empty());
    }

    /// The position at the last sample, and its time.
    pub fn prev(&self) -> (prev: (u64, Instant))
        ensures
            prev.0 == self@.prev_pos,
            prev.1@ == self@.prev_at,
    {
        self.prev
    }

    /// The number of samples.
    pub fn len(&self) -> (n: usize)
        ensures
            n == self@.steps.len(),
            self@.wf(),
    {
        proof {
            use_type_invariant(self);
        }
        if self.full {
            SLOTS
        } else {
            self.pos as usize
        }
    }

    /// All samples, in the order of their slots.
    pub fn steps(&self) -> (steps: Vec<Step>)
        ensures
            step_views(steps@) == self@.steps,
            self@.wf(),
    {
        proof {
            use_type_invariant(self);
        }
        let n: usize = self.len();
        let mut steps: Vec<Step> = Vec::new();
        let mut i: usize = 0;
        while i < n
            invariant
                i <= n <= SLOTS,
                steps@ == self.steps@.take(i as int),
            decreases n - i,
        {
            steps.push(self.steps[i]);
            i = i + 1;
        }
        steps
    }

    /// The newest samples, at most [`WINDOW`] of them, from the oldest to the newest.
    pub fn recent_steps(&self) -> (steps: Vec<Step>)
        ensures
            step_views(steps@) == self@.recent(),
            self@.wf(),
    {
        proof {
            use_type_invariant(self);
        }
        let n: usize = self.len();
        let first: usize = if n > WINDOW {
            n - WINDOW
        } else {
            0
        };
        let start: usize = if self.full {
            self.pos as usize
        } else {
            0
        };
        let mut steps: Vec<Step> = Vec::new();
        let mut i: usize = first;
        while i < n
            invariant
                first <= i <= n <= SLOTS,
                n == self.used(),
                start == (if self.full {
                    self.pos as int
                } else {
                    0
                }),
                self.pos < SLOTS,
                first == (if n > WINDOW {
                    n - WINDOW
                } else {
                    0
                }),
                steps@.len() == i - first,
                forall|k: int|
                    0 <= k < steps@.len() ==> #[trigger] steps@[k] == self.steps@[(start + first
                        + k) % SLOTS as int],
            decreases n - i,
        {
            steps.push(self.steps[(start + i) % SLOTS]);
            i = i + 1;
        }
        assert(step_views(steps@) =~= self@.recent());
        steps
    }
}

/// The samples are the newest ones that were made: a new sample is put behind the others, and
/// once the ring is full the oldest one leaves for it.
pub proof fn history_keeps_the_newest(e: EstimatorView, pos: u64, now: nat)
    requires
        e.wf(),
        pos >= e.prev_pos,
        e.samples(pos, now),
    ensures
        e.after_record(pos, now).wf(),
        e.after_record(pos, now).history() == newest(
            e.history().push(e.sample(pos, now)),
            SLOTS as nat,
        ),
{
    let after = e.after_record(pos, now);
    let pushed = e.history().push(e.sample(pos, now));
    if e.steps.len() < SLOTS {
        assert(after.history() =~= pushed);
    } else {
        assert(after.history() =~= pushed.skip(1));
    }
}

/// The averaged samples are the newest ones too: a new sample is put behind the others, and
/// at most [`WINDOW`] stay.
pub proof fn recent_keeps_the_newest(e: EstimatorView, pos: u64, now: nat)
    requires
        e.wf(),
        pos >= e.prev_pos,
        e.samples(pos, now),
    ensures
        e.after_record(pos, now).recent() == newest(
            e.recent().push(e.sample(pos, now)),
            WINDOW as nat,
        ),
{
    history_keeps_the_newest(e, pos, now);
    assert(e.after_record(pos, now).recent() =~= newest(
        e.recent().push(e.sample(pos, now)),
        WINDOW as nat,
    ));
}

/// As soon as there is one sample there is one to average, and each of them advanced the
/// position: the time per step is the average of quotients with a positive divisor.
pub proof fn recent_steps_advance(e: EstimatorView)
    requires
        e.wf(),
    ensures
        e.recent().len() == if e.steps.len() <= WINDOW {
            e.steps.len()
        } else {
            WINDOW as nat
        },
        forall|i: int| 0 <= i < e.recent().len() ==> (#[trigger] e.recent()[i]).delta > 0,
{
}

/// How far the position advanced over all of `steps`.
pub open spec fn total_delta(steps: Seq<StepView>) -> nat
    decreases steps.len(),
{
    if steps.len() == 0 {
        0
    } else {
        total_delta(steps.drop_last()) + steps.last().delta as nat
    }
}

/// The time that all of `steps` took.
pub open spec fn total_elapsed(steps: Seq<StepView>) -> nat
    decreases steps.len(),
{
    if steps.len() == 0 {
        0
    } else {
        total_elapsed(steps.drop_last()) + steps.last().elapsed
    }
}

impl EstimatorView {
    /// The samples cover stretches of the way from position zero to the last sample, and of
    /// the time since `origin`, without overlap; as long as none has left, they cover all of
    /// both.
    pub open spec fn covers(self, origin: nat) -> bool {
        let steps = self.history();
        &&& total_delta(steps) <= self.prev_pos
        &&& origin + total_elapsed(steps) <= self.prev_at
        &&& steps.len() < SLOTS ==> total_delta(steps) == self.prev_pos
        &&& steps.len() < SLOTS ==> origin + total_elapsed(steps) == self.prev_at
    }
}

proof fn lemma_totals_skip(steps: Seq<StepView>)
    requires
        steps.len() > 0,
    ensures
        total_delta(steps) == steps[0].delta + total_delta(steps.skip(1)),
        total_elapsed(steps) == steps[0].elapsed + total_elapsed(steps.skip(1)),
    decreases steps.len(),
{
    reveal_with_fuel(total_delta, 2);
    reveal_with_fuel(total_elapsed, 2);
    let rest = steps.skip(1);
    if rest.len() > 0 {
        lemma_totals_skip(steps.drop_last());
        assert(rest.drop_last() =~= steps.drop_last().skip(1));
    }
}

/// An estimator that is made or reset at `origin` covers the way and the time since then.
pub proof fn empty_covers(origin: nat)
    ensures
        EstimatorView::empty(origin).wf(),
        EstimatorView::empty(origin).covers(origin),
{
}

/// An estimator that is shown positions that never go back counts no part of the way and of
/// the time twice.
pub proof fn record_covers(e: EstimatorView, origin: nat, pos: u64, now: nat)
    requires
        e.wf(),
        e.covers(origin),
        pos >= e.prev_pos,
    ensures
        e.after_record(pos, now).wf(),
        e.after_record(pos, now).covers(origin),
{
    if e.samples(pos, now) {
        let pushed = e.history().push(e.sample(pos, now));
        history_keeps_the_newest(e, pos, now);
        assert(pushed.drop_last() =~= e.history());
        if pushed.len() > SLOTS {
            lemma_totals_skip(pushed);
        }
    }
}

/// A position that has not moved, or a time before the last sample, leaves the samples as
/// they were.
pub proof fn idle_records_nothing(e: EstimatorView, pos: u64, now: nat)
    requires
        pos == e.prev_pos || now < e.prev_at,
    ensures
        e.after_record(pos, now) == e,
{
}

/// The view of samples shows each of them as it is.
pub proof fn step_views_show_steps(steps: Seq<Step>, i: int)
    requires
        0 <= i < steps.len(),
    ensures
        step_views(steps).len() == steps.len(),
        step_views(steps)[i].delta == steps[i].delta,
        step_views(steps)[i].elapsed == steps[i].elapsed@,
{
}

/// An estimator that is made or reset has no samples, and counts from position zero and now.
pub proof fn empty_counts_from_zero(now: nat)
    ensures
        EstimatorView::empty(now).steps.len() == 0,
        EstimatorView::empty(now).recent().len() == 0,
        EstimatorView::empty(now).next == 0,
        EstimatorView::empty(now).prev_pos == 0,
        EstimatorView::empty(now).prev_at == now,
{
}

/// A sample takes the slot that is next in turn; all other slots keep what they hold.
pub proof fn sample_takes_one_slot(e: EstimatorView, pos: u64, now: nat)
    requires
        e.wf(),
        pos > e.prev_pos,
        now >= e.prev_at,
    ensures
        ({
            let after = e.after_record(pos, now);
            &&& after.wf()
            &&& after.prev_pos == pos
            &&& after.prev_at == now
            &&& e.next < after.steps.len()
            &&& e.prev_pos + after.steps[e.next as int].delta == pos
            &&& e.prev_at + after.steps[e.next as int].elapsed == now
            &&& e.steps.len() < SLOTS ==> after.steps.len() == e.steps.len() + 1
            &&& e.steps.len() == SLOTS ==> after.steps.len() == SLOTS
            &&& e.next + 1 < SLOTS ==> after.next == e.next + 1
            &&& e.next + 1 == SLOTS ==> after.next == 0
            &&& forall|i: int|
                0 <= i < e.steps.len() && i != e.next ==> #[trigger] after.steps[i] == e.steps[i]
        }),
{
}

proof fn lemma_newest_ends_alike(steps: Seq<StepView>, n: nat)
    requires
        n > 0,
        steps.len() > 0,
    ensures
        newest(steps, n).len() > 0,
        newest(steps, n).last() == steps.last(),
{
}

/// Whenever the position moved on and the clock did not go back, the newest sample holds the
/// exact way and the exact time since the last one, in a full ring too.
pub proof fn newest_sample_is_exact(e: EstimatorView, pos: u64, now: nat)
    requires
        e.wf(),
        pos > e.prev_pos,
        now >= e.prev_at,
    ensures
        e.after_record(pos, now).history().len() > 0,
        e.prev_pos + e.after_record(pos, now).history().last().delta == pos,
        e.prev_at + e.after_record(pos, now).history().last().elapsed == now,
        e.after_record(pos, now).recent().len() > 0,
        e.prev_pos + e.after_record(pos, now).recent().last().delta == pos,
        e.prev_at + e.after_record(pos, now).recent().last().elapsed == now,
{
    let step = e.sample(pos, now);
    history_keeps_the_newest(e, pos, now);
    let pushed = e.history().push(step);
    assert(pushed.last() == step);
    lemma_newest_ends_alike(pushed, SLOTS as nat);
    lemma_newest_ends_alike(e.after_record(pos, now).history(), WINDOW as nat);
}

/// A sample is taken exactly where the position moved and the clock did not go back; else all
/// stays.
pub proof fn sample_needs_movement(e: EstimatorView, pos: u64, now: nat)
    requires
        pos >= e.prev_pos,
    ensures
        pos == e.prev_pos || now < e.prev_at ==> e.after_record(pos, now) == e,
        pos > e.prev_pos && now >= e.prev_at ==> e.after_record(pos, now).prev_pos == pos,
{
}

/// The averaged samples leave out the oldest one of a full ring, which stands in the slot that
/// is used next, and no other.
pub proof fn recent_leaves_out_the_oldest(e: EstimatorView, i: int)
    requires
        e.wf(),
        0 <= i < e.recent().len(),
    ensures
        e.steps.len() < SLOTS ==> e.recent().len() == e.steps.len() && e.recent()[i] == e.steps[i],
        e.steps.len() == SLOTS ==> e.recent().len() == SLOTS - 1,
        e.steps.len() == SLOTS && e.next + 1 + i < SLOTS ==> e.recent()[i] == e.steps[e.next + 1
            + i],
        e.steps.len() == SLOTS && e.next + 1 + i >= SLOTS ==> e.recent()[i] == e.steps[e.next + 1
            + i - SLOTS],
{
}

impl EstimatorView {
    /// The estimator after it was shown each of `positions` at the time in `times` beside it.
    pub open spec fn after_records(self, positions: Seq<u64>, times: Seq<nat>) -> EstimatorView
        decreases positions.len(),
    {
        if positions.len() == 0 {
            self
        } else {
            self.after_records(positions.drop_last(), times.drop_last()).after_record(
                positions.last(),
                times.last(),
            )
        }
    }
}

/// What of a way through `positions` from zero is covered last when the one at `k` is reached.
pub open spec fn stretch(positions: Seq<u64>, k: int) -> int {
    if k == 0 {
        positions[k] as int
    } else {
        positions[k] - positions[k - 1]
    }
}

/// The time from the one in `times` before `k`, or from `origin`, to the one at `k`.
pub open spec fn lapse(origin: nat, times: Seq<nat>, k: int) -> int {
    if k == 0 {
        times[k] - origin
    } else {
        times[k] - times[k - 1]
    }
}

/// Positions that keep growing from zero, at times that do not go back behind `origin` or each
/// other.
pub open spec fn steady(origin: nat, positions: Seq<u64>, times: Seq<nat>) -> bool {
    &&& positions.len() == times.len()
    &&& forall|i: int, j: int| 0 <= i < j < positions.len() ==> positions[i] < positions[j]
    &&& forall|i: int, j: int| 0 <= i <= j < times.len() ==> times[i] <= times[j]
    &&& positions.len() > 0 ==> positions[0] > 0 && times[0] >= origin
}

/// An estimator that is made or reset at `origin` and then shown positions that keep growing,
/// at times that do not go back, holds in its slots the ways and times between the last ones of
/// them, as many as there are slots, each in its turn.
pub proof fn slots_hold_the_last_differences(origin: nat, positions: Seq<u64>, times: Seq<nat>)
    requires
        steady(origin, positions, times),
    ensures
        ({
            let n = positions.len() as int;
            let e = EstimatorView::empty(origin).after_records(positions, times);
            &&& e.wf()
            &&& e.prev_pos == if n == 0 {
                0
            } else {
                positions[n - 1]
            }
            &&& e.prev_at == if n == 0 {
                origin
            } else {
                times[n - 1]
            }
            &&& e.next == n % 16
            &&& e.steps.len() == if n <= 16 {
                n
            } else {
                16
            }
            &&& forall|k: int|
                n - 16 <= k < n && 0 <= k ==> e.steps[k % 16].delta == #[trigger] stretch(
                    positions,
                    k,
                )
                    && e.steps[k % 16].elapsed == lapse(origin, times, k)
        }),
    decreases positions.len(),
{
    let n = positions.len() as int;
    let e = EstimatorView::empty(origin).after_records(positions, times);
    if n > 0 {
        let ps = positions.drop_last();
        let ts = times.drop_last();
        slots_hold_the_last_differences(origin, ps, ts);
        let before = EstimatorView::empty(origin).after_records(ps, ts);
        assert(e == before.after_record(positions[n - 1], times[n - 1]));
        sample_takes_one_slot(before, positions[n - 1], times[n - 1]);
        assert forall|k: int| n - 16 <= k < n && 0 <= k implies e.steps[k % 16].delta
            == #[trigger] stretch(positions, k) && e.steps[k % 16].elapsed == lapse(
            origin,
            times,
            k,
        ) by {
            if k < n - 1 {
                assert(stretch(ps, k) == stretch(positions, k));
                assert(lapse(origin, ts, k) == lapse(origin, times, k));
                assert(k % 16 != (n - 1) % 16);
                assert(e.steps[k % 16] == before.steps[k % 16]);
            }
        }
    }
}

/// Of the same estimator, the averaged samples are the last of these ways and times, in the
/// order in which they were covered, and at most as many as the window is wide.
pub proof fn window_holds_the_last_differences(
    origin: nat,
    positions: Seq<u64>,
    times: Seq<nat>,
    i: int,
)
    requires
        steady(origin, positions, times),
        0 <= i < EstimatorView::empty(origin).after_records(positions, times).recent().len(),
    ensures
        ({
            let n = positions.len() as int;
            let recent = EstimatorView::empty(origin).after_records(positions, times).recent();
            let m = recent.len() as int;
            &&& n <= 15 ==> m == n
            &&& n >= 15 ==> m == 15
            &&& recent[i].delta == stretch(positions, n - m + i)
            &&& recent[i].elapsed == lapse(origin, times, n - m + i)
        }),
{
    slots_hold_the_last_differences(origin, positions, times);
    let n = positions.len() as int;
    let e = EstimatorView::empty(origin).after_records(positions, times);
    recent_leaves_out_the_oldest(e, i);
    assert(e.wf());
    let m = e.recent().len() as int;
    let k = n - m + i;
    let way = stretch(positions, k);
    if n >= 16 {
        assert(k % 16 == if e.next + 1 + i < 16 {
            e.next + 1 + i
        } else {
            e.next + 1 + i - 16
        });
    } else {
        assert(k == i && k % 16 == i);
    }
}

} // verus!
