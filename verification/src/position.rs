//! The position of a progress bar, with the budget that limits how often a change of it may
//! be passed on to the screen.

use vstd::prelude::*;

use crate::time::{since, Duration, Instant};

verus! {

/// The time, in nanoseconds, after which the budget earns one more grant.
pub const INTERVAL: u64 = 1_000_000;

/// The most grants that the budget can hold.
pub const MAX_BURST: u8 = 10;

/// The number of values of a `u64`: a longer count keeps its low 64 bits.
pub const U64_VALUES: u128 = 0x1_0000_0000_0000_0000;

/// What an [`AtomicPosition`] holds.
pub struct PositionView {
    /// The current position.
    pub pos: u64,
    /// The grants that are left in the budget.
    pub capacity: u8,
    /// The time up to which the budget has been credited, in nanoseconds after `start`.
    pub prev: u64,
    /// When counting began.
    pub start: nat,
}

impl PositionView {
    /// The budget never holds more than [`MAX_BURST`] grants.
    pub open spec fn wf(self) -> bool {
        self.capacity <= MAX_BURST
    }

    /// Nanoseconds from `start` to `now`, as far as 64 bits hold them.
    pub open spec fn elapsed(self, now: nat) -> nat {
        since(now, self.start) % U64_VALUES as nat
    }

    /// Nanoseconds at `now` that the budget has not been credited with yet.
    pub open spec fn uncredited(self, now: nat) -> int {
        self.elapsed(now) - self.prev
    }

    /// Whether a grant asked for at `now` is refused: nothing is left in the budget, and
    /// nothing more has been earned.
    pub open spec fn refuses(self, now: nat) -> bool {
        self.capacity == 0 && self.uncredited(now) < INTERVAL
    }

    /// The grants that the budget is credited with at `now`: the whole intervals that have
    /// passed.
    pub open spec fn earned(self, now: nat) -> int {
        self.uncredited(now) / INTERVAL as int
    }

    /// Whether a grant may be asked for at `now`: the clock has not gone back behind what was
    /// credited.
    pub open spec fn accepts(self, now: nat) -> bool {
        self.uncredited(now) >= 0
    }

    /// The position after a grant was asked for at `now`.
    pub open spec fn after_allow(self, now: nat) -> PositionView {
        if self.refuses(now) {
            self
        } else {
            let budget = self.capacity + self.earned(now) - 1;
            PositionView {
                capacity: if budget <= MAX_BURST {
                    budget as u8
                } else {
                    MAX_BURST
                },
                prev: (self.elapsed(now) - self.uncredited(now) % INTERVAL as int) as u64,
                ..self
            }
        }
    }

    /// The position after it was put back to zero at `now`. The budget keeps its grants and
    /// counts as credited up to then.
    pub open spec fn after_reset(self, now: nat) -> PositionView {
        PositionView { pos: 0, prev: self.elapsed(now) as u64, ..self }
    }

    /// The position after `delta` was added to it; past `u64::MAX` it starts over at zero.
    pub open spec fn after_inc(self, delta: u64) -> PositionView {
        PositionView { pos: ((self.pos + delta) % U64_VALUES as int) as u64, ..self }
    }

    /// The position after it was set to `pos`.
    pub open spec fn after_set(self, pos: u64) -> PositionView {
        PositionView { pos, ..self }
    }
}

/// A position, and a budget of grants that refills with time.
///
/// Each method is one indivisible step; a caller that shares a position between threads
/// takes the steps one after the other.
pub struct AtomicPosition {
    pos: u64,
    capacity: u8,
    prev: u64,
    start: Instant,
}

impl View for AtomicPosition {
    type V = PositionView;

    closed spec fn view(&self) -> PositionView {
        PositionView {
            pos: self.pos,
            capacity: self.capacity,
            prev: self.prev,
            start: self.start@,
        }
    }
}

impl AtomicPosition {
    #[verifier::type_invariant]
    closed spec fn budget_in_range(self) -> bool {
        self.capacity <= MAX_BURST
    }

    /// Position zero with a full budget, counting from `now`.
    pub fn new(now: Instant) -> (p: AtomicPosition)
        ensures
            p@ == (PositionView { pos: 0, capacity: MAX_BURST, prev: 0, start: now@ }),
            p@.wf(),
    {
        AtomicPosition { pos: 0, capacity: MAX_BURST, prev: 0, start: now }
    }

    /// Nanoseconds from the start to `now`, as far as 64 bits hold them.
    fn elapsed(&self, now: Instant) -> (n: u64)
        ensures
            n == self@.elapsed(now@),
    {
        let span: Duration = now.duration_since(self.start);
        (span.as_nanos() % U64_VALUES) as u64
    }

    /// Whether [`allow`](AtomicPosition::allow) can be asked at `now`.
    pub fn accepts(&self, now: Instant) -> (b: bool)
        ensures
            b == self@.accepts(now@),
    {
        self.elapsed(now) >= self.prev
    }

    /// Asks at `now` for the grant to pass a change on, and takes it from the budget if it is
    /// given. It is refused where the budget is empty and no whole interval has passed.
    pub fn allow(&mut self, now: Instant) -> (granted: bool)
        requires
            old(self)@.accepts(now@),
        ensures
            granted == !old(self)@.refuses(now@),
            final(self)@ == old(self)@.after_allow(now@),
            final(self)@.wf(),
    {
        proof {
            use_type_invariant(&*self);
        }
        let elapsed: u64 = self.elapsed(now);
        let diff: u64 = elapsed - self.prev;

        if self.capacity == 0 && diff < INTERVAL {
            return false;
        }
        // The part of an interval that cannot be turned into a grant now is kept for later.
        let new: u64 = diff / INTERVAL;
        let remainder: u64 = diff % INTERVAL;
        let budget: u64 = self.capacity as u64 + new - 1;
        self.capacity = if budget <= MAX_BURST as u64 {
            budget as u8
        } else {
            MAX_BURST
        };
        self.prev = elapsed - remainder;
        true
    }

    /// Puts the position back to zero at `now`.
    pub fn reset(&mut self, now: Instant)
        ensures
            final(self)@ == old(self)@.after_reset(now@),
            final(self)@.wf(),
    {
        proof {
            use_type_invariant(&*self);
        }
        self.set(0);
        self.prev = self.elapsed(now);
    }

    /// Adds `delta` to the position; past `u64::MAX` it starts over at zero.
    pub fn inc(&mut self, delta: u64)
        ensures
            final(self)@ == old(self)@.after_inc(delta),
            final(self)@.wf(),
    {
        proof {
            use_type_invariant(&*self);
        }
        self.pos = self.pos.wrapping_add(delta);
    }

    /// Sets the position.
    pub fn set(&mut self, pos: u64)
        ensures
            final(self)@ == old(self)@.after_set(pos),
            final(self)@.wf(),
    {
        proof {
            use_type_invariant(&*self);
        }
        self.pos = pos;
    }

    /// The current position.
    pub fn get(&self) -> (pos: u64)
        ensures
            pos == self@.pos,
            self@.wf(),
    {
        proof {
            use_type_invariant(self);
        }
        self.pos
    }
}

impl PositionView {
    /// The position after grants were asked for at each of `times`, in order.
    pub open spec fn after_allows(self, times: Seq<nat>) -> PositionView
        decreases times.len(),
    {
        if times.len() == 0 {
            self
        } else {
            self.after_allows(times.drop_last()).after_allow(times.last())
        }
    }

    /// How many of the grants asked for at `times` are given.
    pub open spec fn grants(self, times: Seq<nat>) -> nat
        decreases times.len(),
    {
        if times.len() == 0 {
            0
        } else {
            let before = times.drop_last();
            self.grants(before) + if self.after_allows(before).refuses(times.last()) {
                0nat
            } else {
                1
            }
        }
    }

    /// Whether each of `times` can be asked at when its turn comes.
    pub open spec fn accepts_all(self, times: Seq<nat>) -> bool
        decreases times.len(),
    {
        times.len() == 0 || {
            let before = times.drop_last();
            self.accepts_all(before) && self.after_allows(before).accepts(times.last())
        }
    }
}

/// One grant uses up one interval's worth: what the budget holds, less the time that it has
/// been credited up to, goes down by an interval or more with each grant that is given.
proof fn lemma_allow_spends(p: PositionView, now: nat)
    requires
        p.wf(),
        p.accepts(now),
    ensures
        p.after_allow(now).wf(),
        p.after_allow(now).start == p.start,
        p.after_allow(now).prev <= p.elapsed(now),
        p.refuses(now) ==> p.after_allow(now) == p,
        !p.refuses(now) ==> p.after_allow(now).capacity * INTERVAL - p.after_allow(now).prev
            + INTERVAL <= p.capacity * INTERVAL - p.prev,
{
    if !p.refuses(now) {
        let diff = p.uncredited(now);
        let new = diff / INTERVAL as int;
        assert(p.after_allow(now).prev == p.prev + new * INTERVAL);
        assert(p.after_allow(now).capacity <= p.capacity + new - 1);
    }
}

/// However grants are asked for, no more of them are given than the budget held, and one for
/// each interval between the time that it had been credited up to and the last request.
pub proof fn grants_are_limited(p: PositionView, times: Seq<nat>)
    requires
        p.wf(),
        times.len() > 0,
        p.accepts_all(times),
    ensures
        p.grants(times) * INTERVAL <= p.capacity * INTERVAL + p.uncredited(times.last()),
{
    let before = times.drop_last();
    lemma_grants(p, before);
    lemma_allow_spends(p.after_allows(before), times.last());
}

/// As long as the clock does not run backwards, and 64 bits hold the nanoseconds since the
/// start, every request can be made.
pub proof fn steady_clock_is_accepted(p: PositionView, times: Seq<nat>)
    requires
        p.wf(),
        times.len() > 0 ==> p.accepts(times.first()),
        forall|i: int, j: int| 0 <= i <= j < times.len() ==> times[i] <= times[j],
        times.len() > 0 ==> since(times.last(), p.start) < U64_VALUES,
    ensures
        p.accepts_all(times),
    decreases times.len(),
{
    reveal_with_fuel(PositionView::after_allows, 2);
    reveal_with_fuel(PositionView::accepts_all, 2);
    if times.len() > 1 {
        let before = times.drop_last();
        assert(before.last() <= times.last());
        steady_clock_is_accepted(p, before);
        let earlier = before.drop_last();
        lemma_grants(p, earlier);
        lemma_allow_spends(p.after_allows(earlier), before.last());
    }
}

/// A new position, asked for grants at times that do not go back, gives a full budget of them
/// and one for each interval that has passed, and no more.
pub proof fn new_position_is_limited(p: PositionView, times: Seq<nat>, span: nat)
    requires
        p.capacity == MAX_BURST,
        p.prev == 0,
        forall|i: int, j: int| 0 <= i <= j < times.len() ==> times[i] <= times[j],
        forall|i: int| 0 <= i < times.len() ==> p.start <= #[trigger] times[i] <= p.start + span,
        span < U64_VALUES,
    ensures
        p.accepts_all(times),
        p.grants(times) <= MAX_BURST + span / INTERVAL as nat,
{
    steady_clock_is_accepted(p, times);
    if times.len() > 0 {
        grants_are_limited(p, times);
        assert(times.last() == times[times.len() - 1]);
    }
}

proof fn lemma_grants(p: PositionView, times: Seq<nat>)
    requires
        p.wf(),
        p.accepts_all(times),
    ensures
        p.after_allows(times).wf(),
        p.after_allows(times).start == p.start,
        p.grants(times) * INTERVAL + p.prev + p.after_allows(times).capacity * INTERVAL
            <= p.capacity * INTERVAL + p.after_allows(times).prev,
    decreases times.len(),
{
    if times.len() > 0 {
        let before = times.drop_last();
        lemma_grants(p, before);
        lemma_allow_spends(p.after_allows(before), times.last());
    }
}

/// Within one interval, the first requests are granted until the budget is used up, and
/// every further one is refused; what is not granted stays in the budget.
pub proof fn burst_is_capacity(p: PositionView, now: nat, n: nat)
    requires
        p.wf(),
        0 <= p.uncredited(now) < INTERVAL,
    ensures
        ({
            let times = Seq::new(n, |i: int| now);
            let given = if n <= p.capacity {
                n
            } else {
                p.capacity as nat
            };
            &&& p.accepts_all(times)
            &&& p.grants(times) == given
            &&& p.after_allows(times) == PositionView {
                capacity: (p.capacity - given) as u8,
                ..p
            }
        }),
    decreases n,
{
    let times = Seq::new(n, |i: int| now);
    if n > 0 {
        let before = Seq::new((n - 1) as nat, |i: int| now);
        assert(times.drop_last() == before);
        burst_is_capacity(p, now, (n - 1) as nat);
    }
}

/// A request that comes an interval or more after the credited time is granted.
pub proof fn interval_earns_a_grant(p: PositionView, now: nat)
    requires
        p.uncredited(now) >= INTERVAL,
    ensures
        !p.refuses(now),
{
}

/// A grant credits the budget with whole intervals only, and leaves less than one interval
/// uncredited: no time is lost and none is counted twice.
pub proof fn grant_credits_whole_intervals(p: PositionView, now: nat)
    requires
        p.wf(),
        p.accepts(now),
        !p.refuses(now),
    ensures
        0 <= p.after_allow(now).uncredited(now) < INTERVAL,
        p.after_allow(now).prev == p.prev + INTERVAL * (p.uncredited(now) / INTERVAL as int),
{
}

/// As long as the clock does not run backwards, and 64 bits hold the nanoseconds since the
/// start, the credited time stays behind the clock, whatever is done to the position.
pub proof fn credit_stays_behind_clock(p: PositionView, then: nat, now: nat, n: u64)
    requires
        p.uncredited(then) >= 0,
        then <= now,
        since(now, p.start) < U64_VALUES,
    ensures
        p.uncredited(now) >= 0,
        p.after_allow(now).uncredited(now) >= 0,
        p.after_reset(now).uncredited(now) >= 0,
        p.after_inc(n).uncredited(now) >= 0,
        p.after_set(n).uncredited(now) >= 0,
{
}

/// A reset credits the budget up to its own time: what passed before earns nothing more.
pub proof fn reset_credits_everything(p: PositionView, now: nat)
    ensures
        p.after_reset(now).uncredited(now) == 0,
        p.after_reset(now).accepts(now),
        p.after_reset(now).capacity == p.capacity,
{
}

/// Adding to the position, or setting it, leaves the budget alone.
pub proof fn budget_ignores_position(p: PositionView, n: u64, now: nat)
    ensures
        p.after_inc(n).refuses(now) == p.refuses(now),
        p.after_set(n).refuses(now) == p.refuses(now),
        p.after_inc(n).accepts(now) == p.accepts(now),
        p.after_set(n).accepts(now) == p.accepts(now),
{
}

/// Two additions are one addition of the sum, which starts over at zero as they do.
pub proof fn increments_add_up(p: PositionView, a: u64, b: u64)
    ensures
        p.after_inc(a).after_inc(b) == p.after_inc(((a + b) % U64_VALUES as int) as u64),
{
}

/// The elapsed time leads from the start to now, short of whole rounds of 64 bits, and is zero
/// before the start.
pub proof fn elapsed_leads_from_start(p: PositionView, now: nat)
    ensures
        0 <= p.elapsed(now) <= u64::MAX,
        now <= p.start ==> p.elapsed(now) == 0,
        now >= p.start ==> (now - (p.start + p.elapsed(now))) % (u64::MAX + 1) == 0,
        p.start <= now <= p.start + u64::MAX ==> p.start + p.elapsed(now) == now,
{
}

/// A request that comes `k` whole intervals after the credited time is refused only if `k` is
/// zero and the budget is empty, and then changes nothing. Otherwise the `k` grants join those
/// that were left, one is taken, and what exceeds the limit of the budget is lost; the credited
/// time moves on by the `k` intervals.
pub proof fn grant_joins_and_takes_one(p: PositionView, now: nat, k: nat)
    requires
        p.wf(),
        p.prev + k * INTERVAL <= p.elapsed(now) < p.prev + k * INTERVAL + INTERVAL,
    ensures
        p.accepts(now),
        p.refuses(now) <==> p.capacity == 0 && k == 0,
        ({
            let after = p.after_allow(now);
            &&& after.pos == p.pos
            &&& after.start == p.start
            &&& p.refuses(now) ==> after.capacity == p.capacity && after.prev == p.prev
            &&& !p.refuses(now) ==> after.prev == p.prev + k * INTERVAL
            &&& !p.refuses(now) && p.capacity + k <= MAX_BURST + 1 ==> after.capacity + 1
                == p.capacity + k
            &&& p.capacity + k > MAX_BURST + 1 ==> after.capacity == MAX_BURST
        }),
{
}

/// A request at a time that lies behind the credited time cannot be made, and every other can.
pub proof fn only_a_clock_behind_is_shut_out(p: PositionView, now: nat)
    ensures
        p.accepts(now) <==> p.prev <= p.elapsed(now),
{
}

/// Asked `n` times at one instant, `k` whole intervals after the credited time, a position gives
/// the grants that were left and the `k` earned ones, or one more than a full budget where that
/// is less, and refuses the rest.
pub proof fn burst_after_pause(p: PositionView, now: nat, k: nat, n: nat)
    requires
        p.wf(),
        k >= 1,
        p.prev + k * INTERVAL <= p.elapsed(now) < p.prev + k * INTERVAL + INTERVAL,
    ensures
        ({
            let times = Seq::new(n, |i: int| now);
            let most = if p.capacity + k <= MAX_BURST + 1 {
                p.capacity + k
            } else {
                MAX_BURST + 1
            };
            &&& p.accepts_all(times)
            &&& n <= most ==> p.grants(times) == n
            &&& n >= most ==> p.grants(times) == most
            &&& n >= 1 && n <= most ==> p.after_allows(times).capacity == most - n
            &&& n >= most ==> p.after_allows(times).capacity == 0
            &&& n >= 1 ==> p.after_allows(times).prev == p.prev + k * INTERVAL
            &&& p.after_allows(times).pos == p.pos
            &&& p.after_allows(times).start == p.start
        }),
    decreases n,
{
    let times = Seq::new(n, |i: int| now);
    if n > 0 {
        let before = Seq::new((n - 1) as nat, |i: int| now);
        assert(times.drop_last() == before);
        burst_after_pause(p, now, k, (n - 1) as nat);
        if n == 1 {
            assert(before =~= Seq::empty());
        }
    } else {
        assert(times =~= Seq::empty());
    }
}

/// Every grant that is given costs exactly one interval's worth, as long as the budget does not
/// reach its limit: the grants left and the time still to be credited together lose one interval
/// with each grant, and with nothing else.
pub proof fn grant_costs_one_interval(p: PositionView, now: nat)
    requires
        p.wf(),
        p.prev <= p.elapsed(now),
        p.after_allow(now).capacity < MAX_BURST,
    ensures
        p.after_allow(now).capacity * INTERVAL + (p.elapsed(now) - p.after_allow(now).prev)
            + if p.refuses(now) {
            0
        } else {
            INTERVAL as int
        } == p.capacity * INTERVAL + (p.elapsed(now) - p.prev),
{
}

/// A reset puts the position to zero and the credited time to now; the grants that are left, and
/// the start, stay.
pub proof fn reset_credits_up_to_now(p: PositionView, now: nat)
    ensures
        p.after_reset(now).pos == 0,
        p.after_reset(now).capacity == p.capacity,
        p.after_reset(now).start == p.start,
        p.start <= now <= p.start + u64::MAX ==> p.start + p.after_reset(now).prev == now,
        now <= p.start ==> p.after_reset(now).prev == 0,
        p.after_reset(now).prev == p.elapsed(now),
{
}

/// An addition moves the position on by just what is added, short of whole rounds of 64 bits; a
/// set position is what was set, whatever it was before. Neither touches anything else.
pub proof fn position_follows_changes(p: PositionView, n: u64)
    ensures
        p.pos + n <= u64::MAX ==> p.after_inc(n).pos == p.pos + n,
        p.pos + n > u64::MAX ==> p.after_inc(n).pos + u64::MAX + 1 == p.pos + n,
        p.after_set(n).pos == n,
        p.after_inc(n).capacity == p.capacity && p.after_set(n).capacity == p.capacity,
        p.after_inc(n).prev == p.prev && p.after_set(n).prev == p.prev,
        p.after_inc(n).start == p.start && p.after_set(n).start == p.start,
{
}

} // verus!
