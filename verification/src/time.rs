//! Points in time and lengths of time, counted in whole nanoseconds.

use vstd::prelude::*;

verus! {

/// Nanoseconds in a second.
pub const NANOS_PER_SEC: u128 = 1_000_000_000;

/// The longest [`Duration`]: `u64::MAX` seconds and 999 999 999 nanoseconds.
pub const MAX_NANOS: u128 = 18_446_744_073_709_551_615_999_999_999;

/// The time from `earlier` to `later`, or zero where `earlier` is the later of the two.
pub open spec fn since(later: nat, earlier: nat) -> nat {
    if later >= earlier {
        (later - earlier) as nat
    } else {
        0
    }
}

/// A length of time. Its view is the number of nanoseconds.
#[derive(Clone, Copy, Debug, PartialEq, Eq, Structural)]
pub struct Duration {
    nanos: u128,
}

impl View for Duration {
    type V = nat;

    closed spec fn view(&self) -> nat {
        self.nanos as nat
    }
}

impl Duration {
    #[verifier::type_invariant]
    closed spec fn in_range(self) -> bool {
        self.nanos <= MAX_NANOS
    }

    /// `secs` seconds and `nanos` nanoseconds; a billion nanoseconds or more carry over.
    pub fn new(secs: u64, nanos: u32) -> (d: Duration)
        requires
            secs * NANOS_PER_SEC + nanos <= MAX_NANOS,
        ensures
            d@ == secs * NANOS_PER_SEC + nanos,
    {
        Duration { nanos: (secs as u128) * NANOS_PER_SEC + nanos as u128 }
    }

    /// `secs` whole seconds.
    pub fn from_secs(secs: u64) -> (d: Duration)
        ensures
            d@ == secs * NANOS_PER_SEC,
    {
        Duration::new(secs, 0)
    }

    /// The whole length in nanoseconds.
    pub fn as_nanos(&self) -> (n: u128)
        ensures
            n == self@,
            n <= MAX_NANOS,
    {
        proof {
            use_type_invariant(self);
        }
        self.nanos
    }

    /// The whole seconds of this length.
    pub fn as_secs(&self) -> (n: u64)
        ensures
            n == self@ / NANOS_PER_SEC as nat,
    {
        proof {
            use_type_invariant(self);
        }
        (self.nanos / NANOS_PER_SEC) as u64
    }

    /// What is left of this length beside its whole seconds, in nanoseconds.
    pub fn subsec_nanos(&self) -> (n: u32)
        ensures
            n == self@ % NANOS_PER_SEC as nat,
    {
        (self.nanos % NANOS_PER_SEC) as u32
    }

    /// Whether this length is zero.
    pub fn is_zero(&self) -> (b: bool)
        ensures
            b == (self@ == 0),
    {
        self.nanos == 0
    }

    /// The two lengths one after the other.
    pub fn plus(&self, rhs: Duration) -> (d: Duration)
        requires
            self@ + rhs@ <= MAX_NANOS,
        ensures
            d@ == self@ + rhs@,
    {
        Duration { nanos: self.nanos + rhs.nanos }
    }
}

/// A point in time. Its view is its distance in nanoseconds from the clock's starting point,
/// which the caller's clock fixes once.
#[derive(Clone, Copy, Debug, PartialEq, Eq, Structural)]
pub struct Instant {
    since_origin: Duration,
}

impl View for Instant {
    type V = nat;

    closed spec fn view(&self) -> nat {
        self.since_origin@
    }
}

impl Instant {
    /// The point in time that lies `since_origin` after the clock's starting point.
    pub fn at(since_origin: Duration) -> (t: Instant)
        ensures
            t@ == since_origin@,
    {
        Instant { since_origin }
    }

    /// The time from `earlier` to this instant, or zero where `earlier` is the later one.
    pub fn duration_since(&self, earlier: Instant) -> (d: Duration)
        ensures
            d@ == since(self@, earlier@),
            earlier@ <= self@ ==> earlier@ + d@ == self@,
            earlier@ >= self@ ==> d@ == 0,
    {
        let later: u128 = self.since_origin.as_nanos();
        let earlier: u128 = earlier.since_origin.as_nanos();
        if later >= earlier {
            Duration { nanos: later - earlier }
        } else {
            Duration { nanos: 0 }
        }
    }

    /// Whether this instant lies before `other`.
    pub fn is_before(&self, other: Instant) -> (b: bool)
        ensures
            b == (self@ < other@),
    {
        self.since_origin.as_nanos() < other.since_origin.as_nanos()
    }

    /// The instant that lies `span` after this one.
    pub fn plus(&self, span: Duration) -> (t: Instant)
        requires
            self@ + span@ <= MAX_NANOS,
        ensures
            t@ == self@ + span@,
    {
        Instant { since_origin: self.since_origin.plus(span) }
    }
}

/// The time between two instants leads from the earlier one to the later one. It is zero the
/// other way round, and the times over two stretches that meet add up.
pub proof fn since_leads_there(a: nat, b: nat, c: nat)
    requires
        a <= b <= c,
    ensures
        a + since(b, a) == b,
        since(a, b) == 0,
        since(b, a) + since(c, b) == since(c, a),
{
}

} // verus!
