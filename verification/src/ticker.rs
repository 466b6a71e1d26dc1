//! A ticker: what moves a progress bar on while nothing else does.

use vstd::prelude::*;

use crate::bar::{BarState, BarView, DrawRequest, Reset};
use crate::finish::FinishView;
use crate::progress::{StateView, Status};
use crate::time::{Duration, Instant};

verus! {

impl BarView {
    /// The bar after a ticker with `interval` was asked for: no ticker ticks without a pause.
    pub open spec fn after_spawn(self, interval: nat) -> BarView {
        if interval == 0 {
            self
        } else {
            BarView { ticker: Some(interval), ..self }
        }
    }

    /// Whether the ticker of the bar takes another turn.
    pub open spec fn keeps_ticking(self) -> bool {
        self.ticker is Some && !self.state.finished()
    }

    /// The bar after a turn of its ticker, which counts as soon as the bar has ticked once.
    pub open spec fn after_turn(self) -> BarView {
        if self.keeps_ticking() && self.state.tick != 0 {
            BarView { state: self.state.after_count(), ..self }
        } else {
            self
        }
    }
}

/// What a caller that asked for a ticker has to do.
pub enum Spawn {
    /// Nothing: the interval is zero.
    Refused,
    /// Nothing: the ticker that is there goes on with the new interval.
    Retimed,
    /// Let the ticker take its turns, and tick the bar once.
    Started(Ticker),
}

/// The pace of a ticker: it pauses for its interval before each turn.
pub struct Ticker {
    interval: Duration,
}

impl View for Ticker {
    type V = nat;

    closed spec fn view(&self) -> nat {
        self.interval@
    }
}

impl Ticker {
    /// Asks for a ticker of `bar`.
    pub fn spawn(bar: &mut BarState, interval: Duration) -> (spawn: Spawn)
        ensures
            final(bar)@ == old(bar)@.after_spawn(interval@),
            spawn is Refused <==> interval@ == 0,
            spawn is Retimed <==> interval@ != 0 && old(bar)@.ticker is Some,
            spawn is Started <==> interval@ != 0 && old(bar)@.ticker is None,
            spawn matches Spawn::Started(ticker) ==> ticker@ == interval@,
    {
        if interval.is_zero() {
            return Spawn::Refused;
        } else if bar.ticker.is_some() {
            bar.ticker = Some(interval);
            return Spawn::Retimed;
        }
        bar.ticker = Some(interval);
        Spawn::Started(Ticker { interval })
    }

    /// Takes a turn of the ticker of `bar` at `now`, and keeps the bar's interval for the next
    /// pause. Without a request there are no more turns.
    pub fn run(&mut self, bar: &mut BarState, now: Instant) -> (request: Option<DrawRequest>)
        ensures
            final(bar)@ == old(bar)@.after_turn(),
            request == if old(bar)@.keeps_ticking() {
                Some(DrawRequest { force: false, now })
            } else {
                None
            },
            final(self)@ == if old(bar)@.keeps_ticking() {
                old(bar)@.ticker->0
            } else {
                old(self)@
            },
    {
        let next: Option<Duration> = if bar.state.is_finished() {
            None
        } else {
            bar.ticker
        };
        match next {
            None => None,
            Some(interval) => {
                if bar.state.tick() != 0 {
                    bar.state.count_tick();
                }
                self.interval = interval;
                Some(bar.draw(false, now))
            },
        }
    }

    /// The pause before the next turn.
    pub fn interval(&self) -> (d: Duration)
        ensures
            d@ == self@,
    {
        self.interval
    }
}

/// A finished bar has no more turns of its ticker, whatever way it was finished.
pub proof fn finish_stops_ticker(b: BarView, finish: FinishView)
    ensures
        !b.after_finish(finish).keeps_ticking(),
        !b.after_drop().keeps_ticking(),
{
}

/// A ticker that is there is not started a second time: asking for one sets its interval, the
/// last one asked for.
pub proof fn last_interval_counts(b: BarView, first: nat, second: nat)
    requires
        second != 0,
    ensures
        b.after_spawn(first).after_spawn(second) == b.after_spawn(second),
        b.after_spawn(second).ticker == Some(second),
{
}

/// Once a ticker was asked for and the bar has ticked, every turn of the ticker counts, and
/// no other tick does.
pub proof fn ticker_counts_alone(b: BarView, interval: nat, now: nat)
    requires
        interval != 0,
        !b.state.finished(),
    ensures
        ({
            let started = b.after_spawn(interval).after_tick(now);
            &&& started.keeps_ticking()
            &&& started.state.tick != 0
            &&& started.after_turn().state == started.state.after_count()
            &&& started.after_turn().keeps_ticking()
            &&& started.after_tick(now).state.tick == started.state.tick
        }),
{
}

/// A finished bar stays finished, and where it is, until everything is reset: neither ticks
/// nor turns, nor partial resets, nor a new length or ticker start it again.
pub proof fn finished_until_reset(b: BarView, now: nat, len: u64, interval: nat)
    requires
        b.state.finished(),
    ensures
        b.after_tick(now).state.status == b.state.status,
        b.after_turn() == b,
        b.after_drop() == b,
        b.after_spawn(interval).state == b.state,
        b.with_len(len).state.status == b.state.status,
        b.after_reset(now, Reset::Eta).state.status == b.state.status,
        b.after_reset(now, Reset::Elapsed).state.status == b.state.status,
        !b.after_reset(now, Reset::All).state.finished(),
{
}

/// Asking for a ticker sets its interval, unless that is zero, when nothing changes; nothing but
/// the ticker ever does.
pub proof fn spawn_sets_interval(b: BarView, interval: nat)
    ensures
        interval == 0 ==> b.after_spawn(interval).ticker == b.ticker,
        interval > 0 ==> b.after_spawn(interval).ticker == Some(interval),
        b.after_spawn(interval) == (BarView { ticker: b.after_spawn(interval).ticker, ..b }),
{
}

/// A ticker takes its turns as long as it is there and the bar is running. Each turn adds one to
/// the ticks of a bar that has ticked, up to the end of their range, and changes nothing else.
pub proof fn turns_count(b: BarView)
    ensures
        b.keeps_ticking() <==> b.ticker is Some && b.state.status == Status::InProgress,
        b.ticker is None || b.state.status != Status::InProgress || b.state.tick == 0
            || b.state.tick == u64::MAX ==> b.after_turn().state.tick == b.state.tick,
        b.ticker is Some && b.state.status == Status::InProgress && 0 < b.state.tick < u64::MAX
            ==> b.after_turn().state.tick == b.state.tick + 1,
        b.after_turn() == (BarView {
            state: StateView { tick: b.after_turn().state.tick, ..b.state },
            ..b
        }),
{
}

} // verus!
