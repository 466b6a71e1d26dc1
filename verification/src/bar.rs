//! A progress bar: what each operation does to it, and when it is to be redrawn.

use std::borrow::Cow;

use vstd::prelude::*;

use crate::estimator::EstimatorView;
use crate::finish::{FinishView, ProgressFinish};
use crate::position::AtomicPosition;
use crate::progress::{ProgressState, StateView, Status};
use crate::text::{chars, line_views, lines_of, split_lines};
use crate::time::{Duration, Instant};

verus! {

/// A wish to draw: whether the draw target may not pass it over, and its time.
#[derive(Clone, Copy, Debug, PartialEq, Eq, Structural)]
pub struct DrawRequest {
    pub force: bool,
    pub now: Instant,
}

/// What a draw target is to show: lines of text, the first of which do not belong to the bar.
pub struct DrawState {
    pub lines: Vec<String>,
    /// The number of lines at the beginning that stay on the screen when the bar moves on.
    pub orphan_lines: usize,
}

/// The texts of a style that operations on a bar change.
pub struct StyleTexts {
    pub message: Cow<'static, str>,
    pub prefix: Cow<'static, str>,
}

/// What [`BarState::reset`] starts over.
#[derive(Clone, Copy, Debug, PartialEq, Eq, Structural)]
pub enum Reset {
    /// The estimate.
    Eta,
    /// The elapsed time.
    Elapsed,
    /// The estimate, the elapsed time, the position and the status.
    All,
}

/// What a bar that gives way to other output asks for.
#[derive(Clone, Copy, Debug, PartialEq, Eq, Structural)]
pub struct Suspension {
    /// The request under which the bar is cleared, before the other output.
    pub clear: DrawRequest,
    /// The request under which the bar is drawn again, after it.
    pub redraw: DrawRequest,
}

/// What a [`BarState`] holds.
pub struct BarView {
    /// What becomes of the bar when it goes out of use.
    pub on_finish: FinishView,
    /// The message of its style.
    pub message: Seq<char>,
    /// The prefix of its style.
    pub prefix: Seq<char>,
    /// Its state.
    pub state: StateView,
    /// The interval of its ticker, if it has one.
    pub ticker: Option<nat>,
}

impl BarView {
    /// The bar has a place on the screen.
    pub open spec fn shown(self) -> bool {
        self.state.status != Status::DoneHidden
    }

    /// The bar after it was finished as `finish` says.
    pub open spec fn after_finish(self, finish: FinishView) -> BarView {
        let status = if finish is AndClear {
            Status::DoneHidden
        } else {
            Status::DoneVisible
        };
        let completes = !(finish is Abandon || finish is AbandonWithMessage);
        BarView {
            state: StateView {
                status,
                pos: if completes {
                    self.state.pos.after_set(self.state.len)
                } else {
                    self.state.pos
                },
                ..self.state
            },
            message: match finish {
                FinishView::WithMessage(msg) => msg,
                FinishView::AbandonWithMessage(msg) => msg,
                _ => self.message,
            },
            ..self
        }
    }

    /// The bar after `mode` of it was started over at `now`.
    pub open spec fn after_reset(self, now: nat, mode: Reset) -> BarView {
        let s = self.state;
        BarView {
            state: StateView {
                est: if mode == Reset::Elapsed {
                    s.est
                } else {
                    EstimatorView::empty(now)
                },
                started: if mode == Reset::Eta {
                    s.started
                } else {
                    now
                },
                pos: if mode == Reset::All {
                    s.pos.after_reset(now)
                } else {
                    s.pos
                },
                status: if mode == Reset::All {
                    Status::InProgress
                } else {
                    s.status
                },
                ..s
            },
            ..self
        }
    }

    /// The bar after it ticked at `now`. Beside a ticker, which counts by itself, only the
    /// first tick counts.
    pub open spec fn after_tick(self, now: nat) -> BarView {
        BarView {
            state: (if self.ticker is None || self.state.tick == 0 {
                self.state.after_count()
            } else {
                self.state
            }).after_record(now),
            ..self
        }
    }

    /// The bar with length `len`.
    pub open spec fn with_len(self, len: u64) -> BarView {
        BarView { state: StateView { len, ..self.state }, ..self }
    }

    /// The length after `delta` was added to it; it stops at `u64::MAX`.
    pub open spec fn longer(self, delta: u64) -> u64 {
        if self.state.len + delta <= u64::MAX {
            (self.state.len + delta) as u64
        } else {
            u64::MAX
        }
    }

    /// The bar after it went out of use: it is finished now, if it was not before.
    pub open spec fn after_drop(self) -> BarView {
        if self.state.finished() {
            self
        } else {
            self.after_finish(self.on_finish)
        }
    }

    /// The lines that the bar adds to a drawing, where its style makes `body` of it.
    pub open spec fn own_lines(self, body: Seq<Seq<char>>) -> Seq<Seq<char>> {
        if self.shown() {
            body
        } else {
            Seq::empty()
        }
    }
}

/// A progress bar.
pub struct BarState {
    pub on_finish: ProgressFinish,
    pub style: StyleTexts,
    pub state: ProgressState,
    /// The interval of the ticker, if there is one.
    pub ticker: Option<Duration>,
}

impl View for BarState {
    type V = BarView;

    open spec fn view(&self) -> BarView {
        BarView {
            on_finish: self.on_finish@,
            message: chars(self.style.message),
            prefix: chars(self.style.prefix),
            state: self.state@,
            ticker: match self.ticker {
                Some(interval) => Some(interval@),
                None => None,
            },
        }
    }
}

impl BarState {
    /// A bar of length `len` that is started at `now`. It is cleared when it goes out of use,
    /// and has no ticker.
    pub fn new(len: u64, style: StyleTexts, pos: AtomicPosition, now: Instant) -> (bar: BarState)
        ensures
            bar@ == (BarView {
                on_finish: FinishView::AndClear,
                message: chars(style.message),
                prefix: chars(style.prefix),
                state: StateView {
                    pos: pos@,
                    len,
                    tick: 0,
                    started: now@,
                    status: Status::InProgress,
                    est: EstimatorView::empty(now@),
                },
                ticker: None,
            }),
    {
        BarState {
            on_finish: ProgressFinish::default(),
            style,
            state: ProgressState::new(len, pos, now),
            ticker: None,
        }
    }

    /// Finishes the bar as `finish` says.
    pub fn finish_using_style(&mut self, now: Instant, finish: ProgressFinish) -> (request:
        DrawRequest)
        ensures
            final(self)@ == old(self)@.after_finish(finish@),
            request == (DrawRequest { force: true, now }),
    {
        self.state.set_status(Status::DoneVisible);
        match finish {
            ProgressFinish::AndLeave => {
                let len: u64 = self.state.len();
                self.state.set_pos(len);
            },
            ProgressFinish::WithMessage(msg) => {
                let len: u64 = self.state.len();
                self.state.set_pos(len);
                self.style.message = msg;
            },
            ProgressFinish::AndClear => {
                let len: u64 = self.state.len();
                self.state.set_pos(len);
                self.state.set_status(Status::DoneHidden);
            },
            ProgressFinish::Abandon => {},
            ProgressFinish::AbandonWithMessage(msg) => {
                self.style.message = msg;
            },
        }
        self.draw(true, now)
    }

    /// Starts `mode` of the bar over at `now`. Only a reset of all of it is drawn.
    pub fn reset(&mut self, now: Instant, mode: Reset) -> (request: Option<DrawRequest>)
        ensures
            final(self)@ == old(self)@.after_reset(now@, mode),
            request == if mode == Reset::All {
                Some(DrawRequest { force: false, now })
            } else {
                None
            },
    {
        if mode == Reset::Eta || mode == Reset::All {
            self.state.restart_estimate(now);
        }
        if mode == Reset::Elapsed || mode == Reset::All {
            self.state.restart_elapsed(now);
        }
        if mode == Reset::All {
            self.state.position_mut().reset(now);
            self.state.set_status(Status::InProgress);
            return Some(self.draw(false, now));
        }
        None
    }

    /// Changes the state by `f` and ticks.
    pub fn update<F: FnOnce(&mut ProgressState)>(&mut self, now: Instant, f: F) -> (request:
        DrawRequest)
        requires
            forall|s: &mut ProgressState|
                *s == old(self).state ==> #[trigger] call_requires(f, (s,)),
            forall|s: &mut ProgressState|
                *s == old(self).state && #[trigger] call_ensures(f, (s,), ())
                    ==> final(s)@.can_record(),
        ensures
            exists|s: &mut ProgressState|
                {
                    &&& *s == old(self).state
                    &&& #[trigger] call_ensures(f, (s,), ())
                    &&& final(self)@ == (BarView { state: final(s)@, ..old(self)@ }).after_tick(
                        now@,
                    )
                    &&& request == (DrawRequest { force: final(s)@.finished(), now })
                },
    {
        f(&mut self.state);
        self.tick(now)
    }

    /// Sets the length and ticks.
    pub fn set_length(&mut self, now: Instant, len: u64) -> (request: DrawRequest)
        requires
            old(self)@.state.can_record(),
        ensures
            final(self)@ == old(self)@.with_len(len).after_tick(now@),
            request == (DrawRequest { force: old(self)@.state.finished(), now }),
    {
        self.state.set_len(len);
        self.tick(now)
    }

    /// Adds `delta` to the length and ticks.
    pub fn inc_length(&mut self, now: Instant, delta: u64) -> (request: DrawRequest)
        requires
            old(self)@.state.can_record(),
        ensures
            final(self)@ == old(self)@.with_len(old(self)@.longer(delta)).after_tick(now@),
            request == (DrawRequest { force: old(self)@.state.finished(), now }),
    {
        let len: u64 = self.state.len().saturating_add(delta);
        self.state.set_len(len);
        self.tick(now)
    }

    /// Sets the message and ticks.
    pub fn set_message(&mut self, now: Instant, msg: Cow<'static, str>) -> (request: DrawRequest)
        requires
            old(self)@.state.can_record(),
        ensures
            final(self)@ == (BarView { message: chars(msg), ..old(self)@ }).after_tick(now@),
            request == (DrawRequest { force: old(self)@.state.finished(), now }),
    {
        self.style.message = msg;
        self.tick(now)
    }

    /// Sets the prefix and ticks.
    pub fn set_prefix(&mut self, now: Instant, prefix: Cow<'static, str>) -> (request: DrawRequest)
        requires
            old(self)@.state.can_record(),
        ensures
            final(self)@ == (BarView { prefix: chars(prefix), ..old(self)@ }).after_tick(now@),
            request == (DrawRequest { force: old(self)@.state.finished(), now }),
    {
        self.style.prefix = prefix;
        self.tick(now)
    }

    /// Ticks: counts, shows the position to the estimator and asks to be drawn.
    pub fn tick(&mut self, now: Instant) -> (request: DrawRequest)
        requires
            old(self)@.state.can_record(),
        ensures
            final(self)@ == old(self)@.after_tick(now@),
            request == (DrawRequest { force: old(self)@.state.finished(), now }),
    {
        if self.ticker.is_none() || self.state.tick() == 0 {
            self.state.count_tick();
        }
        self.state.record(now);
        self.draw(false, now)
    }

    /// The request under which a message is printed above the bar at `now`.
    pub fn println_request(&self, now: Instant) -> (request: DrawRequest)
        ensures
            request == (DrawRequest { force: true, now }),
    {
        DrawRequest { force: true, now }
    }

    /// Puts the lines of `msg` behind what `draw_state` holds, for good, and the bar, of which
    /// its style makes `body`, behind them.
    pub fn println(&self, draw_state: &mut DrawState, msg: &str, body: Vec<String>)
        ensures
            line_views(final(draw_state).lines@) == line_views(old(draw_state).lines@) + lines_of(
                msg@,
            ) + self@.own_lines(line_views(body@)),
            final(draw_state).orphan_lines == old(draw_state).lines@.len() + lines_of(msg@).len(),
    {
        let ghost before = line_views(draw_state.lines@);
        let mut lines: Vec<String> = split_lines(msg);
        draw_state.lines.append(&mut lines);
        draw_state.orphan_lines = draw_state.lines.len();
        assert(line_views(draw_state.lines@) =~= before + lines_of(msg@));
        self.add_own_lines(draw_state, body);
    }

    /// What the bar asks for to give way to other output at `now`.
    pub fn suspend(&self, now: Instant) -> (s: Suspension)
        ensures
            s == (Suspension {
                clear: DrawRequest { force: true, now },
                redraw: DrawRequest { force: true, now },
            }),
    {
        Suspension { clear: DrawRequest { force: true, now }, redraw: self.draw(true, now) }
    }

    /// The request under which the bar is drawn at `now`. A finished bar is always drawn.
    pub fn draw(&self, force_draw: bool, now: Instant) -> (request: DrawRequest)
        ensures
            request == (DrawRequest { force: force_draw || self@.state.finished(), now }),
    {
        DrawRequest { force: force_draw || self.state.is_finished(), now }
    }

    /// Whether the bar has a place on the screen, so that its style has to make lines of it.
    pub fn is_shown(&self) -> (b: bool)
        ensures
            b == self@.shown(),
    {
        match self.state.status() {
            Status::DoneHidden => false,
            _ => true,
        }
    }

    /// Puts the bar, of which its style makes `body`, behind what `draw_state` holds.
    pub fn add_own_lines(&self, draw_state: &mut DrawState, body: Vec<String>)
        ensures
            line_views(final(draw_state).lines@) == line_views(old(draw_state).lines@)
                + self@.own_lines(line_views(body@)),
            final(draw_state).orphan_lines == old(draw_state).orphan_lines,
    {
        let ghost before = line_views(draw_state.lines@);
        if self.is_shown() {
            let mut body: Vec<String> = body;
            draw_state.lines.append(&mut body);
        }
        assert(line_views(draw_state.lines@) =~= before + self@.own_lines(line_views(body@)));
    }

    /// Takes the bar out of use at `now`: one that is not finished is finished as its
    /// `on_finish` says.
    pub fn finish_on_drop(&mut self, now: Instant) -> (request: Option<DrawRequest>)
        ensures
            final(self)@ == old(self)@.after_drop(),
            request == if old(self)@.state.finished() {
                None
            } else {
                Some(DrawRequest { force: true, now })
            },
    {
        if self.state.is_finished() {
            return None;
        }
        let finish: ProgressFinish = self.on_finish.clone();
        Some(self.finish_using_style(now, finish))
    }
}

/// However a bar is finished, it is finished then. It leaves the screen only if it is to be
/// cleared; it is complete unless it is abandoned, in which case its position stays; its
/// message changes only to one that comes with the finish; and nothing else changes.
pub proof fn finish_finishes(b: BarView, finish: FinishView)
    ensures
        b.after_finish(finish).state.finished(),
        b.after_finish(finish).shown() <==> !(finish is AndClear),
        finish is Abandon || finish is AbandonWithMessage ==> b.after_finish(finish).state.pos
            == b.state.pos,
        !(finish is Abandon || finish is AbandonWithMessage) ==> b.after_finish(
            finish,
        ).state.pos.pos == b.state.len,
        !(finish is WithMessage || finish is AbandonWithMessage) ==> b.after_finish(finish).message
            == b.message,
        finish matches FinishView::WithMessage(msg) ==> b.after_finish(finish).message == msg,
        finish matches FinishView::AbandonWithMessage(msg) ==> b.after_finish(finish).message
            == msg,
        b.after_finish(finish) == (BarView {
            message: b.after_finish(finish).message,
            state: StateView {
                status: b.after_finish(finish).state.status,
                pos: b.state.pos.after_set(b.after_finish(finish).state.pos.pos),
                ..b.state
            },
            ..b
        }),
{
}

/// To finish a bar twice in the same way is to finish it once.
pub proof fn finish_is_idempotent(b: BarView, finish: FinishView)
    ensures
        b.after_finish(finish).after_finish(finish) == b.after_finish(finish),
{
}

/// A bar that goes out of use is finished, and one that was finished before is left alone.
pub proof fn drop_finishes_once(b: BarView, finish: FinishView)
    ensures
        b.after_drop().state.finished(),
        b.after_drop().after_drop() == b.after_drop(),
        b.after_finish(finish).after_drop() == b.after_finish(finish),
{
}

/// A reset of everything leaves a running bar at position zero, without samples, that was
/// started now; only its length, its ticks and its budget outlast it.
pub proof fn reset_all_starts_over(b: BarView, now: nat)
    ensures
        b.after_reset(now, Reset::All).state == (StateView {
            pos: b.state.pos.after_reset(now),
            len: b.state.len,
            tick: b.state.tick,
            started: now,
            status: Status::InProgress,
            est: EstimatorView::empty(now),
        }),
        b.after_reset(now, Reset::All).state.pos.pos == 0,
        b.after_reset(now, Reset::All).state.elapsed(now) == 0,
{
}

/// A reset of everything takes back what finishing did to the state.
pub proof fn reset_all_undoes_finish(b: BarView, finish: FinishView, now: nat)
    ensures
        b.after_finish(finish).after_reset(now, Reset::All).state == b.after_reset(
            now,
            Reset::All,
        ).state,
{
}

/// The partial resets touch what they name and nothing else, in either order, and a reset of
/// everything does what both do.
pub proof fn resets_are_independent(b: BarView, now: nat)
    ensures
        b.after_reset(now, Reset::Eta) == (BarView {
            state: StateView { est: EstimatorView::empty(now), ..b.state },
            ..b
        }),
        b.after_reset(now, Reset::Elapsed) == (BarView {
            state: StateView { started: now, ..b.state },
            ..b
        }),
        b.after_reset(now, Reset::Eta).after_reset(now, Reset::Elapsed) == b.after_reset(
            now,
            Reset::Elapsed,
        ).after_reset(now, Reset::Eta),
        b.after_reset(now, Reset::Eta).after_reset(now, Reset::All) == b.after_reset(
            now,
            Reset::All,
        ),
        b.after_reset(now, Reset::Elapsed).after_reset(now, Reset::All) == b.after_reset(
            now,
            Reset::All,
        ),
{
}

/// A bar whose estimate was reset can tick, and a bar that can tick still can afterwards.
pub proof fn ticking_goes_on(b: BarView, now: nat)
    ensures
        b.after_reset(now, Reset::Eta).state.can_record(),
        b.after_reset(now, Reset::All).state.can_record(),
        b.state.can_record() ==> b.after_tick(now).state.can_record(),
{
}

/// A tick counts one, or nothing: beside a ticker only the first one counts, and the count
/// stops at its end. It never takes a count back, and leaves the bar as far as it has come.
pub proof fn tick_counts(b: BarView, now: nat)
    ensures
        b.after_tick(now).state.tick == if b.state.tick == u64::MAX || (b.ticker is Some
            && b.state.tick != 0) {
            b.state.tick as int
        } else {
            b.state.tick + 1
        },
        b.after_tick(now).state.tick > 0,
        b.after_tick(now).state.status == b.state.status,
        b.after_tick(now).state.pos == b.state.pos,
        b.after_tick(now).state.len == b.state.len,
{
}

/// Two additions to the length are one addition of the sum, which stops where they stop.
pub proof fn lengths_add_up(b: BarView, x: u64, y: u64)
    ensures
        b.with_len(b.longer(x)).longer(y) == if b.state.len + x + y <= u64::MAX {
            b.state.len + x + y
        } else {
            u64::MAX as int
        },
{
}

/// The view of a bar shows what it holds.
pub proof fn bar_view_shows_bar(b: BarState)
    ensures
        b@.on_finish == b.on_finish@,
        b@.message == chars(b.style.message),
        b@.prefix == chars(b.style.prefix),
        b@.state == b.state@,
        b.ticker is None <==> b@.ticker is None,
        b.ticker matches Some(interval) ==> b@.ticker == Some(interval@),
{
}

/// What finishing leaves behind: the status tells whether the bar was cleared, the position is
/// the length unless the bar was abandoned, the message is the one that came with the finish, if
/// any; all else is as before.
pub proof fn finish_leaves_behind(b: BarView, finish: FinishView)
    ensures
        ({
            let after = b.after_finish(finish);
            &&& finish is AndClear ==> after.state.status == Status::DoneHidden
            &&& !(finish is AndClear) ==> after.state.status == Status::DoneVisible
            &&& finish is AndLeave || finish is WithMessage || finish is AndClear
                ==> after.state.pos.pos == b.state.len
            &&& finish is Abandon || finish is AbandonWithMessage ==> after.state.pos.pos
                == b.state.pos.pos
            &&& finish matches FinishView::WithMessage(msg) ==> after.message == msg
            &&& finish matches FinishView::AbandonWithMessage(msg) ==> after.message == msg
            &&& finish is AndLeave || finish is AndClear || finish is Abandon ==> after.message
                == b.message
            &&& after.on_finish == b.on_finish
            &&& after.prefix == b.prefix
            &&& after.ticker == b.ticker
            &&& after.state.len == b.state.len
            &&& after.state.tick == b.state.tick
            &&& after.state.started == b.state.started
            &&& after.state.est == b.state.est
            &&& after.state.pos.capacity == b.state.pos.capacity
            &&& after.state.pos.prev == b.state.pos.prev
            &&& after.state.pos.start == b.state.pos.start
        }),
{
}

/// A running bar that goes out of use ends as its own `on_finish` says: it leaves the screen if
/// and only if that clears it, its position becomes the length unless that abandons it, and its
/// message becomes the one that comes with it, if any. A finished bar stays as it is.
pub proof fn drop_ends_as_on_finish_says(b: BarView)
    ensures
        ({
            let after = b.after_drop();
            let finish = b.on_finish;
            let running = b.state.status == Status::InProgress;
            &&& !running ==> after == b
            &&& running ==> after == b.after_finish(finish)
            &&& running ==> (after.state.status == Status::DoneHidden <==> finish is AndClear)
            &&& running ==> after.state.status != Status::InProgress
            &&& running && !(finish is Abandon || finish is AbandonWithMessage)
                ==> after.state.pos.pos == b.state.len
            &&& running && (finish is Abandon || finish is AbandonWithMessage)
                ==> after.state.pos.pos == b.state.pos.pos
            &&& running && finish is WithMessage ==> after.message == finish->WithMessage_0
            &&& running && finish is AbandonWithMessage ==> after.message
                == finish->AbandonWithMessage_0
            &&& !(finish is WithMessage || finish is AbandonWithMessage) ==> after.message
                == b.message
            &&& after.on_finish == finish
            &&& after.prefix == b.prefix
            &&& after.ticker == b.ticker
            &&& after.state.len == b.state.len
            &&& after.state.tick == b.state.tick
            &&& after.state.started == b.state.started
            &&& after.state.est == b.state.est
            &&& after.state.pos.capacity == b.state.pos.capacity
            &&& after.state.pos.prev == b.state.pos.prev
            &&& after.state.pos.start == b.state.pos.start
        }),
{
}

/// Every tick shows the position to the estimator, whatever the ticker and the count are: where
/// the clock has not gone back, the last sample is at the bar's position, and where the position
/// has moved on, the newest sample leads from the last one there. A tick changes nothing but the
/// samples and the count.
pub proof fn tick_samples_position(b: BarView, now: nat)
    requires
        b.state.est.wf(),
        b.state.est.prev_pos <= b.state.pos.pos,
    ensures
        ({
            let after = b.after_tick(now);
            let est = b.state.est;
            let last = after.state.est.recent().last();
            &&& est.prev_at <= now ==> after.state.est.prev_pos == b.state.pos.pos
            &&& est.prev_at <= now && est.prev_pos < b.state.pos.pos ==> {
                &&& after.state.est.prev_at == now
                &&& after.state.est.recent().len() > 0
                &&& est.prev_pos + last.delta == b.state.pos.pos
                &&& est.prev_at + last.elapsed == now
            }
            &&& est.prev_at > now || est.prev_pos == b.state.pos.pos ==> after.state.est == est
            &&& after.state.est == est.after_record(b.state.pos.pos, now)
            &&& after.state.pos == b.state.pos
            &&& after.state.len == b.state.len
            &&& after.state.started == b.state.started
            &&& after.state.status == b.state.status
            &&& after.on_finish == b.on_finish
            &&& after.message == b.message
            &&& after.prefix == b.prefix
            &&& after.ticker == b.ticker
        }),
{
    crate::progress::sampling_is_exact(b.state, now);
}

/// The ticker has no say in what a tick samples.
pub proof fn ticker_does_not_hinder_samples(b: BarView, ticker: Option<nat>, now: nat)
    ensures
        (BarView { ticker, ..b }).after_tick(now).state.est == b.after_tick(now).state.est,
{
}

/// Which parts a reset starts over: the samples with the estimate, the start with the elapsed
/// time, and with everything the position and the status too; all else is as before.
pub proof fn reset_starts_over(b: BarView, now: nat, mode: Reset)
    ensures
        ({
            let after = b.after_reset(now, mode);
            &&& mode == Reset::Eta || mode == Reset::All ==> {
                &&& after.state.est.steps.len() == 0
                &&& after.state.est.next == 0
                &&& after.state.est.prev_pos == 0
                &&& after.state.est.prev_at == now
            }
            &&& mode == Reset::Elapsed ==> after.state.est == b.state.est
            &&& mode == Reset::Elapsed || mode == Reset::All ==> after.state.started == now
            &&& mode == Reset::Eta ==> after.state.started == b.state.started
            &&& mode == Reset::All ==> {
                &&& after.state.status == Status::InProgress
                &&& after.state.pos.pos == 0
                &&& after.state.pos.prev == b.state.pos.elapsed(now)
                &&& after.state.pos.capacity == b.state.pos.capacity
                &&& after.state.pos.start == b.state.pos.start
            }
            &&& mode != Reset::All ==> after.state.status == b.state.status && after.state.pos
                == b.state.pos
            &&& after.state.len == b.state.len
            &&& after.state.tick == b.state.tick
            &&& after.on_finish == b.on_finish
            &&& after.message == b.message
            &&& after.prefix == b.prefix
            &&& after.ticker == b.ticker
        }),
{
}

/// A new length is the one that was given, and an addition lengthens by just what is added, up
/// to the end of its range; all else is as before.
pub proof fn length_follows_changes(b: BarView, n: u64)
    ensures
        b.with_len(n).state.len == n,
        b.with_len(n) == (BarView { state: StateView { len: n, ..b.state }, ..b }),
        b.state.len + n <= u64::MAX ==> b.longer(n) == b.state.len + n,
        b.state.len + n > u64::MAX ==> b.longer(n) == u64::MAX,
{
}

/// A bar is drawn with all the lines that its style makes of it, running or finished, unless it
/// was cleared, when none of them is.
pub proof fn only_a_cleared_bar_is_hidden(b: BarView, body: Seq<Seq<char>>)
    ensures
        b.shown() <==> b.state.status == Status::InProgress || b.state.status
            == Status::DoneVisible,
        b.state.status == Status::DoneHidden ==> b.own_lines(body).len() == 0,
        b.state.status != Status::DoneHidden ==> b.own_lines(body) == body,
{
}

} // verus!
