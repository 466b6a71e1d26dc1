use std::borrow::Cow;

use progress_state::{
    AtomicPosition, BarState, Duration, Fraction, Instant, ProgressState, Rate, Status,
    StyleTexts,
};

fn secs(n: u64) -> Instant {
    Instant::at(Duration::from_secs(n))
}

fn state(len: u64) -> ProgressState {
    ProgressState::new(len, AtomicPosition::new(secs(10)), secs(10))
}

/// A running bar that was started at second 10 and had come to `pos` a second later.
fn sampled(len: u64, pos: u64) -> BarState {
    let style = StyleTexts { message: Cow::Borrowed(""), prefix: Cow::Borrowed("") };
    let mut b = BarState::new(len, style, AtomicPosition::new(secs(10)), secs(10));
    b.state.set_pos(pos);
    b.tick(secs(11));
    b
}

#[test]
fn a_new_state() {
    let s = state(100);
    assert!(!s.is_finished());
    assert_eq!(s.status(), Status::InProgress);
    assert_eq!(s.pos(), 0);
    assert_eq!(s.len(), 100);
    assert_eq!(s.tick(), 0);
    assert_eq!(s.elapsed(secs(13)), Duration::from_secs(3));
    assert_eq!(s.elapsed(secs(3)), Duration::from_secs(0));
    assert_eq!(s.estimator().len(), 0);
    assert!(s.can_record());
    assert_eq!(s.position().get(), 0);
}

#[test]
fn what_is_set_is_read() {
    let mut s = state(100);
    s.set_pos(42);
    assert_eq!(s.pos(), 42);
    s.set_len(7);
    assert_eq!(s.len(), 7);
    assert_eq!(s.pos(), 42);
    s.position_mut().inc(5);
    assert_eq!(s.pos(), 47);
}

#[test]
fn fraction_is_between_zero_and_one() {
    let mut s = state(8);
    assert_eq!(s.fraction(), Fraction { done: 0, total: 8 });
    s.set_pos(2);
    assert_eq!(s.fraction(), Fraction { done: 2, total: 8 });
    s.set_pos(8);
    assert_eq!(s.fraction(), Fraction { done: 8, total: 8 });
    s.set_pos(9);
    assert_eq!(s.fraction(), Fraction { done: 8, total: 8 });
    s.set_len(0);
    assert_eq!(s.fraction(), Fraction { done: 1, total: 1 });
    s.set_pos(0);
    assert_eq!(s.fraction(), Fraction { done: 1, total: 1 });
}

#[test]
fn fraction_does_not_fall() {
    let mut s = state(10);
    let mut last = 0.0;
    for pos in 0..15 {
        s.set_pos(pos);
        let f = s.fraction();
        let x = f.done as f32 / f.total as f32;
        assert!(x >= last && x <= 1.0);
        last = x;
    }
    assert_eq!(last, 1.0);
}

#[test]
fn remaining_stops_at_zero() {
    let mut s = state(10);
    s.set_pos(4);
    assert_eq!(s.remaining(), 6);
    s.set_pos(11);
    assert_eq!(s.remaining(), 0);
}

#[test]
fn eta_and_duration_of_a_running_bar() {
    let mut b = sampled(10, 4);
    let s = &mut b.state;
    let estimate = Duration::new(4, 500_000_000);
    assert_eq!(s.eta(estimate), estimate);
    assert_eq!(s.duration(secs(13), estimate), Duration::new(7, 500_000_000));
    s.set_pos(10);
    assert_eq!(s.eta(estimate), Duration::from_secs(0));
    assert_eq!(s.duration(secs(13), estimate), Duration::from_secs(3));
    s.set_pos(11);
    assert_eq!(s.eta(estimate), Duration::from_secs(0));
}

#[test]
fn no_eta_without_samples() {
    let s = state(10);
    let estimate = Duration::from_secs(4);
    assert_eq!(s.eta(estimate), Duration::from_secs(0));
    assert_eq!(s.duration(secs(13), estimate), Duration::from_secs(3));
}

#[test]
fn no_eta_without_a_length() {
    let b = sampled(u64::MAX, 4);
    let s = &b.state;
    let estimate = Duration::from_secs(4);
    assert_eq!(s.eta(estimate), Duration::from_secs(0));
    assert_eq!(s.duration(secs(13), estimate), Duration::from_secs(0));
}

#[test]
fn rate_of_a_running_bar() {
    let s = state(10);
    assert_eq!(s.per_sec(secs(12)), Rate::NoSamples);
    let b = sampled(10, 4);
    assert_eq!(b.state.per_sec(secs(12)), Rate::Recent);
    assert_eq!(b.state.estimator().recent_steps().len(), 1);
}

#[test]
fn durations() {
    let d = Duration::new(3, 2_500_000_001);
    assert_eq!(d.as_secs(), 5);
    assert_eq!(d.subsec_nanos(), 500_000_001);
    assert_eq!(d.as_nanos(), 5_500_000_001);
    assert!(!d.is_zero());
    assert!(Duration::from_secs(0).is_zero());
    assert_eq!(d.plus(Duration::new(0, 499_999_999)), Duration::from_secs(6));
    let longest = Duration::new(u64::MAX, 999_999_999);
    assert_eq!(longest.as_nanos(), progress_state::time::MAX_NANOS);
    assert!(secs(1).is_before(secs(2)));
    assert!(!secs(2).is_before(secs(2)));
    assert_eq!(secs(2).plus(Duration::from_secs(3)), secs(5));
    assert_eq!(secs(5).duration_since(secs(2)), Duration::from_secs(3));
    assert_eq!(secs(2).duration_since(secs(5)), Duration::from_secs(0));
}
