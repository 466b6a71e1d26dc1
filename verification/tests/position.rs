use progress_state::position::{INTERVAL, MAX_BURST};
use progress_state::{AtomicPosition, Duration, Instant};

fn nanos(n: u64) -> Instant {
    Instant::at(Duration::new(n / 1_000_000_000, (n % 1_000_000_000) as u32))
}

fn millis(n: u64) -> Instant {
    nanos(n * 1_000_000)
}

fn drained(now: Instant) -> AtomicPosition {
    let mut p = AtomicPosition::new(now);
    for _ in 0..10 {
        assert!(p.allow(now));
    }
    assert!(!p.allow(now));
    p
}

#[test]
fn constants() {
    assert_eq!(INTERVAL, 1_000_000);
    assert_eq!(MAX_BURST, 10);
}

#[test]
fn position_is_counted_and_set() {
    let mut p = AtomicPosition::new(millis(0));
    assert_eq!(p.get(), 0);
    p.inc(3);
    p.inc(4);
    assert_eq!(p.get(), 7);
    p.set(2);
    assert_eq!(p.get(), 2);
    p.set(u64::MAX);
    p.inc(3);
    assert_eq!(p.get(), 2);
    p.set(5);
    p.inc(u64::MAX);
    p.inc(u64::MAX);
    assert_eq!(p.get(), 3);
}

#[test]
fn a_full_budget_grants_ten_at_once() {
    let _ = drained(millis(17));
}

#[test]
fn an_interval_earns_one_grant() {
    let mut p = drained(millis(5));
    assert!(!p.allow(nanos(5_999_999)));
    assert!(p.allow(millis(6)));
    assert!(!p.allow(millis(6)));
    assert!(p.allow(millis(9)));
    assert!(p.allow(millis(9)));
    assert!(p.allow(millis(9)));
    assert!(!p.allow(millis(9)));
}

#[test]
fn part_of_an_interval_is_kept_for_later() {
    let mut p = drained(millis(0));
    assert!(p.allow(nanos(1_900_000)));
    assert!(!p.allow(nanos(1_999_999)));
    assert!(p.allow(nanos(2_000_000)));
    assert!(!p.allow(nanos(2_999_999)));
}

#[test]
fn the_budget_does_not_grow_past_its_limit() {
    let mut p = drained(millis(0));
    let later = millis(200);
    for _ in 0..11 {
        assert!(p.allow(later));
    }
    assert!(!p.allow(later));
}

#[test]
fn grants_are_limited_over_time() {
    let mut p = AtomicPosition::new(millis(0));
    let mut granted = 0;
    let mut t = 0;
    while t <= 50_000_000 {
        if p.allow(nanos(t)) {
            granted += 1;
        }
        t += 70_001;
    }
    assert_eq!(granted, 10 + 49);
}

#[test]
fn a_long_pause_fills_the_budget() {
    for pause in [246, 250, 255, 256, 257, 300, 1_000, 86_400_000] {
        let mut p = AtomicPosition::new(millis(0));
        assert!(p.accepts(millis(pause)));
        for _ in 0..11 {
            assert!(p.allow(millis(pause)));
        }
        assert!(!p.allow(millis(pause)));
        assert!(p.allow(millis(pause + 1)));

        let mut p = drained(millis(0));
        assert!(p.accepts(millis(pause)));
        for _ in 0..11 {
            assert!(p.allow(millis(pause)));
        }
        assert!(!p.allow(millis(pause)));
    }
}

#[test]
fn pauses_do_not_lift_the_limit() {
    let mut p = AtomicPosition::new(millis(0));
    let mut granted = 0;
    for t in [0, 0, 3, 250, 250, 506, 506, 506] {
        for _ in 0..30 {
            if p.allow(millis(t)) {
                granted += 1;
            }
        }
    }
    assert_eq!(granted, 10 + 3 + 11 + 11);
    assert!(granted <= 10 + 506);
}

#[test]
fn a_clock_behind_the_credited_time_is_not_accepted() {
    let mut p = AtomicPosition::new(millis(0));
    assert!(p.allow(millis(5)));
    assert!(p.accepts(millis(5)));
    assert!(!p.accepts(nanos(4_999_999)));
}

#[test]
fn a_clock_before_the_start_counts_as_the_start() {
    let mut p = AtomicPosition::new(millis(10));
    assert!(p.accepts(millis(3)));
    assert!(p.allow(millis(3)));
}

#[test]
fn reset_puts_the_position_back_and_credits_the_time() {
    let mut p = drained(millis(0));
    p.set(99);
    p.reset(nanos(5_000_000));
    assert_eq!(p.get(), 0);
    assert!(p.accepts(nanos(5_000_000)));
    assert!(!p.accepts(nanos(4_999_999)));
    assert!(!p.allow(nanos(5_000_000)));
    assert!(!p.allow(nanos(5_999_999)));
    assert!(p.allow(nanos(6_000_000)));
    assert!(!p.allow(nanos(6_000_000)));
}

#[test]
fn reset_keeps_the_grants_that_are_left() {
    let mut p = AtomicPosition::new(millis(0));
    for _ in 0..7 {
        assert!(p.allow(millis(0)));
    }
    p.reset(millis(250));
    for _ in 0..3 {
        assert!(p.allow(millis(250)));
    }
    assert!(!p.allow(millis(250)));
}
