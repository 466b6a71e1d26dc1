use std::borrow::Cow;

use progress_state::{
    AtomicPosition, BarState, DrawRequest, Duration, Instant, ProgressFinish, Reset, Spawn,
    Status, StyleTexts, Ticker,
};

fn secs(n: u64) -> Instant {
    Instant::at(Duration::from_secs(n))
}

fn bar() -> BarState {
    let style = StyleTexts { message: Cow::Borrowed(""), prefix: Cow::Borrowed("") };
    BarState::new(10, style, AtomicPosition::new(secs(1)), secs(1))
}

fn start(b: &mut BarState, interval: Duration) -> Ticker {
    match Ticker::spawn(b, interval) {
        Spawn::Started(ticker) => ticker,
        _ => panic!("no ticker"),
    }
}

#[test]
fn no_ticker_without_a_pause() {
    let mut b = bar();
    assert!(matches!(Ticker::spawn(&mut b, Duration::from_secs(0)), Spawn::Refused));
    assert_eq!(b.ticker, None);
    let _ = start(&mut b, Duration::from_secs(2));
    assert!(matches!(Ticker::spawn(&mut b, Duration::from_secs(0)), Spawn::Refused));
    assert_eq!(b.ticker, Some(Duration::from_secs(2)));
}

#[test]
fn a_second_ticker_only_changes_the_interval() {
    let mut b = bar();
    let mut ticker = start(&mut b, Duration::from_secs(2));
    assert_eq!(ticker.interval(), Duration::from_secs(2));
    assert!(matches!(Ticker::spawn(&mut b, Duration::from_secs(5)), Spawn::Retimed));
    assert_eq!(b.ticker, Some(Duration::from_secs(5)));
    assert_eq!(ticker.interval(), Duration::from_secs(2));
    assert!(ticker.run(&mut b, secs(3)).is_some());
    assert_eq!(ticker.interval(), Duration::from_secs(5));
}

#[test]
fn the_ticker_counts_and_other_ticks_do_not() {
    let mut b = bar();
    let mut ticker = start(&mut b, Duration::from_secs(1));
    assert_eq!(ticker.run(&mut b, secs(2)), Some(DrawRequest { force: false, now: secs(2) }));
    assert_eq!(b.state.tick(), 0);
    b.tick(secs(2));
    assert_eq!(b.state.tick(), 1);
    b.tick(secs(2));
    assert_eq!(b.state.tick(), 1);
    assert_eq!(ticker.run(&mut b, secs(3)), Some(DrawRequest { force: false, now: secs(3) }));
    assert_eq!(b.state.tick(), 2);
    b.tick(secs(3));
    assert_eq!(b.state.tick(), 2);
}

#[test]
fn the_ticker_stops_with_the_bar() {
    let mut b = bar();
    let mut ticker = start(&mut b, Duration::from_secs(1));
    b.tick(secs(2));
    b.finish_using_style(secs(3), ProgressFinish::Abandon);
    assert_eq!(ticker.run(&mut b, secs(4)), None);
    assert_eq!(b.state.tick(), 1);
}

#[test]
fn the_ticker_stops_when_it_is_taken_away() {
    let mut b = bar();
    let mut ticker = start(&mut b, Duration::from_secs(1));
    b.ticker = None;
    assert_eq!(ticker.run(&mut b, secs(4)), None);
}

#[test]
fn a_finished_bar_stays_finished_until_everything_is_reset() {
    let mut b = bar();
    let mut ticker = start(&mut b, Duration::from_secs(1));
    b.finish_using_style(secs(2), ProgressFinish::AndClear);
    b.tick(secs(3));
    b.set_length(secs(3), 20);
    assert_eq!(ticker.run(&mut b, secs(4)), None);
    assert_eq!(b.reset(secs(5), Reset::Eta), None);
    assert_eq!(b.reset(secs(5), Reset::Elapsed), None);
    assert!(matches!(Ticker::spawn(&mut b, Duration::from_secs(3)), Spawn::Retimed));
    assert_eq!(b.state.status(), Status::DoneHidden);
    assert!(b.reset(secs(6), Reset::All).is_some());
    assert_eq!(b.state.status(), Status::InProgress);
    assert!(ticker.run(&mut b, secs(7)).is_some());
    assert_eq!(ticker.interval(), Duration::from_secs(3));
}
