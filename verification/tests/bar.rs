use std::borrow::Cow;

use progress_state::{
    AtomicPosition, BarState, DrawRequest, DrawState, Duration, Instant, ProgressFinish,
    ProgressState, Rate, Reset, Status, StyleTexts,
};

fn secs(n: u64) -> Instant {
    Instant::at(Duration::from_secs(n))
}

fn bar(len: u64) -> BarState {
    let style = StyleTexts { message: Cow::Borrowed("working"), prefix: Cow::Borrowed(">") };
    BarState::new(len, style, AtomicPosition::new(secs(1)), secs(1))
}

fn request(force: bool, n: u64) -> DrawRequest {
    DrawRequest { force, now: secs(n) }
}

fn strings(lines: &[&str]) -> Vec<String> {
    lines.iter().map(|l| l.to_string()).collect()
}

#[test]
fn a_new_bar() {
    let b = bar(10);
    assert!(matches!(b.on_finish, ProgressFinish::AndClear));
    assert_eq!(b.style.message, "working");
    assert_eq!(b.style.prefix, ">");
    assert_eq!(b.state.len(), 10);
    assert_eq!(b.state.pos(), 0);
    assert_eq!(b.ticker, None);
    assert!(b.is_shown());
    assert!(matches!(ProgressFinish::default(), ProgressFinish::AndClear));
}

#[test]
fn finish_and_leave() {
    let mut b = bar(10);
    b.state.set_pos(3);
    assert_eq!(b.finish_using_style(secs(4), ProgressFinish::AndLeave), request(true, 4));
    assert_eq!(b.state.status(), Status::DoneVisible);
    assert!(b.state.is_finished());
    assert_eq!(b.state.pos(), 10);
    assert_eq!(b.style.message, "working");
    assert!(b.is_shown());
}

#[test]
fn finish_with_message() {
    let mut b = bar(10);
    let finish = ProgressFinish::WithMessage(Cow::Borrowed("done"));
    assert_eq!(b.finish_using_style(secs(4), finish), request(true, 4));
    assert_eq!(b.state.status(), Status::DoneVisible);
    assert_eq!(b.state.pos(), 10);
    assert_eq!(b.style.message, "done");
    assert_eq!(b.style.prefix, ">");
}

#[test]
fn finish_and_clear() {
    let mut b = bar(10);
    assert_eq!(b.finish_using_style(secs(4), ProgressFinish::AndClear), request(true, 4));
    assert_eq!(b.state.status(), Status::DoneHidden);
    assert_eq!(b.state.pos(), 10);
    assert_eq!(b.style.message, "working");
    assert!(!b.is_shown());
}

#[test]
fn abandon() {
    let mut b = bar(10);
    b.state.set_pos(3);
    assert_eq!(b.finish_using_style(secs(4), ProgressFinish::Abandon), request(true, 4));
    assert_eq!(b.state.status(), Status::DoneVisible);
    assert_eq!(b.state.pos(), 3);
    assert_eq!(b.style.message, "working");
}

#[test]
fn abandon_with_message() {
    let mut b = bar(10);
    b.state.set_pos(3);
    let finish = ProgressFinish::AbandonWithMessage(Cow::Owned("stopped".to_string()));
    assert_eq!(b.finish_using_style(secs(4), finish), request(true, 4));
    assert_eq!(b.state.status(), Status::DoneVisible);
    assert_eq!(b.state.pos(), 3);
    assert_eq!(b.style.message, "stopped");
}

#[test]
fn finishing_twice_changes_nothing_more() {
    let mut b = bar(10);
    b.finish_using_style(secs(4), ProgressFinish::AndClear);
    b.finish_using_style(secs(5), ProgressFinish::AndClear);
    assert_eq!(b.state.status(), Status::DoneHidden);
    assert_eq!(b.state.pos(), 10);
}

#[test]
fn a_finished_bar_has_no_eta_and_an_overall_rate() {
    let mut b = bar(10);
    b.finish_using_style(secs(4), ProgressFinish::AndLeave);
    assert_eq!(b.state.eta(Duration::from_secs(9)), Duration::from_secs(0));
    assert_eq!(b.state.duration(secs(5), Duration::from_secs(9)), Duration::from_secs(0));
    assert_eq!(
        b.state.per_sec(secs(6)),
        Rate::Overall { steps: 10, elapsed: Duration::from_secs(5) }
    );
}

#[test]
fn reset_of_the_estimate() {
    let mut b = bar(10);
    b.state.set_pos(5);
    b.tick(secs(2));
    assert_eq!(b.state.estimator().len(), 1);
    assert_eq!(b.reset(secs(7), Reset::Eta), None);
    assert_eq!(b.state.estimator().len(), 0);
    assert_eq!(b.state.estimator().prev(), (0, secs(7)));
    assert_eq!(b.state.pos(), 5);
    assert_eq!(b.state.elapsed(secs(7)), Duration::from_secs(6));
}

#[test]
fn reset_of_the_elapsed_time() {
    let mut b = bar(10);
    b.state.set_pos(5);
    b.tick(secs(2));
    assert_eq!(b.reset(secs(7), Reset::Elapsed), None);
    assert_eq!(b.state.estimator().len(), 1);
    assert_eq!(b.state.pos(), 5);
    assert_eq!(b.state.elapsed(secs(8)), Duration::from_secs(1));
}

#[test]
fn reset_of_everything_undoes_a_finish() {
    let mut b = bar(10);
    b.state.set_pos(5);
    b.tick(secs(2));
    b.finish_using_style(secs(4), ProgressFinish::AndClear);
    assert_eq!(b.reset(secs(7), Reset::All), Some(request(false, 7)));
    assert!(!b.state.is_finished());
    assert!(b.is_shown());
    assert_eq!(b.state.pos(), 0);
    assert_eq!(b.state.len(), 10);
    assert_eq!(b.state.tick(), 1);
    assert_eq!(b.state.estimator().len(), 0);
    assert_eq!(b.state.elapsed(secs(9)), Duration::from_secs(2));
}

#[test]
fn tick_counts_and_samples() {
    let mut b = bar(10);
    b.state.set_pos(4);
    assert_eq!(b.tick(secs(3)), request(false, 3));
    assert_eq!(b.state.tick(), 1);
    let steps = b.state.estimator().steps();
    assert_eq!(steps.len(), 1);
    assert_eq!(steps[0].delta, 4);
    assert_eq!(steps[0].elapsed, Duration::from_secs(2));
    assert_eq!(b.tick(secs(4)), request(false, 4));
    assert_eq!(b.state.tick(), 2);
    assert_eq!(b.state.estimator().len(), 1);
}

#[test]
fn a_finished_bar_is_always_drawn() {
    let mut b = bar(10);
    assert_eq!(b.draw(false, secs(2)), request(false, 2));
    assert_eq!(b.draw(true, secs(2)), request(true, 2));
    b.finish_using_style(secs(4), ProgressFinish::AndLeave);
    assert_eq!(b.draw(false, secs(5)), request(true, 5));
    assert_eq!(b.set_message(secs(6), Cow::Borrowed("m")), request(true, 6));
}

#[test]
fn setters_change_and_tick() {
    let mut b = bar(10);
    assert_eq!(b.set_length(secs(2), 20), request(false, 2));
    assert_eq!(b.state.len(), 20);
    assert_eq!(b.inc_length(secs(3), 5), request(false, 3));
    assert_eq!(b.state.len(), 25);
    assert_eq!(b.set_message(secs(4), Cow::Borrowed("hello")), request(false, 4));
    assert_eq!(b.style.message, "hello");
    assert_eq!(b.set_prefix(secs(5), Cow::Owned("pre".to_string())), request(false, 5));
    assert_eq!(b.style.prefix, "pre");
    assert_eq!(b.style.message, "hello");
    assert_eq!(b.state.tick(), 4);
}

#[test]
fn length_stops_at_its_end() {
    let mut b = bar(u64::MAX - 1);
    b.inc_length(secs(2), 1);
    assert_eq!(b.state.len(), u64::MAX);
    b.inc_length(secs(2), 7);
    assert_eq!(b.state.len(), u64::MAX);
}

#[test]
fn update_changes_the_state_and_ticks() {
    let mut b = bar(10);
    let r = b.update(secs(3), |s: &mut ProgressState| {
        s.set_pos(6);
        s.set_len(12);
    });
    assert_eq!(r, request(false, 3));
    assert_eq!(b.state.pos(), 6);
    assert_eq!(b.state.len(), 12);
    assert_eq!(b.state.tick(), 1);
    assert_eq!(b.state.estimator().prev(), (6, secs(3)));
}

#[test]
fn a_position_that_went_back_cannot_be_sampled() {
    let mut b = bar(10);
    b.state.set_pos(6);
    b.tick(secs(2));
    assert!(b.state.can_record());
    b.state.set_pos(5);
    assert!(!b.state.can_record());
    b.reset(secs(3), Reset::Eta);
    assert!(b.state.can_record());
}

#[test]
fn println_puts_lines_above_the_bar() {
    let b = bar(10);
    assert_eq!(b.println_request(secs(2)), request(true, 2));
    let mut out = DrawState { lines: strings(&["old"]), orphan_lines: 0 };
    b.println(&mut out, "one\r\ntwo\n\nthree\r", strings(&["[===>  ]"]));
    assert_eq!(out.lines, strings(&["old", "one", "two", "", "three\r", "[===>  ]"]));
    assert_eq!(out.orphan_lines, 5);
}

#[test]
fn println_of_a_hidden_bar() {
    let mut b = bar(10);
    b.finish_using_style(secs(4), ProgressFinish::AndClear);
    let mut out = DrawState { lines: Vec::new(), orphan_lines: 0 };
    b.println(&mut out, "text\n", strings(&["[===>  ]"]));
    assert_eq!(out.lines, strings(&["text"]));
    assert_eq!(out.orphan_lines, 1);
}

#[test]
fn lines_are_those_of_the_standard_library() {
    let b = bar(10);
    for msg in [
        "", "\n", "a", "a\n", "a\r\n", "a\r", "\r\n", "\r", "a\n\nb", "\n\n", "a\r\r\nb", "\n\r\n",
        "gr\u{fc}n\n\u{1f600}\r\nx", "a\rb\nc",
    ] {
        let mut out = DrawState { lines: Vec::new(), orphan_lines: 3 };
        b.println(&mut out, msg, Vec::new());
        let expected: Vec<String> = msg.lines().map(Into::into).collect();
        assert_eq!(out.orphan_lines, expected.len());
        assert_eq!(out.lines, expected);
    }
}

#[test]
fn drawing_puts_the_bar_behind_what_is_there() {
    let mut b = bar(10);
    let mut out = DrawState { lines: strings(&["old"]), orphan_lines: 1 };
    b.add_own_lines(&mut out, strings(&["bar"]));
    assert_eq!(out.lines, strings(&["old", "bar"]));
    assert_eq!(out.orphan_lines, 1);
    b.finish_using_style(secs(4), ProgressFinish::AndClear);
    b.add_own_lines(&mut out, strings(&["bar"]));
    assert_eq!(out.lines, strings(&["old", "bar"]));
}

#[test]
fn a_suspended_bar_is_cleared_and_redrawn() {
    let b = bar(10);
    let s = b.suspend(secs(2));
    assert_eq!(s.clear, request(true, 2));
    assert_eq!(s.redraw, request(true, 2));
}

#[test]
fn a_bar_that_goes_out_of_use_is_finished() {
    let mut b = bar(10);
    b.on_finish = ProgressFinish::WithMessage(Cow::Borrowed("bye"));
    assert_eq!(b.finish_on_drop(secs(3)), Some(request(true, 3)));
    assert_eq!(b.state.status(), Status::DoneVisible);
    assert_eq!(b.state.pos(), 10);
    assert_eq!(b.style.message, "bye");
    assert!(matches!(b.on_finish, ProgressFinish::WithMessage(_)));
    assert_eq!(b.finish_on_drop(secs(4)), None);
}

#[test]
fn a_finished_bar_is_left_alone() {
    let mut b = bar(10);
    b.state.set_pos(3);
    b.finish_using_style(secs(2), ProgressFinish::Abandon);
    assert_eq!(b.finish_on_drop(secs(3)), None);
    assert_eq!(b.state.status(), Status::DoneVisible);
    assert_eq!(b.state.pos(), 3);
}

#[test]
fn a_finish_is_cloned_with_its_message() {
    let finish = ProgressFinish::AbandonWithMessage(Cow::Owned("x".to_string()));
    match finish.clone() {
        ProgressFinish::AbandonWithMessage(msg) => assert_eq!(msg, "x"),
        _ => panic!("another finish"),
    }
    assert!(matches!(ProgressFinish::AndLeave.clone(), ProgressFinish::AndLeave));
}
