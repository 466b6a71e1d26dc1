use progress_state::estimator::{SLOTS, WINDOW};
use progress_state::{Duration, Estimator, Instant, Step};

/// The mean time per step of the samples that the library hands out, in seconds.
fn mean_seconds(est: &Estimator) -> f64 {
    let steps = est.recent_steps();
    let total: f64 = steps
        .iter()
        .map(|s| s.elapsed.as_nanos() as f64 / 1e9 / s.delta as f64)
        .sum();
    total / steps.len() as f64
}

fn secs(n: u64) -> Instant {
    Instant::at(Duration::from_secs(n))
}

fn deltas(steps: &[Step]) -> Vec<u64> {
    steps.iter().map(|s| s.delta).collect()
}

#[test]
fn test_time_per_step() {
    let test_rate = |items_per_second: u64| {
        let mut now = secs(1_000);
        let mut est = Estimator::new(now);
        let mut pos = 0;

        for _ in 0..SLOTS {
            pos += items_per_second;
            now = now.plus(Duration::from_secs(1));
            est.record(pos, now);
        }
        let avg_seconds_per_step = mean_seconds(&est);

        assert!(avg_seconds_per_step > 0.0);
        assert!(avg_seconds_per_step.is_finite());

        let expected_rate = 1.0 / items_per_second as f64;
        let absolute_error = (avg_seconds_per_step - expected_rate).abs();
        assert!(
            absolute_error < f64::EPSILON,
            "Expected rate: {}, actual: {}, absolute error: {}",
            expected_rate,
            avg_seconds_per_step,
            absolute_error
        );
    };

    test_rate(1);
    test_rate(1_000);
    test_rate(1_000_000);
    test_rate(1_000_000_000);
    test_rate(1_000_000_001);
    test_rate(100_000_000_000);
    test_rate(1_000_000_000_000);
    test_rate(100_000_000_000_000);
    test_rate(1_000_000_000_000_000);
}

#[test]
fn capacities() {
    assert_eq!(SLOTS, 16);
    assert_eq!(WINDOW, 15);
}

#[test]
fn first_sample_is_measured_from_the_start() {
    let mut est = Estimator::new(secs(5));
    assert_eq!(est.len(), 0);
    est.record(6, Instant::at(Duration::new(7, 250_000_000)));
    let steps = est.steps();
    assert_eq!(steps.len(), 1);
    assert_eq!(steps[0].delta, 6);
    assert_eq!(steps[0].elapsed, Duration::new(2, 250_000_000));
    assert_eq!(est.prev(), (6, Instant::at(Duration::new(7, 250_000_000))));
}

#[test]
fn a_position_that_stands_still_is_no_sample() {
    let mut est = Estimator::new(secs(0));
    est.record(0, secs(1));
    assert_eq!(est.len(), 0);
    assert_eq!(est.prev(), (0, secs(0)));
    est.record(3, secs(2));
    est.record(3, secs(9));
    assert_eq!(est.len(), 1);
    assert_eq!(est.prev(), (3, secs(2)));
}

#[test]
fn a_time_before_the_last_sample_is_no_sample() {
    let mut est = Estimator::new(secs(10));
    est.record(4, secs(9));
    assert_eq!(est.len(), 0);
    assert_eq!(est.prev(), (0, secs(10)));
    est.record(4, secs(10));
    assert_eq!(est.len(), 1);
    assert_eq!(est.steps()[0].elapsed, Duration::from_secs(0));
}

#[test]
fn the_ring_wraps_around_in_slot_order() {
    let mut est = Estimator::new(secs(0));
    let mut pos = 0;
    for i in 1..=18u64 {
        pos += i;
        est.record(pos, secs(i));
    }
    assert_eq!(est.len(), 16);
    assert_eq!(
        deltas(&est.steps()),
        vec![17, 18, 3, 4, 5, 6, 7, 8, 9, 10, 11, 12, 13, 14, 15, 16]
    );
}

#[test]
fn the_average_looks_at_the_newest_samples() {
    let mut est = Estimator::new(secs(0));
    let mut pos = 0;
    for i in 1..=14u64 {
        pos += i;
        est.record(pos, secs(i));
    }
    assert_eq!(deltas(&est.recent_steps()), (1..=14u64).collect::<Vec<u64>>());
    for i in 15..=16u64 {
        pos += i;
        est.record(pos, secs(i));
    }
    assert_eq!(deltas(&est.recent_steps()), (2..=16u64).collect::<Vec<u64>>());
    for i in 17..=18u64 {
        pos += i;
        est.record(pos, secs(i));
    }
    assert_eq!(deltas(&est.recent_steps()), (4..=18u64).collect::<Vec<u64>>());
}

#[test]
fn samples_account_for_the_way_and_the_time() {
    let mut est = Estimator::new(secs(100));
    est.record(5, secs(101));
    est.record(5, secs(102));
    est.record(12, secs(110));
    let steps = est.steps();
    assert_eq!(steps.iter().map(|s| s.delta).sum::<u64>(), 12);
    assert_eq!(steps.iter().map(|s| s.elapsed.as_secs()).sum::<u64>(), 10);
}

#[test]
fn reset_makes_it_as_new() {
    let mut est = Estimator::new(secs(0));
    for i in 1..=20u64 {
        est.record(i, secs(i));
    }
    est.reset(secs(30));
    assert_eq!(est.len(), 0);
    assert_eq!(est.prev(), (0, secs(30)));
    assert!(est.steps().is_empty());
    assert!(est.recent_steps().is_empty());
    est.record(7, secs(31));
    assert_eq!(deltas(&est.steps()), vec![7]);
}
