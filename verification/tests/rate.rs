use xelis_vanity::rate::{rate_per_second, RateTracker};

#[test]
fn rate_is_the_exact_quotient() {
    // K attempts over T milliseconds: K * 1000 / T attempts per second
    assert_eq!(rate_per_second(5000, 1000), 5000);
    assert_eq!(rate_per_second(7, 2000), 3);
    assert_eq!(rate_per_second(1, 1), 1000);
    assert_eq!(rate_per_second(250, 500), 500);
}

#[test]
fn zero_attempts_report_zero_rate() {
    assert_eq!(rate_per_second(0, 1000), 0);
    assert_eq!(rate_per_second(0, 0), 0);
}

#[test]
fn zero_elapsed_time_reports_zero_rate() {
    assert_eq!(rate_per_second(123, 0), 0);
}

#[test]
fn huge_counts_saturate_instead_of_overflowing() {
    assert_eq!(rate_per_second(u64::MAX, 1), u64::MAX);
}

#[test]
fn tracker_counts_each_increment() {
    let mut t = RateTracker::new();
    assert_eq!(t.count, 0);
    for _ in 0..5 {
        t.increment();
    }
    assert_eq!(t.count, 5);
    assert_eq!(t.take_count(), 5);
    assert_eq!(t.count, 0);
    assert_eq!(t.take_count(), 0);
}

#[test]
fn increment_saturates_at_the_maximum() {
    let mut t = RateTracker { count: u64::MAX };
    t.increment();
    assert_eq!(t.count, u64::MAX);
}

#[test]
fn snapshot_reports_attempts_per_second_and_drains() {
    let mut t = RateTracker::new();
    for _ in 0..10 {
        t.increment();
    }
    // 10 attempts over 2 seconds
    assert_eq!(t.snapshot(2000), 5);
    // drained: a second snapshot has no data and reports zero
    assert_eq!(t.snapshot(1000), 0);
}
