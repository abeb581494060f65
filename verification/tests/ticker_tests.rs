use std::time::Duration;
use std::time::Instant;
use ticker::clock::duration_of;
use ticker::clock::nanos_of;
use ticker::clock::MAX_SPAN_NANOS;
use ticker::clock::NANOS_PER_SEC;
use ticker::Ticker;

fn wait(span: Duration) {
    let start = Instant::now();
    while start.elapsed() < span {
        std::hint::spin_loop();
    }
}

#[test]
fn nanos_of_counts_seconds_and_fraction() {
    assert_eq!(nanos_of(&Duration::new(0, 0)), 0);
    assert_eq!(nanos_of(&Duration::from_millis(100)), 100_000_000);
    assert_eq!(nanos_of(&Duration::new(5, 730_023_852)), 5_730_023_852);
    assert_eq!(nanos_of(&Duration::from_secs(3)), 3 * NANOS_PER_SEC);
}

#[test]
fn nanos_of_the_longest_duration_is_the_bound() {
    assert_eq!(nanos_of(&Duration::MAX), MAX_SPAN_NANOS);
    assert_eq!(Duration::MAX.as_nanos(), MAX_SPAN_NANOS);
}

#[test]
fn duration_of_splits_seconds_and_fraction() {
    assert_eq!(duration_of(0), Duration::new(0, 0));
    assert_eq!(duration_of(999_999_999), Duration::new(0, 999_999_999));
    assert_eq!(duration_of(1_000_000_000), Duration::new(1, 0));
    assert_eq!(duration_of(5_730_023_852), Duration::new(5, 730_023_852));
    assert_eq!(duration_of(MAX_SPAN_NANOS), Duration::MAX);
}

#[test]
fn duration_round_trips_through_nanos() {
    for d in [
        Duration::new(0, 1),
        Duration::from_micros(1_500_001),
        Duration::new(u64::MAX, 0),
        Duration::new(12, 999_999_999),
    ] {
        assert_eq!(duration_of(nanos_of(&d)), d);
    }
}

#[test]
fn advance_scenario_with_period_of_100ms() {
    let mut ticker = Ticker::new(Duration::from_millis(100));
    let mut fired = 0;

    let left = ticker.advance(Duration::from_millis(0), || fired += 1);
    assert_eq!(fired, 0);
    assert_eq!(left, Duration::from_millis(100));

    let left = ticker.advance(Duration::from_millis(150), || fired += 1);
    assert_eq!(fired, 1);
    assert_eq!(left, Duration::from_millis(100));

    let left = ticker.advance(Duration::from_millis(0), || fired += 1);
    assert_eq!(fired, 1);
    assert_eq!(left, Duration::from_millis(100));
}

#[test]
fn advance_returns_period_less_cumulative_elapsed() {
    let mut ticker = Ticker::new(Duration::from_secs(2));
    let mut fired = 0;
    let left = ticker.advance(Duration::from_millis(300), || fired += 1);
    assert_eq!(left, Duration::from_millis(1_700));
    let left = ticker.advance(Duration::new(1, 699_999_999), || fired += 1);
    assert_eq!(left, Duration::new(0, 1));
    assert_eq!(fired, 0);
    let left = ticker.advance(Duration::new(0, 1), || fired += 1);
    assert_eq!(left, Duration::from_secs(2));
    assert_eq!(fired, 1);
}

#[test]
fn advance_runs_the_callback_once_per_firing_poll() {
    let mut ticker = Ticker::new(Duration::from_millis(10));
    let mut fired = 0;
    for _ in 0..4 {
        let left = ticker.advance(Duration::from_millis(35), || fired += 1);
        assert_eq!(left, Duration::from_millis(10));
    }
    assert_eq!(fired, 4);
}

#[test]
fn advance_with_zero_period_always_fires() {
    let mut ticker = Ticker::new(Duration::new(0, 0));
    let mut fired = 0;
    for elapsed in [Duration::new(0, 0), Duration::from_secs(1), Duration::new(0, 0)] {
        let left = ticker.advance(elapsed, || fired += 1);
        assert_eq!(left, Duration::new(0, 0));
    }
    assert_eq!(fired, 3);
}

#[test]
fn advance_with_the_longest_duration() {
    let mut ticker = Ticker::new(Duration::MAX);
    let mut fired = 0;
    let left = ticker.advance(Duration::new(u64::MAX, 0), || fired += 1);
    assert_eq!(fired, 0);
    assert_eq!(left, Duration::new(0, 999_999_999));
    let left = ticker.advance(Duration::MAX, || fired += 1);
    assert_eq!(fired, 1);
    assert_eq!(left, Duration::MAX);
}

#[test]
fn tick_right_after_construction_does_not_fire() {
    let period = Duration::from_secs(3_600);
    let mut ticker = Ticker::new(period);
    let mut fired = 0;
    let left = ticker.tick(|| fired += 1);
    assert_eq!(fired, 0);
    assert!(left <= period);
    assert!(left > period - Duration::from_secs(60));
}

#[test]
fn tick_with_zero_period_fires_every_time() {
    let mut ticker = Ticker::new(Duration::new(0, 0));
    let mut fired = 0;
    for _ in 0..5 {
        let left = ticker.tick(|| fired += 1);
        assert_eq!(left, Duration::new(0, 0));
    }
    assert_eq!(fired, 5);
}

#[test]
fn tick_fires_once_after_the_period_and_not_again() {
    let period = Duration::from_secs(1);
    let mut ticker = Ticker::new(period);
    let mut fired = 0;
    wait(Duration::from_millis(1_200));
    let left = ticker.tick(|| fired += 1);
    assert_eq!(fired, 1);
    assert_eq!(left, period);
    let left = ticker.tick(|| fired += 1);
    assert_eq!(fired, 1);
    assert!(left <= period);
    assert!(left > Duration::from_millis(500));
}

#[test]
fn tick_measures_only_the_time_since_the_previous_poll() {
    let period = Duration::from_millis(1_500);
    let start = Instant::now();
    let mut ticker = Ticker::new(period);
    let mut fired = 0;
    let mut previous = period;
    for _ in 0..3 {
        wait(Duration::from_millis(200));
        let left = ticker.tick(|| fired += 1);
        if start.elapsed() < period {
            assert_eq!(fired, 0);
            assert!(left <= previous);
            assert!(left + start.elapsed() >= period);
            previous = left;
        }
    }
}

#[test]
fn tick_slow_poller_fires_once_per_poll() {
    let period = Duration::from_millis(20);
    let mut ticker = Ticker::new(period);
    let mut fired = 0;
    for _ in 0..3 {
        wait(Duration::from_millis(50));
        let left = ticker.tick(|| fired += 1);
        assert_eq!(left, period);
    }
    assert_eq!(fired, 3);
}
