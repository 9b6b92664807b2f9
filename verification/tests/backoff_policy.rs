use solistener::backoff::{Backoff, RetryAction, RotatingBackoff, INITIAL_BACKOFF_MS};

#[test]
fn backoff_doubles_without_ceiling() {
    let mut b = Backoff::new();
    let mut expected: u64 = INITIAL_BACKOFF_MS;
    for _ in 0..10 {
        assert_eq!(b.next_wait(), expected);
        expected *= 2;
    }
}

#[test]
fn backoff_saturates_at_counter_limit() {
    let mut b = Backoff::new();
    let mut last: u64 = 0;
    for _ in 0..80 {
        last = b.next_wait();
    }
    assert_eq!(last, u64::MAX);
}

#[test]
fn rotation_after_cumulative_wait_passes_ceiling() {
    let mut r = RotatingBackoff::new(2);
    assert_eq!(r.active_endpoint, 0);
    // Waits double from 100ms: 100 + 200 + ... + 6400 = 12700ms. By the
    // eighth failure the cumulative wait has passed the 10s ceiling, so that
    // failure rotates instead of waiting.
    let expected_waits = [100u64, 200, 400, 800, 1600, 3200, 6400];
    for w in expected_waits {
        match r.on_failure() {
            RetryAction::Wait(ms) => assert_eq!(ms, w),
            RetryAction::Rotate => panic!("rotated too early"),
        }
    }
    match r.on_failure() {
        RetryAction::Wait(_) => panic!("should have rotated"),
        RetryAction::Rotate => {}
    }
    assert_eq!(r.active_endpoint, 1);
    assert_eq!(r.period_ms, INITIAL_BACKOFF_MS);
}

#[test]
fn rotation_is_round_robin() {
    let mut r = RotatingBackoff::new(2);
    for _ in 0..8 {
        r.on_failure();
    }
    assert_eq!(r.active_endpoint, 1);
    for _ in 0..8 {
        r.on_failure();
    }
    assert_eq!(r.active_endpoint, 0);
}
