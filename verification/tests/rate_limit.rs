//! Scenario tests for the sliding-window admission guard. Time is in
//! milliseconds, supplied directly, so nothing here sleeps.

use simkl::rate_limit::RateLimiter;

/// Capacity 3 over a one-second window: three requests fill the window,
/// the wait equals the window minus the age of the oldest, and the first
/// slot frees once the oldest timestamp ages out.
#[test]
fn three_records_fill_the_window() {
    let mut guard = RateLimiter::new(3, 1000);
    assert!(guard.can_make_request(0));
    guard.record_request(0);
    assert!(guard.can_make_request(100));
    guard.record_request(100);
    assert!(guard.can_make_request(200));
    guard.record_request(200);
    assert!(!guard.can_make_request(300));
    assert_eq!(guard.time_until_next_request(300), Some(700));
    assert!(guard.can_make_request(1010));
}

/// Capacity 1 with a zero-length window: nothing is ever recent, so every
/// check immediately after a record still passes.
#[test]
fn zero_window_never_throttles() {
    let mut guard = RateLimiter::new(1, 0);
    assert!(guard.can_make_request(5));
    guard.record_request(5);
    assert!(guard.can_make_request(5));
    guard.record_request(5);
    assert!(guard.can_make_request(5));
    assert_eq!(guard.time_until_next_request(5), None);
}

/// Repeated checks with no intervening record answer alike.
#[test]
fn checks_are_idempotent() {
    let mut guard = RateLimiter::new(2, 1000);
    guard.record_request(0);
    guard.record_request(10);
    let first = guard.can_make_request(20);
    assert_eq!(guard.can_make_request(20), first);
    assert_eq!(guard.can_make_request(20), first);
    assert!(!first);
    let free = guard.can_make_request(2000);
    assert_eq!(guard.can_make_request(2000), free);
    assert!(free);
}

/// The wait never grows while time passes with no new record, and
/// becomes nothing exactly when the oldest timestamp leaves the window.
#[test]
fn wait_shrinks_as_time_passes() {
    let mut guard = RateLimiter::new(1, 1000);
    guard.record_request(0);
    assert_eq!(guard.time_until_next_request(100), Some(900));
    assert_eq!(guard.time_until_next_request(500), Some(500));
    assert_eq!(guard.time_until_next_request(999), Some(1));
    assert_eq!(guard.time_until_next_request(1000), None);
    assert!(guard.can_make_request(1000));
}

/// A caller that records without ever checking grows the history past
/// the capacity; the guard still reports the channel busy, and recovers
/// once the window has passed.
#[test]
fn unchecked_records_grow_then_recover() {
    let mut guard = RateLimiter::new(2, 100);
    guard.record_request(0);
    guard.record_request(1);
    guard.record_request(2);
    guard.record_request(3);
    guard.record_request(4);
    assert!(!guard.can_make_request(5));
    assert_eq!(guard.time_until_next_request(5), Some(95));
    assert!(guard.can_make_request(200));
    assert_eq!(guard.time_until_next_request(200), None);
}

/// After a full window of silence the history is empty again: pruning
/// converges.
#[test]
fn silence_prunes_everything() {
    let mut guard = RateLimiter::new(3, 50);
    guard.record_request(0);
    guard.record_request(10);
    guard.record_request(20);
    assert!(!guard.can_make_request(30));
    assert!(guard.can_make_request(70));
    assert_eq!(guard.time_until_next_request(70), None);
}
