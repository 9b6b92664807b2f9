use solistener::block_listener::{
    check_batch, plan_target, resolve_start_cursor, Listener, Phase, MAX_SLOT_RANGE,
    SLOTS_BEHIND_LATEST,
};

#[test]
fn slot_batches_are_strictly_ascending_and_in_window() {
    // Sparse batches are fine, as long as they ascend within the window.
    assert!(check_batch(&vec![101, 103, 105], 100, 105));
    assert!(check_batch(&vec![], 100, 105));
    // Out of order, duplicated, at the cursor, or past the target: refused.
    assert!(!check_batch(&vec![103, 102], 100, 105));
    assert!(!check_batch(&vec![103, 103], 100, 105));
    assert!(!check_batch(&vec![100, 101], 100, 105));
    assert!(!check_batch(&vec![101, 106], 100, 105));
}

#[test]
fn planner_bounded_by_margin_from_tip() {
    // cursor + margin (950) is still below the tip, so the window is not
    // empty; the target is the smaller of tip - margin (800) and
    // cursor + max_width (850).
    assert_eq!(plan_target(750, 1000, 200, 100, None), Some(800));
}

#[test]
fn planner_bounded_by_batch_width() {
    // The tip is far ahead: the batch width is the binding bound.
    assert_eq!(plan_target(750, 5000, 200, 100, None), Some(850));
}

#[test]
fn planner_empty_window_when_margin_reaches_tip() {
    assert_eq!(plan_target(900, 1000, 200, 100, None), None);
    assert_eq!(plan_target(800, 1000, 200, 100, None), None);
    // One slot past the threshold the window opens.
    assert_eq!(plan_target(799, 1000, 200, 100, None), Some(800));
}

#[test]
fn planner_empty_window_when_margin_exceeds_latest() {
    assert_eq!(plan_target(0, 150, 200, 100, None), None);
}

#[test]
fn planner_capped_by_end_bound() {
    assert_eq!(plan_target(100, 1305, 200, 100, Some(105)), Some(105));
    // An end bound beyond the other caps changes nothing.
    assert_eq!(plan_target(100, 1305, 200, 100, Some(10_000)), Some(200));
}

#[test]
fn listener_plan_uses_configured_margin_and_width() {
    assert_eq!(SLOTS_BEHIND_LATEST, 200);
    assert_eq!(MAX_SLOT_RANGE, 100);
    let listener = Listener::new(750, None, 2);
    assert_eq!(listener.plan(1000), Some(800));
    assert_eq!(listener.plan(5000), Some(850));
    assert_eq!(listener.plan(900), None);
}

#[test]
fn cursor_resumes_from_sink_durable_slot() {
    // Durable max block-table slot 500, no override: the cursor starts there.
    assert_eq!(resolve_start_cursor(None, Some(500), 12345, 200), 500);
}

#[test]
fn cursor_override_wins() {
    assert_eq!(resolve_start_cursor(Some(100), Some(500), 12345, 200), 100);
}

#[test]
fn cursor_falls_back_to_tip_minus_margin() {
    assert_eq!(resolve_start_cursor(None, None, 1000, 200), 800);
}

#[test]
fn listener_drains_and_stops() {
    let mut listener = Listener::new(100, Some(105), 2);
    assert_eq!(listener.phase, Phase::Discover);
    assert!(!listener.end_reached());
    listener.dispatch(105);
    assert!(listener.end_reached());
    listener.begin_drain();
    assert_eq!(listener.phase, Phase::Drain);
    listener.stop();
    assert_eq!(listener.phase, Phase::Stopped);
}
