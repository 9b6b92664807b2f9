use solistener::block_listener::{check_batch, resolve_start_cursor, Listener, Phase};
use solistener::counter::Gate;

/// Start at slot 100 with an end bound of 105 and a ledger that produced
/// every slot: exactly the slots 101 through 105 are dispatched, in order,
/// and the orchestrator then drains and stops.
#[test]
fn bounded_run_dispatches_exactly_the_window() {
    let cursor = resolve_start_cursor(Some(100), None, 0, 0);
    assert_eq!(cursor, 100);
    let mut listener = Listener::new(cursor, Some(105), 2);
    let mut gate = Gate::new(2);
    let mut dispatched: Vec<u64> = Vec::new();

    loop {
        if listener.end_reached() {
            listener.begin_drain();
            break;
        }
        // A tip far ahead of the window, so only the end bound binds.
        let target = listener.plan(10_000).expect("window should be open");
        assert_eq!(target, 105);
        // The ledger produced every slot in the range.
        let slots: Vec<u64> = (listener.processed_slot + 1..=target).collect();
        assert!(check_batch(&slots, listener.processed_slot, target));
        for slot in slots {
            // Take a ticket before starting a worker for this slot.
            while !gate.try_acquire() {
                gate.finish(true);
            }
            listener.dispatch(slot);
            dispatched.push(slot);
            gate.finish(true);
        }
    }

    assert_eq!(dispatched, vec![101, 102, 103, 104, 105]);
    assert_eq!(listener.phase, Phase::Drain);
    assert_eq!(gate.tickets.count, 0);
    listener.stop();
    assert_eq!(listener.phase, Phase::Stopped);
}

/// Dispatch order is strictly ascending and the cursor tracks the last
/// dispatched slot, not any completion.
#[test]
fn cursor_advances_at_dispatch_time() {
    let mut listener = Listener::new(500, None, 4);
    listener.dispatch(501);
    assert_eq!(listener.processed_slot, 501);
    // A sparse ledger skips slots; the cursor jumps with the dispatch.
    listener.dispatch(510);
    assert_eq!(listener.processed_slot, 510);
}
