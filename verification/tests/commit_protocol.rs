use solistener::bigquery::{
    latest_slot_from_query, AttemptOutcome, CommitAction, CommitPhase, CommitProtocol, Committer,
    COMMIT_RETRY_MS, MAX_COMMIT_ATTEMPTS,
};
use solistener::block::{Block, RawBlock};

fn empty_raw_block() -> RawBlock {
    RawBlock {
        block_time: Some(1_650_000_000),
        parent_slot: 41,
        blockhash: String::from("hash42"),
        previous_blockhash: String::from("hash41"),
        rewards: Vec::new(),
        transactions: Vec::new(),
    }
}

#[test]
fn transient_failures_then_success_on_fourth_attempt() {
    // A sink that fails attempts 1 through 3 and succeeds on attempt 4:
    // the transactions phase reports success after exactly 4 attempts, and
    // the block phase starts only then.
    let mut p = CommitProtocol::new();
    let mut attempts = 0;
    for _ in 0..3 {
        attempts += 1;
        assert_eq!(
            p.on_attempt(AttemptOutcome::TransportFailed),
            CommitAction::RetryAfter(COMMIT_RETRY_MS)
        );
        assert_eq!(p.phase, CommitPhase::Transactions);
    }
    attempts += 1;
    assert_eq!(p.on_attempt(AttemptOutcome::Success), CommitAction::Proceed);
    assert_eq!(attempts, 4);
    assert_eq!(p.phase, CommitPhase::BlockRow);
    assert_eq!(p.on_attempt(AttemptOutcome::Success), CommitAction::Finished);
    assert_eq!(p.phase, CommitPhase::Done);
}

#[test]
fn batch_dropped_after_exhausted_attempts() {
    let mut p = CommitProtocol::new();
    for _ in 0..(MAX_COMMIT_ATTEMPTS - 1) {
        assert_eq!(
            p.on_attempt(AttemptOutcome::RowsRejected),
            CommitAction::RetryAfter(COMMIT_RETRY_MS)
        );
    }
    // The tenth failed attempt gives the batch up.
    assert_eq!(p.on_attempt(AttemptOutcome::RowsRejected), CommitAction::BatchDropped);
    assert_eq!(p.phase, CommitPhase::Dropped);
}

#[test]
fn block_phase_failures_drop_without_reopening_transactions() {
    let mut p = CommitProtocol::new();
    assert_eq!(p.on_attempt(AttemptOutcome::Success), CommitAction::Proceed);
    for _ in 0..(MAX_COMMIT_ATTEMPTS - 1) {
        assert_eq!(
            p.on_attempt(AttemptOutcome::BuildFailed),
            CommitAction::RetryAfter(COMMIT_RETRY_MS)
        );
        assert_eq!(p.phase, CommitPhase::BlockRow);
    }
    assert_eq!(p.on_attempt(AttemptOutcome::BuildFailed), CommitAction::BatchDropped);
    assert_eq!(p.phase, CommitPhase::Dropped);
}

#[test]
fn committer_batch_lifecycle() {
    let mut c = Committer::new();
    assert!(!c.has_work());
    c.add_block(Block::new(42, &empty_raw_block()));
    // A batch with no transaction rows is not committed at all.
    assert!(!c.has_work());
    c.clear_transactions();
    c.clear_block();
}

#[test]
fn latest_slot_query_interpretation() {
    assert_eq!(latest_slot_from_query(true, Some(500)), Some(500));
    assert_eq!(latest_slot_from_query(true, Some(0)), Some(0));
    // A negative value, a null value, or no row at all is no cursor.
    assert_eq!(latest_slot_from_query(true, Some(-1)), None);
    assert_eq!(latest_slot_from_query(true, None), None);
    assert_eq!(latest_slot_from_query(false, Some(500)), None);
}
