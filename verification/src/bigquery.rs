use crate::block::Block;
use crate::transaction::Transaction;
use vstd::prelude::*;

verus! {

/// Total attempts each commit phase makes before the batch is dropped.
pub const MAX_COMMIT_ATTEMPTS: u32 = 10;

/// Fixed delay, in milliseconds, between attempts of a commit phase.
pub const COMMIT_RETRY_MS: u64 = 1000;

/// How one insert attempt against the sink ended. Anything but success —
/// failing to build the request, a transport or timeout error, or rows the
/// sink reported back as rejected — counts as a failed attempt.
#[derive(Clone, Copy, PartialEq, Eq, Structural, Debug)]
pub enum AttemptOutcome {
    Success,
    BuildFailed,
    TransportFailed,
    RowsRejected,
}

/// Where the two-phase commit of one slot's batch stands: inserting the
/// transaction rows, then the single block row, then done — or dropped after
/// a phase exhausted its attempts.
#[derive(Clone, Copy, PartialEq, Eq, Structural, Debug)]
pub enum CommitPhase {
    Transactions,
    BlockRow,
    Done,
    Dropped,
}

/// What the driver must do after reporting an attempt's outcome.
#[derive(Clone, Copy, PartialEq, Eq, Structural, Debug)]
pub enum CommitAction {
    /// Wait the given milliseconds, then retry the same phase from scratch,
    /// request construction included.
    RetryAfter(u64),
    /// The transactions phase fully succeeded: begin the block phase.
    Proceed,
    /// The block row landed: the batch is committed.
    Finished,
    /// Attempts are exhausted: log and drop the batch. No escalation.
    BatchDropped,
}

/// The commit protocol's state: the phase, and how many attempts the current
/// phase has already failed.
#[derive(Clone, Copy, PartialEq, Eq, Structural, Debug)]
pub struct CommitProtocol {
    pub phase: CommitPhase,
    pub attempts: u32,
}

impl CommitProtocol {
    /// Failed attempts in a phase stay below the bound, and a finished
    /// protocol carries no attempt count.
    pub open spec fn wf(self) -> bool {
        &&& self.attempts < MAX_COMMIT_ATTEMPTS
        &&& (self.phase is Done || self.phase is Dropped) ==> self.attempts == 0
    }

    pub open spec fn running(self) -> bool {
        self.phase is Transactions || self.phase is BlockRow
    }

    pub fn new() -> (r: CommitProtocol)
        ensures
            r.wf(),
            r.phase is Transactions,
            r.attempts == 0,
    {
        CommitProtocol { phase: CommitPhase::Transactions, attempts: 0 }
    }

    /// Report one attempt's outcome and learn what to do next. Success moves
    /// to the next phase (or finishes); failure retries after the fixed
    /// delay until the attempt bound is reached, and then the batch is
    /// dropped.
    pub fn on_attempt(&mut self, outcome: AttemptOutcome) -> (a: CommitAction)
        requires
            old(self).wf(),
            old(self).running(),
        ensures
            final(self).wf(),
            *final(self) == spec_step(*old(self), outcome),
            outcome is Success && old(self).phase is Transactions ==> a is Proceed,
            outcome is Success && old(self).phase is BlockRow ==> a is Finished,
            !(outcome is Success) && old(self).attempts + 1 < MAX_COMMIT_ATTEMPTS ==> a
                == CommitAction::RetryAfter(COMMIT_RETRY_MS),
            !(outcome is Success) && old(self).attempts + 1 == MAX_COMMIT_ATTEMPTS ==> a
                is BatchDropped,
    {
        match outcome {
            AttemptOutcome::Success => {
                if matches!(self.phase, CommitPhase::Transactions) {
                    self.phase = CommitPhase::BlockRow;
                    self.attempts = 0;
                    CommitAction::Proceed
                } else {
                    self.phase = CommitPhase::Done;
                    self.attempts = 0;
                    CommitAction::Finished
                }
            },
            _ => {
                if self.attempts + 1 < MAX_COMMIT_ATTEMPTS {
                    self.attempts = self.attempts + 1;
                    CommitAction::RetryAfter(COMMIT_RETRY_MS)
                } else {
                    self.phase = CommitPhase::Dropped;
                    self.attempts = 0;
                    CommitAction::BatchDropped
                }
            },
        }
    }
}

/// The protocol's transition on one attempt outcome.
pub open spec fn spec_step(p: CommitProtocol, outcome: AttemptOutcome) -> CommitProtocol {
    match p.phase {
        CommitPhase::Transactions => {
            if outcome is Success {
                CommitProtocol { phase: CommitPhase::BlockRow, attempts: 0 }
            } else if p.attempts + 1 < MAX_COMMIT_ATTEMPTS {
                CommitProtocol { phase: p.phase, attempts: (p.attempts + 1) as u32 }
            } else {
                CommitProtocol { phase: CommitPhase::Dropped, attempts: 0 }
            }
        },
        CommitPhase::BlockRow => {
            if outcome is Success {
                CommitProtocol { phase: CommitPhase::Done, attempts: 0 }
            } else if p.attempts + 1 < MAX_COMMIT_ATTEMPTS {
                CommitProtocol { phase: p.phase, attempts: (p.attempts + 1) as u32 }
            } else {
                CommitProtocol { phase: CommitPhase::Dropped, attempts: 0 }
            }
        },
        _ => p,
    }
}

/// The protocol's state after a whole sequence of attempt outcomes, starting
/// fresh.
pub open spec fn protocol_after(outcomes: Seq<AttemptOutcome>) -> CommitProtocol
    decreases outcomes.len(),
{
    if outcomes.len() == 0 {
        CommitProtocol { phase: CommitPhase::Transactions, attempts: 0 }
    } else {
        spec_step(protocol_after(outcomes.drop_last()), outcomes.last())
    }
}

/// The block phase — and so any block-row insert — is reached only after
/// some attempt of the transactions phase succeeded: whatever the outcomes,
/// no block row is attempted until the transaction rows fully landed.
pub proof fn lemma_block_phase_needs_transactions_success(outcomes: Seq<AttemptOutcome>)
    ensures
        (protocol_after(outcomes).phase is BlockRow || protocol_after(outcomes).phase is Done)
            ==> exists|i: int| 0 <= i < outcomes.len() && outcomes[i] is Success,
    decreases outcomes.len(),
{
    if outcomes.len() > 0 {
        let prefix = outcomes.drop_last();
        lemma_block_phase_needs_transactions_success(prefix);
        let p = protocol_after(outcomes);
        if p.phase is BlockRow || p.phase is Done {
            let q = protocol_after(prefix);
            if q.phase is BlockRow || q.phase is Done {
                let j = choose|i: int| 0 <= i < prefix.len() && prefix[i] is Success;
                assert(outcomes[j] is Success);
            } else {
                assert(outcomes.last() is Success);
                assert(outcomes[outcomes.len() - 1] is Success);
            }
        }
    }
}

/// The pending warehouse batch one worker builds and commits: at most one
/// block row and the transaction rows of that block's slot.
pub struct Committer {
    pub block_pending: Option<Block>,
    pub transactions_pending: Vec<Transaction>,
}

impl Committer {
    pub fn new() -> (r: Committer)
        ensures
            r.block_pending is None,
            r.transactions_pending@.len() == 0,
    {
        Committer { block_pending: None, transactions_pending: Vec::new() }
    }

    pub fn add_block(&mut self, block: Block)
        ensures
            final(self).block_pending == Some(block),
            final(self).transactions_pending@ == old(self).transactions_pending@,
    {
        self.block_pending = Some(block);
    }

    pub fn add_transaction(&mut self, transaction: Transaction)
        ensures
            final(self).transactions_pending@ == old(self).transactions_pending@.push(transaction),
            final(self).block_pending == old(self).block_pending,
    {
        self.transactions_pending.push(transaction);
    }

    /// A commit is attempted at all only when transaction rows are pending:
    /// a batch with no transactions is discarded without touching the sink,
    /// block row included.
    pub fn has_work(&self) -> (r: bool)
        ensures
            r <==> self.transactions_pending@.len() > 0,
    {
        self.transactions_pending.len() > 0
    }

    /// After the transactions phase ends, its rows are no longer pending.
    pub fn clear_transactions(&mut self)
        ensures
            final(self).transactions_pending@.len() == 0,
            final(self).block_pending == old(self).block_pending,
    {
        self.transactions_pending = Vec::new();
    }

    /// After the block phase ends, the block row is no longer pending.
    pub fn clear_block(&mut self)
        ensures
            final(self).block_pending is None,
            final(self).transactions_pending@ == old(self).transactions_pending@,
    {
        self.block_pending = None;
    }
}

/// What the sink's `MAX(slot)` query yields: only a present, non-negative
/// value is a usable durable cursor.
pub open spec fn spec_latest_slot(has_row: bool, slot: Option<i64>) -> Option<u64> {
    match slot {
        Some(v) => if has_row && v >= 0 {
            Some(v as u64)
        } else {
            None
        },
        None => None,
    }
}

/// Interpret the result of the sink's durable-cursor query, handed over as
/// plain values: whether a row came back, and the nullable maximum slot in
/// it.
pub fn latest_slot_from_query(has_row: bool, slot: Option<i64>) -> (r: Option<u64>)
    ensures
        r == spec_latest_slot(has_row, slot),
{
    if !has_row {
        return None;
    }
    match slot {
        Some(v) => if v >= 0 {
            Some(v as u64)
        } else {
            None
        },
        None => None,
    }
}

} // verus!
