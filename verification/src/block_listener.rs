use crate::bigquery::Committer;
use crate::block::{block_matches, Block, RawBlock};
use crate::transaction::{
    raw_transaction_well_formed, transaction_matches, tx_fatal, ProcessError, RawDecodedTransaction,
    RawMeta, RawTransactionEntry, Transaction,
};
use vstd::prelude::*;

verus! {

/// Trailing safety margin: how many slots the pipeline stays behind the
/// finalized tip, so it never touches slots still at risk of reorganization.
pub const SLOTS_BEHIND_LATEST: u64 = 200;

/// Upper bound on how many slots one planning cycle may hand out.
pub const MAX_SLOT_RANGE: u64 = 100;

/// The planner finds no safe unprocessed work when the cursor is already
/// within the safety margin of the finalized tip.
pub open spec fn window_is_empty(cursor: int, latest: int, margin: int) -> bool {
    cursor + margin >= latest
}

/// The planner's target slot: the furthest slot that is safely behind the
/// finalized tip, at most `max_width` past the cursor, and within the
/// optional inclusive end bound.
pub open spec fn planned_target(
    cursor: int,
    latest: int,
    margin: int,
    max_width: int,
    end_bound: Option<u64>,
) -> int {
    let safe = latest - margin;
    let capped = if safe - cursor > max_width {
        cursor + max_width
    } else {
        safe
    };
    match end_bound {
        Some(e) => if capped > e { e as int } else { capped },
        None => capped,
    }
}

/// One planning cycle's arithmetic: given the finalized tip, either report
/// that no slot is safely available yet (`None`: the caller should idle and
/// ask again), or name the inclusive target slot up to which the ledger
/// should next be listed.
pub fn plan_target(
    cursor: u64,
    latest: u64,
    margin: u64,
    max_width: u64,
    end_bound: Option<u64>,
) -> (r: Option<u64>)
    ensures
        r is None <==> window_is_empty(cursor as int, latest as int, margin as int),
        r matches Some(t) ==> t == planned_target(
            cursor as int,
            latest as int,
            margin as int,
            max_width as int,
            end_bound,
        ),
{
    if margin >= latest || cursor >= latest - margin {
        return None;
    }
    let mut target = latest - margin;
    if target - cursor > max_width {
        target = cursor + max_width;
    }
    if let Some(end_slot) = end_bound {
        if target > end_slot {
            target = end_slot;
        }
    }
    Some(target)
}

/// Whatever the cursor and the tip, a configured end bound is never
/// overshot: the planner's target stays at or below it.
pub proof fn lemma_target_within_end_bound(
    cursor: int,
    latest: int,
    margin: int,
    max_width: int,
    end: u64,
)
    ensures
        planned_target(cursor, latest, margin, max_width, Some(end)) <= end,
{
}

/// When the window is non-empty the target also stays within the safety
/// margin of the tip and within one batch width of the cursor.
pub proof fn lemma_target_within_window(
    cursor: int,
    latest: int,
    margin: int,
    max_width: int,
    end_bound: Option<u64>,
)
    requires
        !window_is_empty(cursor, latest, margin),
    ensures
        planned_target(cursor, latest, margin, max_width, end_bound) <= latest - margin,
        planned_target(cursor, latest, margin, max_width, end_bound) <= cursor + max_width,
{
}

/// A slot batch is strictly ascending and lies wholly past the cursor and
/// within the inclusive target.
pub open spec fn batch_well_formed(slots: Seq<u64>, cursor: int, target: int) -> bool {
    &&& (forall|i: int| 0 <= i < slots.len() ==> cursor < #[trigger] slots[i] <= target)
    &&& (forall|i: int, j: int| 0 <= i < j < slots.len() ==> slots[i] < slots[j])
}

proof fn lemma_adjacent_ascending(s: Seq<u64>, i: int, j: int)
    requires
        forall|k: int| 0 <= k < s.len() - 1 ==> #[trigger] s[k] < s[k + 1],
        0 <= i < j < s.len(),
    ensures
        s[i] < s[j],
    decreases j - i,
{
    if i + 1 < j {
        lemma_adjacent_ascending(s, i, j - 1);
    }
}

/// Decide `batch_well_formed` at run time, so the listed slots an upstream
/// hands back can be validated before dispatch.
pub fn check_batch(slots: &Vec<u64>, cursor: u64, target: u64) -> (r: bool)
    ensures
        r == batch_well_formed(slots@, cursor as int, target as int),
{
    let mut i: usize = 0;
    while i < slots.len()
        invariant
            i <= slots@.len(),
            forall|k: int| 0 <= k < i ==> cursor < #[trigger] slots@[k] <= target,
            forall|k: int| 0 <= k < i - 1 ==> #[trigger] slots@[k] < slots@[k + 1],
        decreases slots@.len() - i,
    {
        let s = slots[i];
        if s <= cursor || s > target {
            return false;
        }
        if i > 0 && slots[i - 1] >= s {
            return false;
        }
        i = i + 1;
    }
    proof {
        if slots@.len() > 0 {
            assert forall|a: int, b: int| 0 <= a < b < slots@.len() implies slots@[a]
                < slots@[b] by {
                lemma_adjacent_ascending(slots@, a, b);
            }
        }
    }
    true
}

proof fn lemma_ascending_gap(s: Seq<u64>, i: int, j: int)
    requires
        forall|a: int, b: int| 0 <= a < b < s.len() ==> s[a] < s[b],
        0 <= i <= j < s.len(),
    ensures
        s[j] >= s[i] + (j - i),
    decreases j - i,
{
    if i < j {
        lemma_ascending_gap(s, i, j - 1);
    }
}

/// A full window: when a well-formed batch holds one slot for every
/// position of the window `(cursor, end]`, it is exactly the consecutive
/// slots `cursor + 1 ..= end`, in ascending order.
pub proof fn lemma_full_batch_is_consecutive(slots: Seq<u64>, cursor: u64, end: u64)
    requires
        batch_well_formed(slots, cursor as int, end as int),
        slots.len() == end - cursor,
    ensures
        forall|i: int| 0 <= i < slots.len() ==> slots[i] == cursor + 1 + i,
{
    assert forall|i: int| 0 <= i < slots.len() implies slots[i] == cursor + 1 + i by {
        lemma_ascending_gap(slots, 0, i);
        lemma_ascending_gap(slots, i, slots.len() - 1);
    }
}

/// A bounded run, at the model level: starting below an end bound, with the
/// finalized tip far enough past it and the batch width covering it, the
/// planner's target is the end bound itself; if the ledger produced every
/// slot of that window, the batch is exactly the consecutive slots up to
/// the bound, each one past the cursor left by the one before it, and the
/// last dispatch leaves the cursor at the bound, where the termination
/// check drains.
pub proof fn lemma_bounded_run_reaches_end_bound(
    cursor: u64,
    end: u64,
    latest: u64,
    slots: Seq<u64>,
)
    requires
        cursor < end,
        latest - SLOTS_BEHIND_LATEST >= end,
        cursor + MAX_SLOT_RANGE >= end,
        batch_well_formed(slots, cursor as int, end as int),
        slots.len() == end - cursor,
    ensures
        !window_is_empty(cursor as int, latest as int, SLOTS_BEHIND_LATEST as int),
        planned_target(
            cursor as int,
            latest as int,
            SLOTS_BEHIND_LATEST as int,
            MAX_SLOT_RANGE as int,
            Some(end),
        ) == end,
        forall|i: int| 0 <= i < slots.len() ==> slots[i] == cursor + 1 + i,
        slots.len() > 0,
        slots.last() == end,
{
    lemma_full_batch_is_consecutive(slots, cursor, end);
}

/// The starting cursor, in priority order: an explicit override, else the
/// sink's durable maximum committed slot, else the finalized tip minus the
/// safety margin.
pub open spec fn resolved_cursor(
    start_override: Option<u64>,
    sink_latest: Option<u64>,
    finalized: int,
    margin: int,
) -> int {
    match start_override {
        Some(s) => s as int,
        None => match sink_latest {
            Some(s) => s as int,
            None => finalized - margin,
        },
    }
}

/// Resolve the cursor a fresh orchestrator starts from.
pub fn resolve_start_cursor(
    start_override: Option<u64>,
    sink_latest: Option<u64>,
    finalized: u64,
    margin: u64,
) -> (r: u64)
    requires
        start_override is None && sink_latest is None ==> margin <= finalized,
    ensures
        r == resolved_cursor(start_override, sink_latest, finalized as int, margin as int),
{
    match start_override {
        Some(s) => s,
        None => match sink_latest {
            Some(s) => s,
            None => finalized - margin,
        },
    }
}

/// Where the orchestrator stands in its lifecycle.
#[derive(Clone, Copy, PartialEq, Eq, Structural, Debug)]
pub enum Phase {
    /// Planning and dispatching new slots.
    Discover,
    /// No new dispatch; waiting for outstanding workers to finish.
    Drain,
    /// All work dispatched and drained; the process may exit.
    Stopped,
}

/// The orchestrator's own state: the dispatch-time cursor, the optional end
/// bound, and the lifecycle phase. The cursor advances when a slot is
/// dispatched, not when its worker completes, so it deliberately runs ahead
/// of the sink's durable cursor.
pub struct Listener {
    pub processed_slot: u64,
    pub end_slot: Option<u64>,
    pub max_processor_count: usize,
    pub phase: Phase,
}

impl Listener {
    pub fn new(processed_slot: u64, end_slot: Option<u64>, max_processor_count: usize) -> (r:
        Listener)
        requires
            max_processor_count >= 1,
        ensures
            r.processed_slot == processed_slot,
            r.end_slot == end_slot,
            r.max_processor_count == max_processor_count,
            r.phase == Phase::Discover,
    {
        Listener { processed_slot, end_slot, max_processor_count, phase: Phase::Discover }
    }

    /// The termination check made before each discovery round: true exactly
    /// when an end bound is configured and the cursor has reached it.
    pub fn end_reached(&self) -> (r: bool)
        ensures
            r <==> (self.end_slot matches Some(e) && self.processed_slot >= e),
    {
        match self.end_slot {
            Some(e) => self.processed_slot >= e,
            None => false,
        }
    }

    /// Stop dispatching new slots; already-dispatched workers run on.
    pub fn begin_drain(&mut self)
        requires
            old(self).phase == Phase::Discover,
        ensures
            final(self).phase == Phase::Drain,
            final(self).processed_slot == old(self).processed_slot,
            final(self).end_slot == old(self).end_slot,
            final(self).max_processor_count == old(self).max_processor_count,
    {
        self.phase = Phase::Drain;
    }

    /// Once every outstanding worker has returned its ticket, the
    /// orchestrator is done.
    pub fn stop(&mut self)
        requires
            old(self).phase == Phase::Drain,
        ensures
            final(self).phase == Phase::Stopped,
            final(self).processed_slot == old(self).processed_slot,
            final(self).end_slot == old(self).end_slot,
            final(self).max_processor_count == old(self).max_processor_count,
    {
        self.phase = Phase::Stopped;
    }

    /// Plan the next window from this listener's cursor and end bound, using
    /// the fixed margin and batch width.
    pub fn plan(&self, latest: u64) -> (r: Option<u64>)
        ensures
            r is None <==> window_is_empty(
                self.processed_slot as int,
                latest as int,
                SLOTS_BEHIND_LATEST as int,
            ),
            r matches Some(t) ==> t == planned_target(
                self.processed_slot as int,
                latest as int,
                SLOTS_BEHIND_LATEST as int,
                MAX_SLOT_RANGE as int,
                self.end_slot,
            ),
    {
        plan_target(self.processed_slot, latest, SLOTS_BEHIND_LATEST, MAX_SLOT_RANGE, self.end_slot)
    }

    /// Record that a slot's worker has been dispatched: the cursor advances
    /// to that slot immediately, independent of the worker's later fate.
    /// Slots are dispatched strictly ascending, so the cursor never moves
    /// backwards.
    pub fn dispatch(&mut self, slot: u64)
        requires
            old(self).phase == Phase::Discover,
            slot > old(self).processed_slot,
        ensures
            final(self).processed_slot == slot,
            final(self).processed_slot > old(self).processed_slot,
            final(self).end_slot == old(self).end_slot,
            final(self).max_processor_count == old(self).max_processor_count,
            final(self).phase == old(self).phase,
    {
        self.processed_slot = slot;
    }
}

/// Every raw transaction of the block that the transform is defined for is
/// internally consistent: its indices resolve within its own account list.
pub open spec fn raw_block_entries_well_formed(entries: Seq<RawTransactionEntry>) -> bool {
    forall|i: int|
        0 <= i < entries.len() ==> (match (
            #[trigger] entries[i].meta,
            entries[i].transaction,
        ) {
            (Some(m), Some(st)) => raw_transaction_well_formed(st, m),
            _ => true,
        })
}

/// Decide `raw_block_entries_well_formed` at run time, so unverified callers
/// can establish it before handing a raw block to a processor.
pub fn check_block_entries(entries: &Vec<RawTransactionEntry>) -> (r: bool)
    ensures
        r == raw_block_entries_well_formed(entries@),
{
    let mut i: usize = 0;
    while i < entries.len()
        invariant
            i <= entries@.len(),
            forall|j: int|
                0 <= j < i ==> (match ((#[trigger] entries@[j]).meta, entries@[j].transaction) {
                    (Some(m), Some(st)) => raw_transaction_well_formed(st, m),
                    _ => true,
                }),
        decreases entries@.len() - i,
    {
        let e = &entries[i];
        match (&e.meta, &e.transaction) {
            (Some(m), Some(st)) => {
                if !crate::transaction::check_raw_transaction(st, m) {
                    return false;
                }
            },
            _ => {},
        }
        i = i + 1;
    }
    true
}

/// One emitted warehouse batch entry for each raw entry, built with the
/// block's own timestamp.
pub open spec fn batch_transactions_match(
    txs: Seq<Transaction>,
    entries: Seq<RawTransactionEntry>,
    bt: Option<i64>,
    slot: u64,
) -> bool {
    &&& txs.len() == entries.len()
    &&& (forall|i: int|
        0 <= i < entries.len() ==> (match ((#[trigger] entries[i]).meta, entries[i].transaction) {
            (Some(m), Some(st)) => transaction_matches(txs[i], bt, slot, m, st),
            _ => false,
        }))
}

/// One worker's unit of work, short of the sink itself: it owns the pending
/// batch that the commit protocol will then drive into the warehouse.
pub struct Processor {
    pub committer: Committer,
}

impl Processor {
    pub fn new() -> (r: Processor)
        ensures
            r.committer.block_pending is None,
            r.committer.transactions_pending@.len() == 0,
    {
        Processor { committer: Committer::new() }
    }

    /// Transform one raw transaction and stage its row in the batch.
    pub fn process_transaction(
        &mut self,
        block_timestamp: &Option<i64>,
        slot: u64,
        meta: &RawMeta,
        solana_transaction: &RawDecodedTransaction,
    )
        requires
            raw_transaction_well_formed(*solana_transaction, *meta),
        ensures
            final(self).committer.transactions_pending@.len() == old(
                self,
            ).committer.transactions_pending@.len() + 1,
            final(self).committer.transactions_pending@.subrange(
                0,
                old(self).committer.transactions_pending@.len() as int,
            ) == old(self).committer.transactions_pending@,
            transaction_matches(
                final(self).committer.transactions_pending@.last(),
                *block_timestamp,
                slot,
                *meta,
                *solana_transaction,
            ),
            final(self).committer.block_pending == old(self).committer.block_pending,
    {
        let transaction = Transaction::new(block_timestamp, slot, meta, solana_transaction);
        self.committer.add_transaction(transaction);
        proof {
            assert(final(self).committer.transactions_pending@.subrange(
                0,
                old(self).committer.transactions_pending@.len() as int,
            ) =~= old(self).committer.transactions_pending@);
        }
    }

    /// Transform one raw block into its warehouse batch: the block row plus
    /// one transaction row per raw transaction. A raw transaction without
    /// execution metadata, one that fails to decode, or one whose signatures
    /// do not verify is fatal for the slot: the first such entry's error is
    /// returned and the slot is not retried here.
    pub fn process_block(&mut self, slot: u64, encoded_block: &RawBlock) -> (r: Result<
        (),
        ProcessError,
    >)
        requires
            old(self).committer.transactions_pending@.len() == 0,
            raw_block_entries_well_formed(encoded_block.transactions@),
        ensures
            r is Ok <==> (forall|i: int|
                0 <= i < encoded_block.transactions@.len() ==> tx_fatal(
                    #[trigger] encoded_block.transactions@[i],
                ) is None),
            r is Ok ==> {
                &&& final(self).committer.block_pending matches Some(b) && block_matches(
                    b,
                    slot,
                    *encoded_block,
                )
                &&& batch_transactions_match(
                    final(self).committer.transactions_pending@,
                    encoded_block.transactions@,
                    encoded_block.block_time,
                    slot,
                )
            },
            r matches Err(e) ==> exists|i: int|
                {
                    &&& 0 <= i < encoded_block.transactions@.len()
                    &&& tx_fatal(#[trigger] encoded_block.transactions@[i]) == Some(e)
                    &&& (forall|j: int|
                        0 <= j < i ==> tx_fatal(#[trigger] encoded_block.transactions@[j]) is None)
                },
    {
        let block = Block::new(slot, encoded_block);
        let timestamp = block.get_timestamp();
        self.committer.add_block(block);
        let mut i: usize = 0;
        while i < encoded_block.transactions.len()
            invariant
                raw_block_entries_well_formed(encoded_block.transactions@),
                i <= encoded_block.transactions@.len(),
                timestamp == encoded_block.block_time,
                self.committer.block_pending matches Some(b) && block_matches(
                    b,
                    slot,
                    *encoded_block,
                ),
                batch_transactions_match(
                    self.committer.transactions_pending@,
                    encoded_block.transactions@.take(i as int),
                    encoded_block.block_time,
                    slot,
                ),
                forall|j: int|
                    0 <= j < i ==> tx_fatal(#[trigger] encoded_block.transactions@[j]) is None,
            decreases encoded_block.transactions@.len() - i,
        {
            let entry = &encoded_block.transactions[i];
            match &entry.meta {
                None => {
                    return Err(ProcessError::MissingMeta);
                },
                Some(meta) => {
                    match &entry.transaction {
                        None => {
                            return Err(ProcessError::DecodeFailed);
                        },
                        Some(solana_transaction) => {
                            if !entry.signature_valid {
                                return Err(ProcessError::SignatureInvalid);
                            }
                            self.process_transaction(&timestamp, slot, meta, solana_transaction);
                            proof {
                                assert(encoded_block.transactions@.take(i + 1).drop_last()
                                    =~= encoded_block.transactions@.take(i as int));
                                assert(self.committer.transactions_pending@.drop_last()
                                    =~= self.committer.transactions_pending@.subrange(
                                    0,
                                    self.committer.transactions_pending@.len() - 1,
                                ));
                            }
                        },
                    }
                },
            }
            i = i + 1;
        }
        proof {
            assert(encoded_block.transactions@.take(encoded_block.transactions@.len() as int)
                =~= encoded_block.transactions@);
        }
        Ok(())
    }
}

/// Relies on num_cpus::get: its documentation promises it always returns at
/// least one.
#[verifier::external_body]
fn cpu_count() -> (r: usize)
    ensures
        r >= 1,
{
    num_cpus::get()
}

/// The concurrency bound as a function of the drawn cpu count: exactly
/// twice the available hardware parallelism, saturating only at the machine
/// limit of the counter.
pub fn max_count_from_cpus(cpus: usize) -> (r: usize)
    requires
        cpus >= 1,
    ensures
        cpus <= usize::MAX / 2 ==> r == 2 * cpus,
        cpus > usize::MAX / 2 ==> r == usize::MAX,
        r >= 2,
{
    if cpus <= usize::MAX / 2 {
        cpus * 2
    } else {
        usize::MAX
    }
}

/// The concurrency bound the pipeline is configured with at startup: twice
/// the host's available hardware parallelism. The cpu count itself is
/// machine-dependent; the doubling of whatever count was drawn is
/// `max_count_from_cpus`.
pub fn default_max_processor_count() -> (r: usize)
    ensures
        r >= 2,
{
    max_count_from_cpus(cpu_count())
}

} // verus!
