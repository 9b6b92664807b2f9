use crate::transaction::RawTransactionEntry;
use vstd::prelude::*;

verus! {

/// One reward entry of a raw ledger block, reduced to plain values.
pub struct RawReward {
    pub pubkey: String,
    pub lamports: i64,
    pub post_balance: u64,
    pub reward_type: Option<String>,
}

/// A per-slot ledger block as fetched upstream, reduced to plain values: the
/// optional wall-clock timestamp as unix seconds, the chain linkage, the
/// reward entries, and the raw transaction list.
pub struct RawBlock {
    pub block_time: Option<i64>,
    pub parent_slot: u64,
    pub blockhash: String,
    pub previous_blockhash: String,
    pub rewards: Vec<RawReward>,
    pub transactions: Vec<RawTransactionEntry>,
}

/// A reward entry as the warehouse row stores it.
pub struct Reward {
    pub pubkey: String,
    pub lamports: i64,
    pub post_balance: u64,
    pub reward_type: Option<String>,
}

/// A per-block warehouse record. The timestamp is kept as unix seconds.
pub struct Block {
    pub block_timestamp: Option<i64>,
    pub slot: u64,
    pub parent_slot: u64,
    pub blockhash: String,
    pub previous_blockhash: String,
    pub rewards: Vec<Reward>,
}

pub open spec fn reward_matches(r: Reward, raw: RawReward) -> bool {
    &&& r.pubkey@ == raw.pubkey@
    &&& r.lamports == raw.lamports
    &&& r.post_balance == raw.post_balance
    &&& (match (r.reward_type, raw.reward_type) {
        (Some(a), Some(b)) => a@ == b@,
        (None, None) => true,
        _ => false,
    })
}

/// Every field of the emitted block row pinned against the raw block.
pub open spec fn block_matches(b: Block, slot: u64, raw: RawBlock) -> bool {
    &&& b.block_timestamp == raw.block_time
    &&& b.slot == slot
    &&& b.parent_slot == raw.parent_slot
    &&& b.blockhash@ == raw.blockhash@
    &&& b.previous_blockhash@ == raw.previous_blockhash@
    &&& b.rewards@.len() == raw.rewards@.len()
    &&& (forall|i: int|
        0 <= i < raw.rewards@.len() ==> reward_matches(#[trigger] b.rewards@[i], raw.rewards@[i]))
}

impl Block {
    /// Build the warehouse row for one raw block: a straight copy of its
    /// header fields and reward entries.
    pub fn new(slot: u64, encoded_block: &RawBlock) -> (b: Block)
        ensures
            block_matches(b, slot, *encoded_block),
    {
        let mut rewards: Vec<Reward> = Vec::new();
        let mut i: usize = 0;
        while i < encoded_block.rewards.len()
            invariant
                i <= encoded_block.rewards@.len(),
                rewards@.len() == i,
                forall|j: int|
                    0 <= j < i ==> reward_matches(#[trigger] rewards@[j], encoded_block.rewards@[j]),
            decreases encoded_block.rewards@.len() - i,
        {
            let reward = &encoded_block.rewards[i];
            let reward_type = match &reward.reward_type {
                None => None,
                Some(rt) => Some(rt.clone()),
            };
            rewards.push(
                Reward {
                    pubkey: reward.pubkey.clone(),
                    lamports: reward.lamports,
                    post_balance: reward.post_balance,
                    reward_type,
                },
            );
            i = i + 1;
        }
        Block {
            block_timestamp: encoded_block.block_time,
            slot,
            parent_slot: encoded_block.parent_slot,
            blockhash: encoded_block.blockhash.clone(),
            previous_blockhash: encoded_block.previous_blockhash.clone(),
            rewards,
        }
    }

    pub fn get_timestamp(&self) -> (r: Option<i64>)
        ensures
            r == self.block_timestamp,
    {
        self.block_timestamp
    }
}

} // verus!
