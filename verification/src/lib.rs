//! Verified core of a ledger-to-warehouse ingestion pipeline.
//!
//! The crate models the parts of the pipeline that make decisions: slot-window
//! planning, startup cursor resolution, retry backoff with endpoint rotation,
//! the bounded concurrency gate, the per-slot block and transaction transforms,
//! and the two-phase batched commit protocol. The surrounding I/O (ledger RPC,
//! warehouse client, threads, sleeps) lives outside the library and drives
//! these verified pieces with plain values.

pub mod backoff;
pub mod bigquery;
pub mod block;
pub mod block_listener;
pub mod counter;
pub mod transaction;
