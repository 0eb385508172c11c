//! The block and tipset acceptance gate of a proof-of-stake-weighted
//! blockchain: given a candidate tipset or block, decide whether it may be
//! accepted into the local chain.
//!
//! Structural validation ([`structural`]) runs first and short-circuits:
//! non-emptiness, the epoch-drift bound against the local clock, the
//! recomputed message root of every block ([`message_root`]) and the
//! bad-block cache ([`bad_block`]).  Consensus validation ([`consensus`])
//! then judges each block: sanity, the round-synchronized timestamp, and
//! five independent checks — miner power availability, VRF-based winner
//! election with power-weighted win counting ([`win_count`]), beacon
//! linkage, VRF-based ticket election, and the winning proof of storage —
//! whose errors are all aggregated ([`errors`]), never truncated.
//!
//! Randomness is derived deterministically and domain-separated
//! ([`randomness`]); chain and state services are consumed as resolved
//! plain-value snapshots, never as live handles, so every decision this
//! library takes is a function of its arguments.

pub mod bad_block;
pub mod bytes;
pub mod consensus;
pub mod errors;
pub mod hashing;
pub mod laws;
pub mod message_root;
pub mod randomness;
pub mod sector;
pub mod structural;
pub mod types;
pub mod vrf;
pub mod win_count;

use vstd::prelude::*;

verus! {

/// Number of future rounds a tipset's epoch may run ahead of the local
/// clock before it is rejected as too far in the future.
pub const MAX_HEIGHT_DRIFT: u64 = 5;

} // verus!
