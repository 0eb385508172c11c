//! Laws the validators obey, stated and proved over the same spec functions
//! the validators' contracts use.

use vstd::prelude::*;

use crate::bad_block::{cache_reason, BadBlockEntry};
use crate::bytes::cbor_bytes_enc;
use crate::consensus::{beacon_base, block_errors, fanout_errors, power_lookup, target_timestamp, ticket_election_verdict, winner_election_verdict, winning_post_verdict, ChainLookups, Config, Lookup, PowerTable, StateFacts};
use crate::errors::ConsensusErrorV;
use crate::hashing::blake2b256_of;
use crate::randomness::draw_spec;
use crate::structural::{blocks_verdict, epoch_too_large, max_allowed_epoch, roots_match};
use crate::types::{BeaconEntry, Block, BlockHeader, Tipset};
use crate::vrf::vrf_verdict;
use crate::win_count::expected_wins;

verus! {

/// A tipset's epoch at exactly the clock-derived bound is not too large:
/// rejection starts strictly past the bound.
pub proof fn lemma_epoch_boundary_accepted(
    epoch: i64,
    now: u64,
    genesis_min_timestamp: u64,
    block_delay: u64,
)
    requires
        block_delay >= 1,
        0 <= epoch,
        epoch as int == max_allowed_epoch(now, genesis_min_timestamp, block_delay),
    ensures
        !epoch_too_large(epoch, now, genesis_min_timestamp, block_delay),
{
}

/// Round trip of the message root: a block whose declared root was computed
/// from its own message lists passes the root check by construction.
pub proof fn lemma_msg_root_round_trip(block: Block)
    requires
        block.header.messages@ == crate::message_root::message_root(
            crate::types::messages_view(block.bls_messages@),
            crate::types::signed_messages_view(block.secp_messages@),
        ),
    ensures
        roots_match(block),
{
}

/// A block recorded in the bad-block cache is rejected with the recorded
/// reason, verbatim, once the blocks before it pass: the structural verdict
/// names exactly the cached reason of the first bad block.
pub proof fn lemma_cached_block_rejected(
    blocks: Seq<Block>,
    cache: Seq<BadBlockEntry>,
    i: int,
    reason: Seq<char>,
)
    requires
        0 <= i < blocks.len(),
        forall|j: int| 0 <= j <= i ==> roots_match(#[trigger] blocks[j]),
        forall|j: int| 0 <= j < i ==> cache_reason(cache, (#[trigger] blocks[j]).header.cid@) is None,
        cache_reason(cache, blocks[i].header.cid@) == Some(reason),
    ensures
        blocks_verdict(blocks, cache, 0) == Some(
            crate::errors::TipsetErrorV::InvalidBlock(blocks[i].header.cid@, reason),
        ),
{
    lemma_cached_block_rejected_from(blocks, cache, i, reason, 0);
}

proof fn lemma_cached_block_rejected_from(
    blocks: Seq<Block>,
    cache: Seq<BadBlockEntry>,
    i: int,
    reason: Seq<char>,
    k: int,
)
    requires
        0 <= k <= i < blocks.len(),
        forall|j: int| 0 <= j <= i ==> roots_match(#[trigger] blocks[j]),
        forall|j: int| 0 <= j < i ==> cache_reason(cache, (#[trigger] blocks[j]).header.cid@) is None,
        cache_reason(cache, blocks[i].header.cid@) == Some(reason),
    ensures
        blocks_verdict(blocks, cache, k) == Some(
            crate::errors::TipsetErrorV::InvalidBlock(blocks[i].header.cid@, reason),
        ),
    decreases i - k,
{
    if k < i {
        lemma_cached_block_rejected_from(blocks, cache, i, reason, k + 1);
    }
}

/// The timestamp rule: when no 64-bit wrap-around is in play, the only
/// accepted timestamp over a parent with minimum timestamp `t` is
/// `t + d * rounds` where `rounds` counts the null rounds plus the block's
/// own round; one block delay less or more is rejected.
pub proof fn lemma_timestamp_rule(t: u64, d: u64, base_epoch: i64, epoch: i64)
    requires
        d >= 1,
        base_epoch < epoch,
        t + d * (epoch - base_epoch + 1) <= u64::MAX,
    ensures
        target_timestamp(t, d, base_epoch, epoch) == t + d * (epoch - base_epoch),
        t + d * (epoch - base_epoch - 1) != target_timestamp(t, d, base_epoch, epoch),
        t + d * (epoch - base_epoch + 1) != target_timestamp(t, d, base_epoch, epoch),
{
    let diff = epoch - base_epoch;
    assert(d * diff <= d * (diff + 1) && d * (diff - 1) <= d * diff && d * (diff - 1) + d == d
        * diff && d * diff + d == d * (diff + 1)) by (nonlinear_arith)
        requires
            d >= 1 && diff >= 1,
    ;
    assert(crate::bytes::wrap_u64(diff) == diff);
}

/// The win-count rule: with the miner eligible, unslashed, its election VRF
/// valid, and its power read as `(p, q)` at the lookback root, the winner
/// check accepts exactly the recomputed win count and rejects any other
/// declared value, naming both counts.
pub proof fn lemma_win_count_rule(
    header: BlockHeader,
    lookback_state: Seq<u8>,
    prev_beacon: BeaconEntry,
    work_addr: Seq<u8>,
    table: PowerTable,
    p: u64,
    q: u64,
)
    requires
        header.election_proof is Some,
        header.election_proof->Some_0.win_count >= 1,
        vrf_verdict(
            work_addr,
            draw_spec(
                beacon_base(header, prev_beacon).data@,
                crate::randomness::DrawTag::ElectionProofProduction.value_spec(),
                header.epoch,
                cbor_bytes_enc(header.miner_address@),
            ),
            header.election_proof->Some_0.vrfproof@,
        ) is None,
        power_lookup(table.entries@, lookback_state, header.miner_address@) == Some((p, q)),
    ensures
        winner_election_verdict(
            header,
            lookback_state,
            prev_beacon,
            work_addr,
            Lookup::Found(table),
            Lookup::Found(true),
            Lookup::Found(false),
        ) == if header.election_proof->Some_0.win_count == expected_wins(
            blake2b256_of(header.election_proof->Some_0.vrfproof@),
            p,
            q,
        ) {
            None
        } else {
            Some(
                ConsensusErrorV::MinerWinClaimsIncorrect(
                    header.election_proof->Some_0.win_count,
                    expected_wins(blake2b256_of(header.election_proof->Some_0.vrfproof@), p, q) as i64,
                ),
            )
        },
{
}

/// Fan-out aggregation: when the ticket check and the winning-proof check
/// both fail, the merged error list holds both errors — neither masks the
/// other.
pub proof fn lemma_fanout_aggregation(
    block: Block,
    base_tipset: Tipset,
    lookback_state: Seq<u8>,
    prev_beacon: BeaconEntry,
    work_addr: Seq<u8>,
    facts: StateFacts,
    config: Config,
    ticket_err: ConsensusErrorV,
    post_err: ConsensusErrorV,
)
    requires
        ticket_election_verdict(
            block.header,
            base_tipset,
            prev_beacon,
            work_addr,
            config.smoke_height,
        ) == Some(ticket_err),
        winning_post_verdict(block.header, config, facts.winning_post) == Some(post_err),
    ensures
        fanout_errors(
            block,
            base_tipset,
            lookback_state,
            prev_beacon,
            work_addr,
            facts,
            config,
        ).contains(ticket_err),
        fanout_errors(
            block,
            base_tipset,
            lookback_state,
            prev_beacon,
            work_addr,
            facts,
            config,
        ).contains(post_err),
{
    let s = fanout_errors(
        block,
        base_tipset,
        lookback_state,
        prev_beacon,
        work_addr,
        facts,
        config,
    );
    let n = s.len();
    assert(s[n - 2] == ticket_err);
    assert(s[n - 1] == post_err);
}

/// Lookback isolation: the winner check reads power only at the lookback
/// state root.  Two power snapshots that agree on the miner's entry at the
/// lookback root yield the same verdict, however much they disagree at any
/// other root — the parent state root included.
pub proof fn lemma_lookback_isolation(
    header: BlockHeader,
    lookback_state: Seq<u8>,
    prev_beacon: BeaconEntry,
    work_addr: Seq<u8>,
    table1: PowerTable,
    table2: PowerTable,
    eligible: Lookup<bool>,
    slashed: Lookup<bool>,
)
    requires
        power_lookup(table1.entries@, lookback_state, header.miner_address@) == power_lookup(
            table2.entries@,
            lookback_state,
            header.miner_address@,
        ),
    ensures
        winner_election_verdict(
            header,
            lookback_state,
            prev_beacon,
            work_addr,
            Lookup::Found(table1),
            eligible,
            slashed,
        ) == winner_election_verdict(
            header,
            lookback_state,
            prev_beacon,
            work_addr,
            Lookup::Found(table2),
            eligible,
            slashed,
        ),
{
}

/// Determinism of block validation: the verdict is a function of the block,
/// the resolved chain reads, the resolved state reads and the configuration
/// alone — two validations of the same inputs agree exactly.
pub proof fn lemma_block_verdict_deterministic(
    block: Block,
    chain: ChainLookups,
    facts: StateFacts,
    config: Config,
    e1: Seq<ConsensusErrorV>,
    e2: Seq<ConsensusErrorV>,
)
    requires
        e1 == block_errors(block, chain, facts, config),
        e2 == block_errors(block, chain, facts, config),
    ensures
        e1 == e2,
{
}

} // verus!
