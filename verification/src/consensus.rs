//! Per-block consensus validation: a synchronous prelude (sanity, parent
//! resolution, timestamp, lookback and worker-key resolution) that
//! short-circuits, followed by five mutually independent checks — miner
//! power availability, winner election, beacon linkage, ticket election,
//! winning proof of storage — whose errors are all collected and merged into
//! one non-empty aggregate, never truncated to the first failure.
//!
//! The chain and state services backing the checks are consumed as resolved
//! snapshots: each read is either `Found` with the value or `Failed` with
//! the service's message, so "the block is invalid" stays distinct from
//! "this node could not verify".  Power is read from a table keyed by state
//! root, and the winner check reads it at the lookback root, never at the
//! parent root.

use vstd::prelude::*;

use crate::bytes::{cbor_bytes_enc, cbor_encode_bytes, miner_id, miner_id_spec, wrap_u64};
use crate::errors::{collect_errs, errors_view, ConsensusErrorV, ConsensusErrors, FilecoinConsensusError};
use crate::hashing::blake2b256_of;
use crate::randomness::{draw_randomness, draw_spec, DrawTag};
use crate::types::{BeaconEntry, Block, BlockHeader, Tipset};
use crate::vrf::{verify_election_post_vrf, vrf_verdict};
use crate::win_count::expected_wins;

verus! {

/// Rounds a ticket draw looks back from the block's own epoch.
pub const TICKET_RANDOMNESS_LOOKBACK: i64 = 1;

/// Whether beacon entries are validated or the check is switched off (for
/// isolated networks without a beacon).
#[derive(Clone, Copy, Debug)]
pub enum BeaconPolicy {
    Validate,
    Skip,
}

/// Whether winning proofs are verified cryptographically, or accepted by a
/// fixed sentinel.  The sentinel mode exists only for test builds and must
/// never back a production network.
#[derive(Clone, Copy, Debug)]
pub enum ProofMode {
    Strict,
    InsecureTest,
}

/// Validator configuration, passed explicitly at construction rather than
/// read from the environment: the beacon policy, the proof mode, the height
/// past which ticket draws fold the base tipset's ticket into their entropy,
/// and the network's block delay in seconds.
#[derive(Clone, Copy, Debug)]
pub struct Config {
    pub beacon: BeaconPolicy,
    pub proof_mode: ProofMode,
    pub smoke_height: i64,
    pub block_delay: u64,
}

/// One protocol upgrade: from `height` on, the network runs `version`.
#[derive(Clone, Copy, Debug)]
pub struct UpgradeInfo {
    pub height: i64,
    pub version: u32,
}

/// The network version at `epoch`: the version of the latest upgrade in the
/// schedule whose height does not exceed the epoch, searching the schedule
/// from its end; version zero before any upgrade applies.
pub open spec fn network_version_spec(schedule: Seq<UpgradeInfo>, epoch: i64, i: int) -> u32
    decreases i + 1,
{
    if i < 0 || i >= schedule.len() {
        0
    } else if schedule[i].height <= epoch {
        schedule[i].version
    } else {
        network_version_spec(schedule, epoch, i - 1)
    }
}

/// The network version in force at an epoch, given the upgrade schedule in
/// ascending order of application.
pub fn network_version(schedule: &Vec<UpgradeInfo>, epoch: i64) -> (r: u32)
    ensures
        r == network_version_spec(schedule@, epoch, schedule@.len() - 1),
{
    let mut i: usize = schedule.len();
    while i > 0
        invariant
            i <= schedule@.len(),
            network_version_spec(schedule@, epoch, schedule@.len() - 1) == network_version_spec(
                schedule@,
                epoch,
                i - 1,
            ),
        decreases i,
    {
        if schedule[i - 1].height <= epoch {
            return schedule[i - 1].version;
        }
        i = i - 1;
    }
    0
}

/// The outcome of one read from an external chain or state service.
#[derive(Clone, Debug)]
pub enum Lookup<T> {
    /// The read succeeded with this value.
    Found(T),
    /// The service failed with this message; distinct from any verdict on
    /// the block itself.
    Failed(String),
}

/// The resolved chain reads the prelude depends on: the block's parent
/// tipset, the lookback state root, the latest beacon entry visible at the
/// parent, and the miner's worker address from the lookback state.
#[derive(Clone, Debug)]
pub struct ChainLookups {
    pub base: Lookup<Tipset>,
    pub lookback_state: Lookup<Vec<u8>>,
    pub prev_beacon: Lookup<BeaconEntry>,
    pub work_addr: Lookup<Vec<u8>>,
}

/// The outcome of loading the miner's power entry at the parent state: the
/// power table must be loadable and hold the miner, though no minimum power
/// is asked here.
#[derive(Clone, Debug)]
pub enum MinerPowerLoad {
    Loaded,
    PowerActorUnavailable,
    MinerPowerUnavailable(String),
}

/// One power-table row: the quality-adjusted power of a miner and of the
/// whole network, as read at one state root.
#[derive(Clone, Debug)]
pub struct PowerEntry {
    pub state_root: Vec<u8>,
    pub miner: Vec<u8>,
    pub miner_power: u64,
    pub total_power: u64,
}

/// The first row for the given state root and miner, searching in order.
pub open spec fn power_lookup_from(
    entries: Seq<PowerEntry>,
    state_root: Seq<u8>,
    miner: Seq<u8>,
    i: int,
) -> Option<(u64, u64)>
    decreases entries.len() - i,
{
    if i < 0 || i >= entries.len() {
        None
    } else if entries[i].state_root@ == state_root && entries[i].miner@ == miner {
        Some((entries[i].miner_power, entries[i].total_power))
    } else {
        power_lookup_from(entries, state_root, miner, i + 1)
    }
}

/// The miner's and the network's quality-adjusted power at a state root.
pub open spec fn power_lookup(entries: Seq<PowerEntry>, state_root: Seq<u8>, miner: Seq<u8>) -> Option<
    (u64, u64),
> {
    power_lookup_from(entries, state_root, miner, 0)
}

/// A read-only snapshot of power-table reads, keyed by state root, so a
/// caller can see which state a value was read from.
#[derive(Clone, Debug)]
pub struct PowerTable {
    pub entries: Vec<PowerEntry>,
}

impl PowerTable {
    /// The miner's and total quality-adjusted power at the given state root.
    pub fn get_power(&self, state_root: &Vec<u8>, miner: &Vec<u8>) -> (r: Option<(u64, u64)>)
        ensures
            r == power_lookup(self.entries@, state_root@, miner@),
    {
        let n = self.entries.len();
        let mut i: usize = 0;
        while i < n
            invariant
                n == self.entries@.len(),
                i <= n,
                power_lookup(self.entries@, state_root@, miner@) == power_lookup_from(
                    self.entries@,
                    state_root@,
                    miner@,
                    i as int,
                ),
            decreases n - i,
        {
            let root_matches = crate::bytes::bytes_eq(&self.entries[i].state_root, state_root);
            let miner_matches = crate::bytes::bytes_eq(&self.entries[i].miner, miner);
            if root_matches && miner_matches {
                return Some((self.entries[i].miner_power, self.entries[i].total_power));
            }
            i = i + 1;
        }
        None
    }
}

/// The resolved state reads the five checks depend on.
#[derive(Clone, Debug)]
pub struct StateFacts {
    /// Power-table load at the parent state, for the miner-validity check.
    pub power_load: MinerPowerLoad,
    /// Whether the miner is eligible to mine, judged against the base and
    /// lookback tipsets.
    pub eligible: Lookup<bool>,
    /// Whether the miner is slashed at the parent state.
    pub slashed: Lookup<bool>,
    /// Power-table reads keyed by state root; the winner check reads them at
    /// the lookback root.
    pub power: Lookup<PowerTable>,
    /// The beacon schedule's verdict on the block's beacon entries.
    pub beacon: Lookup<()>,
    /// The proof verifier's verdict on the winning proof, against the
    /// challenge seed this library derives.
    pub winning_post: Lookup<()>,
}

/// The beacon entry a draw is based on: the block's own latest entry, or the
/// previous tipset's latest entry if the block declares none.
pub open spec fn beacon_base(header: BlockHeader, prev_beacon: BeaconEntry) -> BeaconEntry {
    if header.beacon_entries@.len() > 0 {
        header.beacon_entries@.last()
    } else {
        prev_beacon
    }
}

/// The block's latest beacon entry, else the previous tipset's.
pub fn latest_beacon<'a>(header: &'a BlockHeader, prev_beacon: &'a BeaconEntry) -> (r:
    &'a BeaconEntry)
    ensures
        *r == beacon_base(*header, *prev_beacon),
{
    let n = header.beacon_entries.len();
    if n > 0 {
        &header.beacon_entries[n - 1]
    } else {
        prev_beacon
    }
}

/// Both mandatory header fields are present.
pub open spec fn sanity_ok(header: BlockHeader) -> bool {
    header.election_proof is Some && header.ticket is Some
}

/// Checks the mandatory optional fields of a header: an election proof and
/// a ticket, both required by this consensus mechanism.
pub fn block_sanity_checks(header: &BlockHeader) -> (r: Result<(), FilecoinConsensusError>)
    ensures
        r is Ok <==> sanity_ok(*header),
        r is Err && header.election_proof is None ==> r->Err_0@
            == ConsensusErrorV::BlockWithoutElectionProof,
        r is Err && header.election_proof is Some ==> r->Err_0@
            == ConsensusErrorV::BlockWithoutTicket,
{
    if header.election_proof.is_none() {
        return Err(FilecoinConsensusError::BlockWithoutElectionProof);
    }
    if header.ticket.is_none() {
        return Err(FilecoinConsensusError::BlockWithoutTicket);
    }
    Ok(())
}

/// The only timestamp a block at `epoch` may carry over a parent at
/// `base_epoch` with minimum timestamp `base_min_timestamp`: one block delay
/// per round, null rounds included, in wrap-around 64-bit arithmetic.
pub open spec fn target_timestamp(
    base_min_timestamp: u64,
    block_delay: u64,
    base_epoch: i64,
    epoch: i64,
) -> u64 {
    vstd::wrapping::u64_specs::wrapping_add(
        base_min_timestamp,
        vstd::wrapping::u64_specs::wrapping_mul(block_delay, wrap_u64(epoch - base_epoch)),
    )
}

/// Enforces the round-synchronized clock: the header's timestamp must equal
/// the parent's minimum timestamp plus one block delay per round since the
/// parent, with no slack.
pub fn block_timestamp_checks(header: &BlockHeader, base_tipset: &Tipset, block_delay: u64) -> (r:
    Result<(), FilecoinConsensusError>)
    ensures
        r is Ok <==> header.timestamp == target_timestamp(
            base_tipset.min_timestamp,
            block_delay,
            base_tipset.epoch,
            header.epoch,
        ),
        r is Err ==> r->Err_0@ == ConsensusErrorV::UnequalBlockTimestamps(
            header.timestamp,
            target_timestamp(
                base_tipset.min_timestamp,
                block_delay,
                base_tipset.epoch,
                header.epoch,
            ),
        ),
{
    let rounds: u64 = if header.epoch >= base_tipset.epoch {
        let d: i128 = (header.epoch as i128) - (base_tipset.epoch as i128);
        d as u64
    } else {
        let k: i128 = (base_tipset.epoch as i128) - (header.epoch as i128);
        0u64.wrapping_sub(k as u64)
    };
    proof {
        assert(rounds == wrap_u64(header.epoch - base_tipset.epoch));
    }
    let target = base_tipset.min_timestamp.wrapping_add(block_delay.wrapping_mul(rounds));
    if target != header.timestamp {
        Err(FilecoinConsensusError::UnequalBlockTimestamps(header.timestamp, target))
    } else {
        Ok(())
    }
}

/// What the miner check yields: the power table and the miner's entry must
/// be loadable from the parent state.
pub open spec fn miner_check_verdict(load: MinerPowerLoad) -> Option<ConsensusErrorV> {
    match load {
        MinerPowerLoad::Loaded => None,
        MinerPowerLoad::PowerActorUnavailable => Some(ConsensusErrorV::PowerActorUnavailable),
        MinerPowerLoad::MinerPowerUnavailable(m) => Some(
            ConsensusErrorV::MinerPowerUnavailable(m@),
        ),
    }
}

/// Checks that the miner's power entry could be loaded.  No minimum power is
/// demanded here; eligibility is the winner check's business.
pub fn validate_miner(power_load: &MinerPowerLoad) -> (r: Result<(), FilecoinConsensusError>)
    ensures
        r is Ok <==> miner_check_verdict(*power_load) is None,
        r is Err ==> Some(r->Err_0@) == miner_check_verdict(*power_load),
{
    match power_load {
        MinerPowerLoad::Loaded => Ok(()),
        MinerPowerLoad::PowerActorUnavailable => Err(
            FilecoinConsensusError::PowerActorUnavailable,
        ),
        MinerPowerLoad::MinerPowerUnavailable(m) => Err(
            FilecoinConsensusError::MinerPowerUnavailable(m.clone()),
        ),
    }
}

/// The winner-election verdict, in check order: a win must be claimed, the
/// miner eligible, the election VRF valid for the worker key, the miner not
/// slashed, the miner's power present at the lookback state root, and the
/// declared win count exactly the recomputed one.
pub open spec fn winner_election_verdict(
    header: BlockHeader,
    lookback_state: Seq<u8>,
    prev_beacon: BeaconEntry,
    work_addr: Seq<u8>,
    power: Lookup<PowerTable>,
    eligible: Lookup<bool>,
    slashed: Lookup<bool>,
) -> Option<ConsensusErrorV> {
    if header.election_proof is None {
        Some(ConsensusErrorV::BlockWithoutElectionProof)
    } else {
        let ep = header.election_proof->Some_0;
        if ep.win_count < 1 {
            Some(ConsensusErrorV::NotClaimingWin)
        } else {
            match eligible {
                Lookup::Failed(m) => Some(ConsensusErrorV::StateLookup(m@)),
                Lookup::Found(is_eligible) => if !is_eligible {
                    Some(ConsensusErrorV::MinerNotEligibleToMine)
                } else {
                    let vrf_base = draw_spec(
                        beacon_base(header, prev_beacon).data@,
                        DrawTag::ElectionProofProduction.value_spec(),
                        header.epoch,
                        cbor_bytes_enc(header.miner_address@),
                    );
                    match vrf_verdict(work_addr, vrf_base, ep.vrfproof@) {
                        Some(e) => Some(e),
                        None => match slashed {
                            Lookup::Failed(m) => Some(ConsensusErrorV::StateLookup(m@)),
                            Lookup::Found(is_slashed) => if is_slashed {
                                Some(ConsensusErrorV::InvalidOrSlashedMiner)
                            } else {
                                match power {
                                    Lookup::Failed(m) => Some(ConsensusErrorV::StateLookup(m@)),
                                    Lookup::Found(table) => match power_lookup(
                                        table.entries@,
                                        lookback_state,
                                        header.miner_address@,
                                    ) {
                                        None => Some(ConsensusErrorV::MinerPowerNotAvailable),
                                        Some((p, q)) => {
                                            let expected = expected_wins(
                                                blake2b256_of(ep.vrfproof@),
                                                p,
                                                q,
                                            );
                                            if ep.win_count != expected {
                                                Some(
                                                    ConsensusErrorV::MinerWinClaimsIncorrect(
                                                        ep.win_count,
                                                        expected as i64,
                                                    ),
                                                )
                                            } else {
                                                None
                                            }
                                        },
                                    },
                                }
                            },
                        },
                    }
                },
            }
        }
    }
}

/// Verifies the winner election: win claim, eligibility, election VRF,
/// slash status, and the power-weighted win count, whose power values are
/// read at the lookback state root and nowhere else.
pub fn validate_winner_election(
    header: &BlockHeader,
    lookback_state: &Vec<u8>,
    prev_beacon: &BeaconEntry,
    work_addr: &Vec<u8>,
    power: &Lookup<PowerTable>,
    eligible: &Lookup<bool>,
    slashed: &Lookup<bool>,
) -> (r: Result<(), FilecoinConsensusError>)
    requires
        header.election_proof is Some,
    ensures
        r is Ok <==> winner_election_verdict(
            *header,
            lookback_state@,
            *prev_beacon,
            work_addr@,
            *power,
            *eligible,
            *slashed,
        ) is None,
        r is Err ==> Some(r->Err_0@) == winner_election_verdict(
            *header,
            lookback_state@,
            *prev_beacon,
            work_addr@,
            *power,
            *eligible,
            *slashed,
        ),
{
    let ep = match &header.election_proof {
        Some(ep) => ep,
        None => {
            proof {
                assert(false);
            }
            return Err(FilecoinConsensusError::NotClaimingWin);
        },
    };
    if ep.win_count < 1 {
        return Err(FilecoinConsensusError::NotClaimingWin);
    }
    match eligible {
        Lookup::Failed(m) => {
            return Err(FilecoinConsensusError::StateLookup(m.clone()));
        },
        Lookup::Found(is_eligible) => {
            if !*is_eligible {
                return Err(FilecoinConsensusError::MinerNotEligibleToMine);
            }
        },
    }
    let base_entry = latest_beacon(header, prev_beacon);
    let entropy = cbor_encode_bytes(&header.miner_address);
    let vrf_base = draw_randomness(
        &base_entry.data,
        DrawTag::ElectionProofProduction,
        header.epoch,
        &entropy,
    );
    match verify_election_post_vrf(work_addr, &vrf_base, &ep.vrfproof) {
        Err(e) => {
            return Err(e);
        },
        Ok(()) => {},
    }
    match slashed {
        Lookup::Failed(m) => {
            return Err(FilecoinConsensusError::StateLookup(m.clone()));
        },
        Lookup::Found(is_slashed) => {
            if *is_slashed {
                return Err(FilecoinConsensusError::InvalidOrSlashedMiner);
            }
        },
    }
    match power {
        Lookup::Failed(m) => Err(FilecoinConsensusError::StateLookup(m.clone())),
        Lookup::Found(table) => {
            match table.get_power(lookback_state, &header.miner_address) {
                None => Err(FilecoinConsensusError::MinerPowerNotAvailable),
                Some((miner_power, total_power)) => {
                    let expected = ep.compute_win_count(miner_power, total_power);
                    if ep.win_count != expected {
                        Err(FilecoinConsensusError::MinerWinClaimsIncorrect(
                            ep.win_count,
                            expected,
                        ))
                    } else {
                        Ok(())
                    }
                },
            }
        },
    }
}

/// What the ticket check yields: past the entropy-upgrade height the base
/// tipset must carry a ticket, whose proof is folded into the draw entropy;
/// the block's ticket must be a valid VRF proof over a draw one round back.
pub open spec fn ticket_election_verdict(
    header: BlockHeader,
    base_tipset: Tipset,
    prev_beacon: BeaconEntry,
    work_addr: Seq<u8>,
    smoke_height: i64,
) -> Option<ConsensusErrorV> {
    if header.ticket is None {
        Some(ConsensusErrorV::BlockWithoutTicket)
    } else if header.epoch > smoke_height && base_tipset.min_ticket is None {
        Some(ConsensusErrorV::TipsetWithoutTicket)
    } else {
        let entropy = if header.epoch > smoke_height {
            cbor_bytes_enc(header.miner_address@) + base_tipset.min_ticket->Some_0.vrfproof@
        } else {
            cbor_bytes_enc(header.miner_address@)
        };
        let vrf_base = draw_spec(
            beacon_base(header, prev_beacon).data@,
            DrawTag::TicketProduction.value_spec(),
            (header.epoch - TICKET_RANDOMNESS_LOOKBACK) as i64,
            entropy,
        );
        vrf_verdict(work_addr, vrf_base, header.ticket->Some_0.vrfproof@)
    }
}

/// Verifies the ticket election: the draw uses the round one back from the
/// block's epoch, and strictly past the upgrade height the base tipset's
/// minimum ticket is appended to the entropy.
pub fn validate_ticket_election(
    header: &BlockHeader,
    base_tipset: &Tipset,
    prev_beacon: &BeaconEntry,
    work_addr: &Vec<u8>,
    smoke_height: i64,
) -> (r: Result<(), FilecoinConsensusError>)
    requires
        header.ticket is Some,
        header.epoch > i64::MIN,
    ensures
        r is Ok <==> ticket_election_verdict(
            *header,
            *base_tipset,
            *prev_beacon,
            work_addr@,
            smoke_height,
        ) is None,
        r is Err ==> Some(r->Err_0@) == ticket_election_verdict(
            *header,
            *base_tipset,
            *prev_beacon,
            work_addr@,
            smoke_height,
        ),
{
    let ticket = match &header.ticket {
        Some(t) => t,
        None => {
            proof {
                assert(false);
            }
            return Err(FilecoinConsensusError::TipsetWithoutTicket);
        },
    };
    let mut entropy = cbor_encode_bytes(&header.miner_address);
    if header.epoch > smoke_height {
        match &base_tipset.min_ticket {
            None => {
                return Err(FilecoinConsensusError::TipsetWithoutTicket);
            },
            Some(min_ticket) => {
                crate::bytes::append_bytes(&mut entropy, &min_ticket.vrfproof);
            },
        }
    }
    let base_entry = latest_beacon(header, prev_beacon);
    let round: i64 = header.epoch - TICKET_RANDOMNESS_LOOKBACK;
    let vrf_base = draw_randomness(&base_entry.data, DrawTag::TicketProduction, round, &entropy);
    match verify_election_post_vrf(work_addr, &vrf_base, &ticket.vrfproof) {
        Err(e) => Err(e),
        Ok(()) => Ok(()),
    }
}

/// What the beacon check yields: nothing when validation is switched off;
/// otherwise the beacon schedule's own answer, wrapped as a beacon error.
pub open spec fn beacon_check_verdict(policy: BeaconPolicy, verdict: Lookup<()>) -> Option<
    ConsensusErrorV,
> {
    match policy {
        BeaconPolicy::Skip => None,
        BeaconPolicy::Validate => match verdict {
            Lookup::Found(_) => None,
            Lookup::Failed(m) => Some(ConsensusErrorV::BeaconValidation(m@)),
        },
    }
}

/// Applies the beacon policy to the beacon schedule's verdict on the block's
/// beacon entries.
pub fn validate_beacon(policy: BeaconPolicy, verdict: &Lookup<()>) -> (r: Result<
    (),
    FilecoinConsensusError,
>)
    ensures
        r is Ok <==> beacon_check_verdict(policy, *verdict) is None,
        r is Err ==> Some(r->Err_0@) == beacon_check_verdict(policy, *verdict),
{
    match policy {
        BeaconPolicy::Skip => Ok(()),
        BeaconPolicy::Validate => match verdict {
            Lookup::Found(_) => Ok(()),
            Lookup::Failed(m) => Err(FilecoinConsensusError::BeaconValidation(m.clone())),
        },
    }
}

/// The proof bytes the insecure test mode accepts.
pub open spec fn insecure_sentinel() -> Seq<u8> {
    seq![118u8, 97u8, 108u8, 105u8, 100u8, 95u8, 112u8, 114u8, 111u8, 111u8, 102u8]
}

/// The sentinel proof bytes accepted in the insecure test mode.
pub fn insecure_sentinel_bytes() -> (r: Vec<u8>)
    ensures
        r@ == insecure_sentinel(),
{
    let mut r: Vec<u8> = Vec::new();
    r.push(118u8);
    r.push(97u8);
    r.push(108u8);
    r.push(105u8);
    r.push(100u8);
    r.push(95u8);
    r.push(112u8);
    r.push(114u8);
    r.push(111u8);
    r.push(111u8);
    r.push(102u8);
    proof {
        assert(r@ =~= insecure_sentinel());
    }
    r
}

/// The winning-proof verdict.  In the insecure test mode a non-empty proof
/// set whose first proof equals the sentinel is accepted and anything else
/// rejected, with no cryptography.  In the strict mode the miner's numeric
/// identifier must be readable from its address, and the proof verifier's
/// verdict over the derived challenge seed decides the rest.
pub open spec fn winning_post_verdict(
    header: BlockHeader,
    config: Config,
    winning_post: Lookup<()>,
) -> Option<ConsensusErrorV> {
    match config.proof_mode {
        ProofMode::InsecureTest => {
            if header.winning_post_proof@.len() == 0 {
                Some(ConsensusErrorV::InsecurePostValidation("No winning PoSt proof provided"@))
            } else if header.winning_post_proof@[0].proof_bytes@ == insecure_sentinel() {
                None
            } else {
                Some(ConsensusErrorV::InsecurePostValidation("Winning PoSt is invalid"@))
            }
        },
        ProofMode::Strict => {
            if miner_id_spec(header.miner_address@) is None {
                Some(
                    ConsensusErrorV::WinningPoStValidation(
                        "failed to get ID from miner address"@,
                    ),
                )
            } else {
                match winning_post {
                    Lookup::Failed(m) => Some(ConsensusErrorV::WinningPoStValidation(m@)),
                    Lookup::Found(_) => None,
                }
            }
        },
    }
}

/// The challenge seed of the block's winning proof: a draw over the block's
/// base beacon entry at the block's own epoch, with the miner address as
/// entropy.  The caller fetches the challenged sectors and verifies the
/// proof against this seed.
pub fn winning_post_challenge_seed(header: &BlockHeader, prev_beacon: &BeaconEntry) -> (r: Vec<u8>)
    ensures
        r@ == draw_spec(
            beacon_base(*header, *prev_beacon).data@,
            DrawTag::WinningPoStChallengeSeed.value_spec(),
            header.epoch,
            cbor_bytes_enc(header.miner_address@),
        ),
        r@.len() == 32,
{
    let base_entry = latest_beacon(header, prev_beacon);
    let entropy = cbor_encode_bytes(&header.miner_address);
    draw_randomness(&base_entry.data, DrawTag::WinningPoStChallengeSeed, header.epoch, &entropy)
}

/// Verifies the winning proof of storage, honouring the configured proof
/// mode.
pub fn verify_winning_post_proof(
    header: &BlockHeader,
    config: &Config,
    winning_post: &Lookup<()>,
) -> (r: Result<(), FilecoinConsensusError>)
    ensures
        r is Ok <==> winning_post_verdict(*header, *config, *winning_post) is None,
        r is Err ==> Some(r->Err_0@) == winning_post_verdict(*header, *config, *winning_post),
{
    match config.proof_mode {
        ProofMode::InsecureTest => {
            if header.winning_post_proof.len() == 0 {
                return Err(
                    FilecoinConsensusError::InsecurePostValidation(
                        "No winning PoSt proof provided".to_owned(),
                    ),
                );
            }
            let sentinel = insecure_sentinel_bytes();
            if crate::bytes::bytes_eq(&header.winning_post_proof[0].proof_bytes, &sentinel) {
                Ok(())
            } else {
                Err(
                    FilecoinConsensusError::InsecurePostValidation(
                        "Winning PoSt is invalid".to_owned(),
                    ),
                )
            }
        },
        ProofMode::Strict => {
            match miner_id(&header.miner_address) {
                None => Err(
                    FilecoinConsensusError::WinningPoStValidation(
                        "failed to get ID from miner address".to_owned(),
                    ),
                ),
                Some(_) => match winning_post {
                    Lookup::Failed(m) => Err(
                        FilecoinConsensusError::WinningPoStValidation(m.clone()),
                    ),
                    Lookup::Found(_) => Ok(()),
                },
            }
        },
    }
}

/// A verdict as the error list it contributes: nothing, or one error.
pub open spec fn opt_err_seq(o: Option<ConsensusErrorV>) -> Seq<ConsensusErrorV> {
    match o {
        None => Seq::empty(),
        Some(e) => seq![e],
    }
}

/// The errors of the five independent checks, all evaluated, in dispatch
/// order: miner validity, winner election, beacon, ticket election, winning
/// proof.
pub open spec fn fanout_errors(
    block: Block,
    base_tipset: Tipset,
    lookback_state: Seq<u8>,
    prev_beacon: BeaconEntry,
    work_addr: Seq<u8>,
    facts: StateFacts,
    config: Config,
) -> Seq<ConsensusErrorV> {
    opt_err_seq(miner_check_verdict(facts.power_load)) + opt_err_seq(
        winner_election_verdict(
            block.header,
            lookback_state,
            prev_beacon,
            work_addr,
            facts.power,
            facts.eligible,
            facts.slashed,
        ),
    ) + opt_err_seq(beacon_check_verdict(config.beacon, facts.beacon)) + opt_err_seq(
        ticket_election_verdict(
            block.header,
            base_tipset,
            prev_beacon,
            work_addr,
            config.smoke_height,
        ),
    ) + opt_err_seq(winning_post_verdict(block.header, config, facts.winning_post))
}

/// Every error a block is rejected with: the short-circuiting prelude's
/// single error, or the merged errors of the five independent checks.  An
/// empty sequence is acceptance.
pub open spec fn block_errors(
    block: Block,
    chain: ChainLookups,
    facts: StateFacts,
    config: Config,
) -> Seq<ConsensusErrorV> {
    if block.header.election_proof is None {
        seq![ConsensusErrorV::BlockWithoutElectionProof]
    } else if block.header.ticket is None {
        seq![ConsensusErrorV::BlockWithoutTicket]
    } else {
        match chain.base {
            Lookup::Failed(m) => seq![ConsensusErrorV::ChainStore(m@)],
            Lookup::Found(base) => {
                if block.header.timestamp != target_timestamp(
                    base.min_timestamp,
                    config.block_delay,
                    base.epoch,
                    block.header.epoch,
                ) {
                    seq![
                        ConsensusErrorV::UnequalBlockTimestamps(
                            block.header.timestamp,
                            target_timestamp(
                                base.min_timestamp,
                                config.block_delay,
                                base.epoch,
                                block.header.epoch,
                            ),
                        ),
                    ]
                } else {
                    match chain.lookback_state {
                        Lookup::Failed(m) => seq![ConsensusErrorV::ChainStore(m@)],
                        Lookup::Found(lookback_state) => match chain.prev_beacon {
                            Lookup::Failed(m) => seq![ConsensusErrorV::ChainStore(m@)],
                            Lookup::Found(prev_beacon) => match chain.work_addr {
                                Lookup::Failed(m) => seq![ConsensusErrorV::StateLookup(m@)],
                                Lookup::Found(work_addr) => fanout_errors(
                                    block,
                                    base,
                                    lookback_state@,
                                    prev_beacon,
                                    work_addr@,
                                    facts,
                                    config,
                                ),
                            },
                        },
                    }
                }
            },
        }
    }
}

/// Validates one block semantically: the synchronous prelude short-circuits
/// on its first error; the five independent checks then all run, and every
/// error they produce is returned, so a caller sees the complete set of
/// violations and never just the first one.
pub fn validate_block(block: &Block, chain: &ChainLookups, facts: &StateFacts, config: &Config) -> (r:
    Result<(), ConsensusErrors>)
    requires
        block.header.epoch > i64::MIN,
    ensures
        r is Ok <==> block_errors(*block, *chain, *facts, *config).len() == 0,
        r is Err ==> r->Err_0@ == block_errors(*block, *chain, *facts, *config),
{
    match block_sanity_checks(&block.header) {
        Err(e) => {
            return Err(ConsensusErrors::single(e));
        },
        Ok(()) => {},
    }
    let base_tipset = match &chain.base {
        Lookup::Failed(m) => {
            return Err(
                ConsensusErrors::single(FilecoinConsensusError::ChainStore(m.clone())),
            );
        },
        Lookup::Found(base) => base,
    };
    match block_timestamp_checks(&block.header, base_tipset, config.block_delay) {
        Err(e) => {
            return Err(ConsensusErrors::single(e));
        },
        Ok(()) => {},
    }
    let lookback_state = match &chain.lookback_state {
        Lookup::Failed(m) => {
            return Err(
                ConsensusErrors::single(FilecoinConsensusError::ChainStore(m.clone())),
            );
        },
        Lookup::Found(lb) => lb,
    };
    let prev_beacon = match &chain.prev_beacon {
        Lookup::Failed(m) => {
            return Err(
                ConsensusErrors::single(FilecoinConsensusError::ChainStore(m.clone())),
            );
        },
        Lookup::Found(pb) => pb,
    };
    let work_addr = match &chain.work_addr {
        Lookup::Failed(m) => {
            return Err(
                ConsensusErrors::single(FilecoinConsensusError::StateLookup(m.clone())),
            );
        },
        Lookup::Found(wa) => wa,
    };
    let ghost expected = fanout_errors(
        *block,
        *base_tipset,
        lookback_state@,
        *prev_beacon,
        work_addr@,
        *facts,
        *config,
    );
    let mut errs: Vec<FilecoinConsensusError> = Vec::new();
    if let Err(e) = validate_miner(&facts.power_load) {
        errs.push(e);
    }
    proof {
        assert(errors_view(errs@) =~= opt_err_seq(miner_check_verdict(facts.power_load)));
    }
    if let Err(e) = validate_winner_election(
        &block.header,
        lookback_state,
        prev_beacon,
        work_addr,
        &facts.power,
        &facts.eligible,
        &facts.slashed,
    ) {
        errs.push(e);
    }
    proof {
        assert(errors_view(errs@) =~= opt_err_seq(miner_check_verdict(facts.power_load))
            + opt_err_seq(
            winner_election_verdict(
                block.header,
                lookback_state@,
                *prev_beacon,
                work_addr@,
                facts.power,
                facts.eligible,
                facts.slashed,
            ),
        ));
    }
    if let Err(e) = validate_beacon(config.beacon, &facts.beacon) {
        errs.push(e);
    }
    if let Err(e) = validate_ticket_election(
        &block.header,
        base_tipset,
        prev_beacon,
        work_addr,
        config.smoke_height,
    ) {
        errs.push(e);
    }
    if let Err(e) = verify_winning_post_proof(&block.header, config, &facts.winning_post) {
        errs.push(e);
    }
    proof {
        assert(errors_view(errs@) =~= expected);
    }
    collect_errs(errs)
}

} // verus!
