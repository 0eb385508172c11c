//! Tests of the per-block consensus validator: the short-circuiting prelude,
//! the five independent checks, and the error aggregation.  Valid VRF proofs
//! are produced with a real BLS key, so the tests exercise the actual
//! signature verification.

use bls_signatures::Serialize;
use fil_cns::bytes::cbor_encode_bytes;
use fil_cns::consensus::{
    network_version, validate_block, validate_winner_election, verify_winning_post_proof,
    winning_post_challenge_seed, BeaconPolicy, ChainLookups, Config, Lookup, MinerPowerLoad,
    PowerEntry, PowerTable, ProofMode, StateFacts, UpgradeInfo,
};
use fil_cns::errors::{ConsensusErrors, FilecoinConsensusError};
use fil_cns::randomness::{draw_randomness, DrawTag};
use fil_cns::types::{BeaconEntry, Block, BlockHeader, ElectionProof, Ticket, Tipset};
use fil_cns::vrf::verify_election_post_vrf;
use fil_cns::win_count::expected_win_count;

fn bls_key() -> bls_signatures::PrivateKey {
    bls_signatures::PrivateKey::new([7u8; 32])
}

fn work_address(key: &bls_signatures::PrivateKey) -> Vec<u8> {
    let mut addr = vec![3u8];
    addr.extend(key.public_key().as_bytes());
    addr
}

const EPOCH: i64 = 10;
const BASE_EPOCH: i64 = 9;
const BASE_MIN_TIMESTAMP: u64 = 1000;
const BLOCK_DELAY: u64 = 30;
const MINER_POWER: u64 = 100;
const TOTAL_POWER: u64 = 100;

fn base_tipset() -> Tipset {
    Tipset {
        epoch: BASE_EPOCH,
        min_timestamp: BASE_MIN_TIMESTAMP,
        min_ticket: Some(Ticket {
            vrfproof: b"base ticket proof".to_vec(),
        }),
        parent_state: b"parent-root".to_vec(),
    }
}

fn prev_beacon() -> BeaconEntry {
    BeaconEntry {
        round: 7,
        data: b"beacon seven".to_vec(),
    }
}

fn config() -> Config {
    Config {
        beacon: BeaconPolicy::Validate,
        proof_mode: ProofMode::Strict,
        smoke_height: 100,
        block_delay: BLOCK_DELAY,
    }
}

/// A block by `miner_address` whose election and ticket proofs are real BLS
/// signatures over the canonical draws, claiming exactly the recomputed win
/// count for the configured power.
fn valid_block(miner_address: Vec<u8>) -> Block {
    let key = bls_key();
    let entropy = cbor_encode_bytes(&miner_address);
    let beacon = prev_beacon();
    let election_base = draw_randomness(
        &beacon.data,
        DrawTag::ElectionProofProduction,
        EPOCH,
        &entropy,
    );
    let election_sig = key.sign(&election_base).as_bytes();
    let win_count = expected_win_count(&election_sig, MINER_POWER, TOTAL_POWER);
    // No entropy augmentation: the epoch does not exceed the smoke height.
    let ticket_base = draw_randomness(&beacon.data, DrawTag::TicketProduction, EPOCH - 1, &entropy);
    let ticket_sig = key.sign(&ticket_base).as_bytes();
    Block {
        header: BlockHeader {
            cid: vec![0x01, 0x55, 0x01],
            miner_address,
            epoch: EPOCH,
            timestamp: BASE_MIN_TIMESTAMP + BLOCK_DELAY,
            parents: vec![],
            messages: vec![0; 38],
            election_proof: Some(ElectionProof {
                win_count,
                vrfproof: election_sig,
            }),
            ticket: Some(Ticket {
                vrfproof: ticket_sig,
            }),
            beacon_entries: vec![],
            winning_post_proof: vec![],
        },
        bls_messages: vec![],
        secp_messages: vec![],
    }
}

fn chain_lookups() -> ChainLookups {
    ChainLookups {
        base: Lookup::Found(base_tipset()),
        lookback_state: Lookup::Found(b"lookback-root".to_vec()),
        prev_beacon: Lookup::Found(prev_beacon()),
        work_addr: Lookup::Found(work_address(&bls_key())),
    }
}

fn power_table() -> PowerTable {
    PowerTable {
        entries: vec![PowerEntry {
            state_root: b"lookback-root".to_vec(),
            miner: vec![0, 42],
            miner_power: MINER_POWER,
            total_power: TOTAL_POWER,
        }],
    }
}

fn state_facts() -> StateFacts {
    StateFacts {
        power_load: MinerPowerLoad::Loaded,
        eligible: Lookup::Found(true),
        slashed: Lookup::Found(false),
        power: Lookup::Found(power_table()),
        beacon: Lookup::Found(()),
        winning_post: Lookup::Found(()),
    }
}

fn errors_of(r: Result<(), ConsensusErrors>) -> Vec<FilecoinConsensusError> {
    match r {
        Ok(()) => vec![],
        Err(errs) => {
            let mut all = vec![errs.first];
            all.extend(errs.rest);
            all
        }
    }
}

#[test]
fn valid_block_accepted() {
    let block = valid_block(vec![0, 42]);
    let r = validate_block(&block, &chain_lookups(), &state_facts(), &config());
    assert!(r.is_ok());
}

#[test]
fn missing_election_proof_rejected() {
    let mut block = valid_block(vec![0, 42]);
    block.header.election_proof = None;
    let errs = errors_of(validate_block(&block, &chain_lookups(), &state_facts(), &config()));
    assert_eq!(errs.len(), 1);
    assert!(matches!(
        errs[0],
        FilecoinConsensusError::BlockWithoutElectionProof
    ));
}

#[test]
fn missing_ticket_rejected() {
    let mut block = valid_block(vec![0, 42]);
    block.header.ticket = None;
    let errs = errors_of(validate_block(&block, &chain_lookups(), &state_facts(), &config()));
    assert_eq!(errs.len(), 1);
    assert!(matches!(errs[0], FilecoinConsensusError::BlockWithoutTicket));
}

#[test]
fn unresolvable_parent_is_a_chain_store_error() {
    let block = valid_block(vec![0, 42]);
    let mut chain = chain_lookups();
    chain.base = Lookup::Failed("tipset not found".to_string());
    let errs = errors_of(validate_block(&block, &chain, &state_facts(), &config()));
    assert_eq!(errs.len(), 1);
    match &errs[0] {
        FilecoinConsensusError::ChainStore(m) => assert_eq!(m, "tipset not found"),
        other => panic!("expected ChainStore, got {:?}", other),
    }
}

#[test]
fn timestamp_rule_exact() {
    // One round over the parent: only T + D is accepted; T + 0*D and
    // T + 2*D are rejected, naming actual and expected timestamps.
    let good = valid_block(vec![0, 42]);
    assert!(validate_block(&good, &chain_lookups(), &state_facts(), &config()).is_ok());
    for bad_ts in [
        BASE_MIN_TIMESTAMP,
        BASE_MIN_TIMESTAMP + 2 * BLOCK_DELAY,
    ] {
        let mut block = valid_block(vec![0, 42]);
        block.header.timestamp = bad_ts;
        let errs = errors_of(validate_block(&block, &chain_lookups(), &state_facts(), &config()));
        assert_eq!(errs.len(), 1);
        match errs[0] {
            FilecoinConsensusError::UnequalBlockTimestamps(actual, expected) => {
                assert_eq!(actual, bad_ts);
                assert_eq!(expected, BASE_MIN_TIMESTAMP + BLOCK_DELAY);
            }
            ref other => panic!("expected UnequalBlockTimestamps, got {:?}", other),
        }
    }
}

#[test]
fn wrong_win_count_rejected_with_recomputation() {
    let mut block = valid_block(vec![0, 42]);
    let declared = match &mut block.header.election_proof {
        Some(ep) => {
            ep.win_count += 1;
            ep.win_count
        }
        None => unreachable!(),
    };
    let errs = errors_of(validate_block(&block, &chain_lookups(), &state_facts(), &config()));
    assert_eq!(errs.len(), 1);
    match errs[0] {
        FilecoinConsensusError::MinerWinClaimsIncorrect(got, expected) => {
            assert_eq!(got, declared);
            assert_eq!(expected, declared - 1);
        }
        ref other => panic!("expected MinerWinClaimsIncorrect, got {:?}", other),
    }
}

#[test]
fn zero_win_count_not_claiming_win() {
    let mut block = valid_block(vec![0, 42]);
    if let Some(ep) = &mut block.header.election_proof {
        ep.win_count = 0;
    }
    let errs = errors_of(validate_block(&block, &chain_lookups(), &state_facts(), &config()));
    assert_eq!(errs.len(), 1);
    assert!(matches!(errs[0], FilecoinConsensusError::NotClaimingWin));
}

#[test]
fn ineligible_miner_rejected() {
    let block = valid_block(vec![0, 42]);
    let mut facts = state_facts();
    facts.eligible = Lookup::Found(false);
    let errs = errors_of(validate_block(&block, &chain_lookups(), &facts, &config()));
    assert_eq!(errs.len(), 1);
    assert!(matches!(
        errs[0],
        FilecoinConsensusError::MinerNotEligibleToMine
    ));
}

#[test]
fn eligibility_lookup_failure_is_state_lookup() {
    let block = valid_block(vec![0, 42]);
    let mut facts = state_facts();
    facts.eligible = Lookup::Failed("state unavailable".to_string());
    let errs = errors_of(validate_block(&block, &chain_lookups(), &facts, &config()));
    assert_eq!(errs.len(), 1);
    match &errs[0] {
        FilecoinConsensusError::StateLookup(m) => assert_eq!(m, "state unavailable"),
        other => panic!("expected StateLookup, got {:?}", other),
    }
}

#[test]
fn slashed_miner_rejected() {
    let block = valid_block(vec![0, 42]);
    let mut facts = state_facts();
    facts.slashed = Lookup::Found(true);
    let errs = errors_of(validate_block(&block, &chain_lookups(), &facts, &config()));
    assert_eq!(errs.len(), 1);
    assert!(matches!(
        errs[0],
        FilecoinConsensusError::InvalidOrSlashedMiner
    ));
}

#[test]
fn missing_power_entry_rejected() {
    let block = valid_block(vec![0, 42]);
    let mut facts = state_facts();
    facts.power = Lookup::Found(PowerTable { entries: vec![] });
    let errs = errors_of(validate_block(&block, &chain_lookups(), &facts, &config()));
    assert_eq!(errs.len(), 1);
    assert!(matches!(
        errs[0],
        FilecoinConsensusError::MinerPowerNotAvailable
    ));
}

#[test]
fn power_load_failures_reported() {
    let block = valid_block(vec![0, 42]);
    let mut facts = state_facts();
    facts.power_load = MinerPowerLoad::PowerActorUnavailable;
    let errs = errors_of(validate_block(&block, &chain_lookups(), &facts, &config()));
    assert_eq!(errs.len(), 1);
    assert!(matches!(
        errs[0],
        FilecoinConsensusError::PowerActorUnavailable
    ));
    let mut facts = state_facts();
    facts.power_load = MinerPowerLoad::MinerPowerUnavailable("claim missing".to_string());
    let errs = errors_of(validate_block(&block, &chain_lookups(), &facts, &config()));
    assert_eq!(errs.len(), 1);
    match &errs[0] {
        FilecoinConsensusError::MinerPowerUnavailable(m) => assert_eq!(m, "claim missing"),
        other => panic!("expected MinerPowerUnavailable, got {:?}", other),
    }
}

#[test]
fn lookback_state_decides_power_not_parent_state() {
    // The two snapshots disagree: at the lookback root the miner holds the
    // configured power, at the parent root it holds none.  Validation
    // accepts the win count computed for the lookback values, so the read
    // came from the lookback root.
    let block = valid_block(vec![0, 42]);
    let table = PowerTable {
        entries: vec![
            PowerEntry {
                state_root: b"parent-root".to_vec(),
                miner: vec![0, 42],
                miner_power: 0,
                total_power: TOTAL_POWER,
            },
            PowerEntry {
                state_root: b"lookback-root".to_vec(),
                miner: vec![0, 42],
                miner_power: MINER_POWER,
                total_power: TOTAL_POWER,
            },
        ],
    };
    assert_eq!(
        table.get_power(&b"parent-root".to_vec(), &vec![0, 42]),
        Some((0, TOTAL_POWER))
    );
    let mut facts = state_facts();
    facts.power = Lookup::Found(table);
    assert!(validate_block(&block, &chain_lookups(), &facts, &config()).is_ok());
}

#[test]
fn garbage_ticket_fails_vrf() {
    let mut block = valid_block(vec![0, 42]);
    if let Some(t) = &mut block.header.ticket {
        t.vrfproof = vec![1, 2, 3];
    }
    let errs = errors_of(validate_block(&block, &chain_lookups(), &state_facts(), &config()));
    assert_eq!(errs.len(), 1);
    assert!(matches!(errs[0], FilecoinConsensusError::VrfValidation));
}

#[test]
fn fanout_reports_all_failures_not_the_first() {
    // The ticket VRF and the winning proof both fail; the aggregate names
    // both errors.
    let mut block = valid_block(vec![0, 42]);
    if let Some(t) = &mut block.header.ticket {
        t.vrfproof = vec![1, 2, 3];
    }
    let mut facts = state_facts();
    facts.winning_post = Lookup::Failed("proof does not verify".to_string());
    let errs = errors_of(validate_block(&block, &chain_lookups(), &facts, &config()));
    assert_eq!(errs.len(), 2);
    assert!(matches!(errs[0], FilecoinConsensusError::VrfValidation));
    match &errs[1] {
        FilecoinConsensusError::WinningPoStValidation(m) => {
            assert_eq!(m, "proof does not verify")
        }
        other => panic!("expected WinningPoStValidation, got {:?}", other),
    }
}

#[test]
fn ticket_entropy_augmented_past_smoke_height() {
    // With the smoke height below the epoch, the base tipset's minimum
    // ticket is appended to the draw entropy; a proof signed over the
    // augmented draw passes, and a base tipset without a ticket fails.
    let key = bls_key();
    let miner_address = vec![0u8, 42];
    let mut entropy = cbor_encode_bytes(&miner_address);
    entropy.extend(b"base ticket proof".to_vec());
    let ticket_base = draw_randomness(
        &prev_beacon().data,
        DrawTag::TicketProduction,
        EPOCH - 1,
        &entropy,
    );
    let mut block = valid_block(miner_address);
    block.header.ticket = Some(Ticket {
        vrfproof: key.sign(&ticket_base).as_bytes(),
    });
    let mut cfg = config();
    cfg.smoke_height = EPOCH - 1;
    assert!(validate_block(&block, &chain_lookups(), &state_facts(), &cfg).is_ok());

    let mut chain = chain_lookups();
    chain.base = Lookup::Found(Tipset {
        min_ticket: None,
        ..base_tipset()
    });
    let errs = errors_of(validate_block(&block, &chain, &state_facts(), &cfg));
    assert_eq!(errs.len(), 1);
    assert!(matches!(
        errs[0],
        FilecoinConsensusError::TipsetWithoutTicket
    ));
}

#[test]
fn smoke_height_comparison_is_strict() {
    // At exactly the smoke height the entropy is not augmented, so the
    // unaugmented proof of the valid block still passes.
    let block = valid_block(vec![0, 42]);
    let mut cfg = config();
    cfg.smoke_height = EPOCH;
    assert!(validate_block(&block, &chain_lookups(), &state_facts(), &cfg).is_ok());
}

#[test]
fn beacon_verdict_honoured_and_skippable() {
    let block = valid_block(vec![0, 42]);
    let mut facts = state_facts();
    facts.beacon = Lookup::Failed("entry 8 does not extend entry 7".to_string());
    let errs = errors_of(validate_block(&block, &chain_lookups(), &facts, &config()));
    assert_eq!(errs.len(), 1);
    match &errs[0] {
        FilecoinConsensusError::BeaconValidation(m) => {
            assert_eq!(m, "entry 8 does not extend entry 7")
        }
        other => panic!("expected BeaconValidation, got {:?}", other),
    }
    let mut cfg = config();
    cfg.beacon = BeaconPolicy::Skip;
    assert!(validate_block(&block, &chain_lookups(), &facts, &cfg).is_ok());
}

#[test]
fn own_beacon_entry_preferred_over_previous() {
    // A block declaring its own beacon entries draws from its latest entry,
    // so proofs signed over the previous tipset's entry no longer verify.
    let mut block = valid_block(vec![0, 42]);
    block.header.beacon_entries = vec![BeaconEntry {
        round: 8,
        data: b"beacon eight".to_vec(),
    }];
    let errs = errors_of(validate_block(&block, &chain_lookups(), &state_facts(), &config()));
    assert!(!errs.is_empty());
    assert!(errs
        .iter()
        .any(|e| matches!(e, FilecoinConsensusError::VrfValidation)));
}

#[test]
fn strict_mode_needs_identifier_address() {
    // A miner address that is no identifier address fails the winning-proof
    // check even when every signature verifies.
    let miner = work_address(&bls_key());
    let block = valid_block(miner.clone());
    let mut facts = state_facts();
    facts.power = Lookup::Found(PowerTable {
        entries: vec![PowerEntry {
            state_root: b"lookback-root".to_vec(),
            miner,
            miner_power: MINER_POWER,
            total_power: TOTAL_POWER,
        }],
    });
    let errs = errors_of(validate_block(&block, &chain_lookups(), &facts, &config()));
    assert_eq!(errs.len(), 1);
    match &errs[0] {
        FilecoinConsensusError::WinningPoStValidation(m) => {
            assert_eq!(m, "failed to get ID from miner address")
        }
        other => panic!("expected WinningPoStValidation, got {:?}", other),
    }
}

#[test]
fn insecure_mode_accepts_only_the_sentinel() {
    let cfg = Config {
        proof_mode: ProofMode::InsecureTest,
        ..config()
    };
    let mut block = valid_block(vec![0, 42]);
    let errs = errors_of(validate_block(&block, &chain_lookups(), &state_facts(), &cfg));
    assert_eq!(errs.len(), 1);
    match &errs[0] {
        FilecoinConsensusError::InsecurePostValidation(m) => {
            assert_eq!(m, "No winning PoSt proof provided")
        }
        other => panic!("expected InsecurePostValidation, got {:?}", other),
    }
    block.header.winning_post_proof = vec![fil_cns::sector::PoStProof::new(
        fil_cns::sector::RegisteredPoStProof::from_code(0),
        b"not the sentinel".to_vec(),
    )];
    let errs = errors_of(validate_block(&block, &chain_lookups(), &state_facts(), &cfg));
    assert_eq!(errs.len(), 1);
    match &errs[0] {
        FilecoinConsensusError::InsecurePostValidation(m) => {
            assert_eq!(m, "Winning PoSt is invalid")
        }
        other => panic!("expected InsecurePostValidation, got {:?}", other),
    }
    block.header.winning_post_proof = vec![fil_cns::sector::PoStProof::new(
        fil_cns::sector::RegisteredPoStProof::from_code(0),
        b"valid_proof".to_vec(),
    )];
    assert!(validate_block(&block, &chain_lookups(), &state_facts(), &cfg).is_ok());
}

#[test]
fn vrf_requires_bls_worker_address() {
    // An identifier address cannot authorize VRF proofs.
    let r = verify_election_post_vrf(&vec![0, 42], &b"rand".to_vec(), &b"sig".to_vec());
    assert!(matches!(r, Err(FilecoinConsensusError::VrfValidation)));
}

#[test]
fn vrf_accepts_real_signature_and_rejects_wrong_message() {
    let key = bls_key();
    let addr = work_address(&key);
    let msg = b"challenge".to_vec();
    let sig = key.sign(&msg).as_bytes();
    assert!(verify_election_post_vrf(&addr, &msg, &sig).is_ok());
    let other = b"challenge!".to_vec();
    assert!(matches!(
        verify_election_post_vrf(&addr, &other, &sig),
        Err(FilecoinConsensusError::VrfValidation)
    ));
}

#[test]
fn winner_election_callable_alone() {
    let block = valid_block(vec![0, 42]);
    let r = validate_winner_election(
        &block.header,
        &b"lookback-root".to_vec(),
        &prev_beacon(),
        &work_address(&bls_key()),
        &Lookup::Found(power_table()),
        &Lookup::Found(true),
        &Lookup::Found(false),
    );
    assert!(r.is_ok());
}

#[test]
fn strict_post_verdict_passes_through() {
    let block = valid_block(vec![0, 42]);
    let r = verify_winning_post_proof(&block.header, &config(), &Lookup::Found(()));
    assert!(r.is_ok());
    let r = verify_winning_post_proof(
        &block.header,
        &config(),
        &Lookup::Failed("bad proof".to_string()),
    );
    match r {
        Err(FilecoinConsensusError::WinningPoStValidation(m)) => assert_eq!(m, "bad proof"),
        other => panic!("expected WinningPoStValidation, got {:?}", other),
    }
}

#[test]
fn network_version_follows_upgrade_schedule() {
    let schedule = vec![
        UpgradeInfo { height: 0, version: 1 },
        UpgradeInfo { height: 50, version: 7 },
        UpgradeInfo { height: 90, version: 9 },
    ];
    assert_eq!(network_version(&schedule, -1), 0);
    assert_eq!(network_version(&schedule, 0), 1);
    assert_eq!(network_version(&schedule, 49), 1);
    assert_eq!(network_version(&schedule, 50), 7);
    assert_eq!(network_version(&schedule, 89), 7);
    assert_eq!(network_version(&schedule, 1000), 9);
    assert_eq!(network_version(&Vec::new(), 5), 0);
}

#[test]
fn challenge_seed_is_the_canonical_draw() {
    // The seed handed to the proof verifier is the domain-separated draw
    // over the base beacon entry at the block's epoch.
    let block = valid_block(vec![0, 42]);
    let seed = winning_post_challenge_seed(&block.header, &prev_beacon());
    let expected = draw_randomness(
        &prev_beacon().data,
        DrawTag::WinningPoStChallengeSeed,
        EPOCH,
        &cbor_encode_bytes(&vec![0, 42]),
    );
    assert_eq!(seed, expected);
    assert_eq!(seed.len(), 32);
}
