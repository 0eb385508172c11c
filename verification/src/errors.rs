//! Two-tier error taxonomy: structural tipset errors, which short-circuit,
//! and per-block consensus errors, which are aggregated into a non-empty
//! list.  Each executable error type has a spec-level view over `Seq` so
//! contracts can state results exactly.

use vstd::prelude::*;

verus! {

/// Spec-level image of a structural tipset validation error.
pub enum TipsetErrorV {
    /// The tipset holds no blocks.
    NoBlocks,
    /// The tipset's epoch runs further ahead of the local clock than the
    /// drift tolerance allows.
    EpochTooLarge,
    /// The tipset's weight is below what its parent demands.
    InsufficientWeight,
    /// A block of the tipset was already recorded as bad, with the recorded
    /// reason.
    InvalidBlock(Seq<u8>, Seq<char>),
    /// A block's declared message root is not the root recomputed from its
    /// own message lists.
    InvalidRoots,
    /// The content-addressed accumulator over message identifiers failed.
    IpldAmt(Seq<char>),
    /// A store write failed while recomputing roots.
    Blockstore(Seq<char>),
    /// A message could not be encoded while recomputing roots.
    Encoding(Seq<char>),
}

/// A structural error: fails the whole tipset, with no aggregation.
#[derive(Debug)]
pub enum TipsetValidationError {
    NoBlocks,
    EpochTooLarge,
    InsufficientWeight,
    InvalidBlock(Vec<u8>, String),
    InvalidRoots,
    IpldAmt(String),
    Blockstore(String),
    Encoding(String),
}

impl View for TipsetValidationError {
    type V = TipsetErrorV;

    open spec fn view(&self) -> TipsetErrorV {
        match self {
            TipsetValidationError::NoBlocks => TipsetErrorV::NoBlocks,
            TipsetValidationError::EpochTooLarge => TipsetErrorV::EpochTooLarge,
            TipsetValidationError::InsufficientWeight => TipsetErrorV::InsufficientWeight,
            TipsetValidationError::InvalidBlock(c, s) => TipsetErrorV::InvalidBlock(c@, s@),
            TipsetValidationError::InvalidRoots => TipsetErrorV::InvalidRoots,
            TipsetValidationError::IpldAmt(s) => TipsetErrorV::IpldAmt(s@),
            TipsetValidationError::Blockstore(s) => TipsetErrorV::Blockstore(s@),
            TipsetValidationError::Encoding(s) => TipsetErrorV::Encoding(s@),
        }
    }
}

/// Spec-level image of a per-block consensus error.
pub enum ConsensusErrorV {
    /// The header carries no election proof.
    BlockWithoutElectionProof,
    /// The header carries no ticket.
    BlockWithoutTicket,
    /// A chain read (parent tipset, lookback tipset, latest beacon entry)
    /// could not be resolved.
    ChainStore(Seq<char>),
    /// The header's timestamp (first field) is not the exact round-derived
    /// timestamp (second field).
    UnequalBlockTimestamps(u64, u64),
    /// A state read (worker key, eligibility, slash status, power) failed.
    StateLookup(Seq<char>),
    /// The power actor's state could not be loaded.
    PowerActorUnavailable,
    /// The miner's power entry could not be loaded.
    MinerPowerUnavailable(Seq<char>),
    /// The power table holds no entry for the miner at the lookback state.
    MinerPowerNotAvailable,
    /// The election proof claims fewer than one win.
    NotClaimingWin,
    /// The miner is not eligible to mine at this height.
    MinerNotEligibleToMine,
    /// Randomness could not be derived.
    DrawingChainRandomness(Seq<char>),
    /// A proof failed VRF verification against the worker key.
    VrfValidation,
    /// The miner is slashed at the parent state.
    InvalidOrSlashedMiner,
    /// The declared win count (first field) differs from the recomputed one
    /// (second field).
    MinerWinClaimsIncorrect(i64, i64),
    /// The base tipset carries no ticket to fold into the draw entropy.
    TipsetWithoutTicket,
    /// The beacon schedule rejected the header's beacon entries.
    BeaconValidation(Seq<char>),
    /// The winning storage proof could not be verified.
    WinningPoStValidation(Seq<char>),
    /// In the insecure test mode, the proof is missing or does not match the
    /// accepted sentinel.
    InsecurePostValidation(Seq<char>),
}

/// A consensus error: a permanent verdict on one block, merged with the
/// verdicts of the other checks rather than short-circuiting them.
#[derive(Debug)]
pub enum FilecoinConsensusError {
    BlockWithoutElectionProof,
    BlockWithoutTicket,
    ChainStore(String),
    UnequalBlockTimestamps(u64, u64),
    StateLookup(String),
    PowerActorUnavailable,
    MinerPowerUnavailable(String),
    MinerPowerNotAvailable,
    NotClaimingWin,
    MinerNotEligibleToMine,
    DrawingChainRandomness(String),
    VrfValidation,
    InvalidOrSlashedMiner,
    MinerWinClaimsIncorrect(i64, i64),
    TipsetWithoutTicket,
    BeaconValidation(String),
    WinningPoStValidation(String),
    InsecurePostValidation(String),
}

impl View for FilecoinConsensusError {
    type V = ConsensusErrorV;

    open spec fn view(&self) -> ConsensusErrorV {
        match self {
            FilecoinConsensusError::BlockWithoutElectionProof => ConsensusErrorV::BlockWithoutElectionProof,
            FilecoinConsensusError::BlockWithoutTicket => ConsensusErrorV::BlockWithoutTicket,
            FilecoinConsensusError::ChainStore(s) => ConsensusErrorV::ChainStore(s@),
            FilecoinConsensusError::UnequalBlockTimestamps(a, b) => ConsensusErrorV::UnequalBlockTimestamps(*a, *b),
            FilecoinConsensusError::StateLookup(s) => ConsensusErrorV::StateLookup(s@),
            FilecoinConsensusError::PowerActorUnavailable => ConsensusErrorV::PowerActorUnavailable,
            FilecoinConsensusError::MinerPowerUnavailable(s) => ConsensusErrorV::MinerPowerUnavailable(s@),
            FilecoinConsensusError::MinerPowerNotAvailable => ConsensusErrorV::MinerPowerNotAvailable,
            FilecoinConsensusError::NotClaimingWin => ConsensusErrorV::NotClaimingWin,
            FilecoinConsensusError::MinerNotEligibleToMine => ConsensusErrorV::MinerNotEligibleToMine,
            FilecoinConsensusError::DrawingChainRandomness(s) => ConsensusErrorV::DrawingChainRandomness(s@),
            FilecoinConsensusError::VrfValidation => ConsensusErrorV::VrfValidation,
            FilecoinConsensusError::InvalidOrSlashedMiner => ConsensusErrorV::InvalidOrSlashedMiner,
            FilecoinConsensusError::MinerWinClaimsIncorrect(a, b) => ConsensusErrorV::MinerWinClaimsIncorrect(*a, *b),
            FilecoinConsensusError::TipsetWithoutTicket => ConsensusErrorV::TipsetWithoutTicket,
            FilecoinConsensusError::BeaconValidation(s) => ConsensusErrorV::BeaconValidation(s@),
            FilecoinConsensusError::WinningPoStValidation(s) => ConsensusErrorV::WinningPoStValidation(s@),
            FilecoinConsensusError::InsecurePostValidation(s) => ConsensusErrorV::InsecurePostValidation(s@),
        }
    }
}

/// The view of a list of consensus errors, in order.
pub open spec fn errors_view(s: Seq<FilecoinConsensusError>) -> Seq<ConsensusErrorV> {
    Seq::new(s.len(), |i: int| s[i]@)
}

/// An aggregate of consensus errors that holds at least one by construction:
/// a first error plus the remaining ones, in the order they were produced.
#[derive(Debug)]
pub struct ConsensusErrors {
    pub first: FilecoinConsensusError,
    pub rest: Vec<FilecoinConsensusError>,
}

impl View for ConsensusErrors {
    type V = Seq<ConsensusErrorV>;

    open spec fn view(&self) -> Seq<ConsensusErrorV> {
        seq![self.first@] + errors_view(self.rest@)
    }
}

impl ConsensusErrors {
    /// A one-element aggregate.
    pub fn single(e: FilecoinConsensusError) -> (r: ConsensusErrors)
        ensures
            r@ =~= seq![e@],
    {
        ConsensusErrors { first: e, rest: Vec::new() }
    }

    /// Appends one more error to the aggregate.
    pub fn push(&mut self, e: FilecoinConsensusError)
        ensures
            final(self)@ =~= old(self)@ + seq![e@],
    {
        self.rest.push(e);
        proof {
            assert(errors_view(self.rest@) =~= errors_view(old(self).rest@) + seq![e@]);
        }
    }

    /// The number of errors held; always at least one.
    pub fn len(&self) -> (r: usize)
        ensures
            r as int == self@.len() || r == usize::MAX,
            r >= 1,
    {
        self.rest.len().saturating_add(1)
    }
}

/// Merges per-check verdicts into one result: no error means acceptance,
/// otherwise every produced error is returned, in order.
pub fn collect_errs(errs: Vec<FilecoinConsensusError>) -> (r: Result<(), ConsensusErrors>)
    ensures
        r is Ok <==> errs@.len() == 0,
        r is Err ==> r->Err_0@ =~= errors_view(errs@),
{
    let mut rest = errs;
    if rest.len() == 0 {
        return Ok(());
    }
    let first = rest.remove(0);
    let agg = ConsensusErrors { first, rest };
    proof {
        assert(agg@ =~= errors_view(errs@));
    }
    Err(agg)
}

} // verus!
