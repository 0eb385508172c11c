//! Deterministic, domain-separated randomness: a draw hashes the domain tag,
//! the digest of the beacon value, the round number and the caller's entropy
//! into a fixed 32-byte string.  Identical inputs always yield identical
//! output; there is no state and no input besides the arguments.

use vstd::prelude::*;

use crate::bytes::{append_bytes, i64_to_u64_twos_complement, twos_complement_u64, u64_be_bytes, u64_to_be_bytes};
use crate::hashing::{blake2b256, blake2b256_of};

verus! {

/// A domain separation tag: the purpose of a randomness draw, so one beacon
/// value yields unrelated randomness for unrelated uses.
#[derive(Clone, Copy, Debug)]
pub enum DrawTag {
    /// Ticket production (tag value 1).
    TicketProduction,
    /// Election-proof production (tag value 2).
    ElectionProofProduction,
    /// Challenge seed of the winning proof of storage (tag value 3).
    WinningPoStChallengeSeed,
}

impl DrawTag {
    /// The signed integer value the protocol assigns the tag.
    pub open spec fn value_spec(self) -> i64 {
        match self {
            DrawTag::TicketProduction => 1,
            DrawTag::ElectionProofProduction => 2,
            DrawTag::WinningPoStChallengeSeed => 3,
        }
    }

    pub fn value(self) -> (r: i64)
        ensures
            r == self.value_spec(),
    {
        match self {
            DrawTag::TicketProduction => 1,
            DrawTag::ElectionProofProduction => 2,
            DrawTag::WinningPoStChallengeSeed => 3,
        }
    }
}

/// The bytes hashed by a draw: the tag as eight big-endian bytes, the digest
/// of the beacon value, the round as eight big-endian bytes, the entropy.
pub open spec fn draw_preimage(rbase: Seq<u8>, tag: i64, round: i64, entropy: Seq<u8>) -> Seq<u8> {
    u64_be_bytes(twos_complement_u64(tag)) + blake2b256_of(rbase) + u64_be_bytes(
        twos_complement_u64(round),
    ) + entropy
}

/// What a draw returns: the 32-byte digest of the draw preimage.
pub open spec fn draw_spec(rbase: Seq<u8>, tag: i64, round: i64, entropy: Seq<u8>) -> Seq<u8> {
    blake2b256_of(draw_preimage(rbase, tag, round, entropy))
}

/// Derives domain-separated randomness from a beacon value, a tag, a round
/// number and entropy bytes.  Pure and stateless: the result is a function
/// of the arguments alone, and is always 32 bytes long.
pub fn draw_randomness(rbase: &Vec<u8>, tag: DrawTag, round: i64, entropy: &Vec<u8>) -> (r: Vec<
    u8,
>)
    ensures
        r@ == draw_spec(rbase@, tag.value_spec(), round, entropy@),
        r@.len() == 32,
{
    let mut preimage = u64_to_be_bytes(i64_to_u64_twos_complement(tag.value()));
    let rbase_digest = blake2b256(rbase);
    append_bytes(&mut preimage, &rbase_digest);
    let mut round_bytes = u64_to_be_bytes(i64_to_u64_twos_complement(round));
    preimage.append(&mut round_bytes);
    append_bytes(&mut preimage, entropy);
    proof {
        assert(preimage@ =~= draw_preimage(rbase@, tag.value_spec(), round, entropy@));
    }
    blake2b256(&preimage)
}

/// Determinism of the deriver: any two results drawn from the same beacon
/// value, tag, round and entropy are the same bytes.
pub proof fn lemma_draw_deterministic(
    rbase: Seq<u8>,
    tag: i64,
    round: i64,
    entropy: Seq<u8>,
    r1: Seq<u8>,
    r2: Seq<u8>,
)
    requires
        r1 == draw_spec(rbase, tag, round, entropy),
        r2 == draw_spec(rbase, tag, round, entropy),
    ensures
        r1 == r2,
{
}

} // verus!
