//! Power-weighted win counting.  The election VRF digest is split into five
//! independent six-byte windows, one per block slot of a round; a window
//! wins when, read as a fraction of the 48-bit range, it falls below the
//! miner's share of the total quality-adjusted power.  The expected win
//! count of a proof is the number of winning windows: a deterministic,
//! power-weighted function of the digest and the two power values.

use vstd::prelude::*;

use crate::hashing::{blake2b256, blake2b256_of};
use crate::types::ElectionProof;

verus! {

/// Number of block slots sampled per round.
pub const WIN_SAMPLE_SLOTS: usize = 5;

/// The big-endian 48-bit value of the six bytes of `s` starting at `off`.
pub open spec fn be48_at(s: Seq<u8>, off: int) -> int {
    s[off] * 0x10000000000 + s[off + 1] * 0x100000000 + s[off + 2] * 0x1000000 + s[off + 3]
        * 0x10000 + s[off + 4] * 0x100 + s[off + 5]
}

/// Window `i` of the digest wins when its value, as a fraction of the 48-bit
/// range, is below the miner's share `p / q` of the total power.
pub open spec fn slot_wins(digest: Seq<u8>, i: int, p: u64, q: u64) -> bool {
    be48_at(digest, 6 * i) * q < p * 0x1000000000000
}

/// Number of winning windows among the first `n`.
pub open spec fn wins_upto(digest: Seq<u8>, p: u64, q: u64, n: int) -> int
    decreases n,
{
    if n <= 0 {
        0
    } else {
        wins_upto(digest, p, q, n - 1) + if slot_wins(digest, n - 1, p, q) {
            1int
        } else {
            0int
        }
    }
}

/// The expected win count for a digest and the miner's and total power.
pub open spec fn expected_wins(digest: Seq<u8>, p: u64, q: u64) -> int {
    wins_upto(digest, p, q, WIN_SAMPLE_SLOTS as int)
}

/// Recomputes the win count a proof is entitled to claim, from the proof's
/// VRF digest and the miner's and total quality-adjusted power.
pub fn expected_win_count(vrfproof: &Vec<u8>, miner_power: u64, total_power: u64) -> (r: i64)
    ensures
        r == expected_wins(blake2b256_of(vrfproof@), miner_power, total_power),
        0 <= r <= WIN_SAMPLE_SLOTS,
{
    let digest = blake2b256(vrfproof);
    let ghost d = digest@;
    let mut count: i64 = 0;
    let mut i: usize = 0;
    while i < WIN_SAMPLE_SLOTS
        invariant
            d == blake2b256_of(vrfproof@),
            digest@ == d,
            d.len() == 32,
            i <= WIN_SAMPLE_SLOTS,
            0 <= count <= i,
            count == wins_upto(d, miner_power, total_power, i as int),
        decreases WIN_SAMPLE_SLOTS - i,
    {
        let off = 6 * i;
        let c: u64 = (digest[off] as u64) * 0x10000000000 + (digest[off + 1] as u64) * 0x100000000
            + (digest[off + 2] as u64) * 0x1000000 + (digest[off + 3] as u64) * 0x10000 + (
        digest[off + 4] as u64) * 0x100 + (digest[off + 5] as u64);
        assert(c == be48_at(d, 6 * (i as int)));
        proof {
            assert((c as u128) * (total_power as u128) <= u128::MAX && (miner_power as u128)
                * 0x1000000000000u128 <= u128::MAX) by (nonlinear_arith)
                requires
                    c <= u64::MAX && total_power <= u64::MAX && miner_power <= u64::MAX,
            ;
        }
        let lhs: u128 = (c as u128) * (total_power as u128);
        let rhs: u128 = (miner_power as u128) * 0x1000000000000u128;
        if lhs < rhs {
            count = count + 1;
        }
        i = i + 1;
    }
    count
}

impl ElectionProof {
    /// The win count this proof is entitled to claim for the given miner and
    /// total quality-adjusted power.
    pub fn compute_win_count(&self, miner_power: u64, total_power: u64) -> (r: i64)
        ensures
            r == expected_wins(blake2b256_of(self.vrfproof@), miner_power, total_power),
            0 <= r <= WIN_SAMPLE_SLOTS,
    {
        expected_win_count(&self.vrfproof, miner_power, total_power)
    }
}

} // verus!
