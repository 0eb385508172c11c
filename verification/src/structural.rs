//! Structural tipset validation: cheap, synchronous, short-circuiting checks
//! run on a candidate tipset before any per-block consensus work — the
//! tipset holds blocks, its epoch does not outrun the local clock beyond the
//! drift tolerance, every block's declared message root is the root
//! recomputed from its own messages, and no block was already proven bad.

use vstd::prelude::*;

use crate::bad_block::{cache_reason, BadBlockCache, BadBlockEntry};
use crate::bytes::{bytes_seq_view, clone_bytes, twos_complement_u64};
use crate::errors::{TipsetErrorV, TipsetValidationError};
use crate::hashing::{cid_of_dag_cbor, dag_cbor_cid, is_dag_cbor_cid};
use crate::message_root::{amt_root, bls_message_cids, cbor_encode_cid, meta_cbor, message_root, secp_message_cids};
use crate::types::{messages_view, signed_messages_view, Block, FullTipset, Message, SignedMessage, Tipset};
use crate::MAX_HEIGHT_DRIFT;

verus! {

/// Highest epoch the local clock admits: elapsed seconds since genesis
/// (clamped at zero if the clock is behind genesis), divided by the block
/// delay, plus the drift tolerance.
pub open spec fn max_allowed_epoch(now: u64, genesis_min_timestamp: u64, block_delay: u64) -> int {
    (if now >= genesis_min_timestamp {
        (now - genesis_min_timestamp) as int
    } else {
        0
    }) / (block_delay as int) + MAX_HEIGHT_DRIFT
}

/// Whether an epoch, read as its unsigned 64-bit image, exceeds the highest
/// admitted epoch.
pub open spec fn epoch_too_large(
    epoch: i64,
    now: u64,
    genesis_min_timestamp: u64,
    block_delay: u64,
) -> bool {
    twos_complement_u64(epoch) > max_allowed_epoch(now, genesis_min_timestamp, block_delay)
}

/// The declared message root of a block equals the root recomputed from its
/// own message lists.
pub open spec fn roots_match(block: Block) -> bool {
    block.header.messages@ == message_root(
        messages_view(block.bls_messages@),
        signed_messages_view(block.secp_messages@),
    )
}

/// The first failure among the per-block structural checks from position `i`
/// on: a message-root mismatch, else a bad-block hit with the recorded
/// reason, in block order.
pub open spec fn blocks_verdict(blocks: Seq<Block>, cache: Seq<BadBlockEntry>, i: int) -> Option<
    TipsetErrorV,
>
    decreases blocks.len() - i,
{
    if i < 0 || i >= blocks.len() {
        None
    } else if !roots_match(blocks[i]) {
        Some(TipsetErrorV::InvalidRoots)
    } else {
        match cache_reason(cache, blocks[i].header.cid@) {
            Some(reason) => Some(TipsetErrorV::InvalidBlock(blocks[i].header.cid@, reason)),
            None => blocks_verdict(blocks, cache, i + 1),
        }
    }
}

/// The structural verdict on a tipset: `NoBlocks` for an empty tipset, then
/// the epoch-drift bound, then the per-block checks in order; `None` is
/// acceptance.
pub open spec fn structural_verdict(
    tipset: FullTipset,
    cache: Seq<BadBlockEntry>,
    genesis_min_timestamp: u64,
    block_delay: u64,
    now: u64,
) -> Option<TipsetErrorV> {
    if tipset.blocks@.len() == 0 {
        Some(TipsetErrorV::NoBlocks)
    } else if epoch_too_large(tipset.epoch_spec(), now, genesis_min_timestamp, block_delay) {
        Some(TipsetErrorV::EpochTooLarge)
    } else {
        blocks_verdict(tipset.blocks@, cache, 0)
    }
}

/// Structural validator over one candidate tipset.
pub struct TipsetValidator<'a>(pub &'a FullTipset);

impl<'a> TipsetValidator<'a> {
    /// Runs the structural checks in order and returns the first failure:
    /// emptiness, epoch drift, then per block the message-root equality and
    /// the bad-block lookup.  For all tipsets with zero blocks the result is
    /// `NoBlocks`; past the structural checks the verdict of the first
    /// failing block is returned verbatim.
    pub fn validate(
        &self,
        bad_block_cache: &BadBlockCache,
        genesis_tipset: &Tipset,
        block_delay: u64,
        now: u64,
    ) -> (r: Result<(), TipsetValidationError>)
        requires
            block_delay > 0,
        ensures
            r is Ok <==> structural_verdict(
                *self.0,
                bad_block_cache.entries@,
                genesis_tipset.min_timestamp,
                block_delay,
                now,
            ) is None,
            r is Err ==> Some(r->Err_0@) == structural_verdict(
                *self.0,
                bad_block_cache.entries@,
                genesis_tipset.min_timestamp,
                block_delay,
                now,
            ),
            self.0.blocks@.len() == 0 ==> r is Err && r->Err_0@ == TipsetErrorV::NoBlocks,
            self.0.blocks@.len() > 0 && epoch_too_large(
                self.0.epoch_spec(),
                now,
                genesis_tipset.min_timestamp,
                block_delay,
            ) ==> r is Err && r->Err_0@ == TipsetErrorV::EpochTooLarge,
    {
        if self.0.blocks.len() == 0 {
            return Err(TipsetValidationError::NoBlocks);
        }
        match self.validate_epoch(genesis_tipset, block_delay, now) {
            Err(e) => {
                return Err(e);
            },
            Ok(()) => {},
        }
        let ghost verdict = structural_verdict(
            *self.0,
            bad_block_cache.entries@,
            genesis_tipset.min_timestamp,
            block_delay,
            now,
        );
        let n = self.0.blocks.len();
        let mut i: usize = 0;
        while i < n
            invariant
                n == self.0.blocks@.len(),
                n > 0,
                i <= n,
                verdict == structural_verdict(
                    *self.0,
                    bad_block_cache.entries@,
                    genesis_tipset.min_timestamp,
                    block_delay,
                    now,
                ),
                verdict == blocks_verdict(self.0.blocks@, bad_block_cache.entries@, i as int),
            decreases n - i,
        {
            let block = &self.0.blocks[i];
            match self.validate_msg_root(block) {
                Err(e) => {
                    proof {
                        assert(verdict == Some(TipsetErrorV::InvalidRoots));
                    }
                    return Err(e);
                },
                Ok(()) => {},
            }
            match bad_block_cache.peek(&block.header.cid) {
                Some(reason) => {
                    proof {
                        assert(verdict == Some(
                            TipsetErrorV::InvalidBlock(
                                self.0.blocks@[i as int].header.cid@,
                                reason@,
                            ),
                        ));
                    }
                    let cid = clone_bytes(&block.header.cid);
                    return Err(TipsetValidationError::InvalidBlock(cid, reason));
                },
                None => {},
            }
            i = i + 1;
        }
        Ok(())
    }

    /// Enforces the epoch-drift bound: the tipset's epoch, read as its
    /// unsigned image, may not exceed the elapsed rounds since genesis plus
    /// the drift tolerance; at exactly the bound the tipset is accepted.
    pub fn validate_epoch(&self, genesis_tipset: &Tipset, block_delay: u64, now: u64) -> (r:
        Result<(), TipsetValidationError>)
        requires
            self.0.blocks@.len() > 0,
            block_delay > 0,
        ensures
            r is Ok <==> !epoch_too_large(
                self.0.epoch_spec(),
                now,
                genesis_tipset.min_timestamp,
                block_delay,
            ),
            r is Err ==> r->Err_0@ == TipsetErrorV::EpochTooLarge,
    {
        let elapsed: u64 = if now >= genesis_tipset.min_timestamp {
            now - genesis_tipset.min_timestamp
        } else {
            0
        };
        let quotient: u64 = elapsed / block_delay;
        let epoch_image: u64 = crate::bytes::i64_to_u64_twos_complement(self.0.epoch());
        match quotient.checked_add(MAX_HEIGHT_DRIFT) {
            Some(max_epoch) => {
                if epoch_image > max_epoch {
                    Err(TipsetValidationError::EpochTooLarge)
                } else {
                    Ok(())
                }
            },
            None => Ok(()),
        }
    }

    /// Recomputes the block's message root and holds it against the header's
    /// declared root; a mismatch is `InvalidRoots`.
    pub fn validate_msg_root(&self, block: &Block) -> (r: Result<(), TipsetValidationError>)
        ensures
            r is Ok <==> roots_match(*block),
            r is Err ==> r->Err_0@ == TipsetErrorV::InvalidRoots,
    {
        let root = Self::compute_msg_root(&block.bls_messages, &block.secp_messages);
        if crate::bytes::bytes_eq(&block.header.messages, &root) {
            Ok(())
        } else {
            Err(TipsetValidationError::InvalidRoots)
        }
    }

    /// Recomputes the message root of two message lists: the identifier of
    /// each message, the accumulator root over each list, and the identifier
    /// of the record wrapping the two roots — the same content addressing
    /// that produced the header's declared root.
    pub fn compute_msg_root(bls_msgs: &Vec<Message>, secp_msgs: &Vec<SignedMessage>) -> (r: Vec<
        u8,
    >)
        ensures
            r@ == message_root(messages_view(bls_msgs@), signed_messages_view(secp_msgs@)),
            is_dag_cbor_cid(r@),
    {
        let bls_cids = bls_message_cids(bls_msgs);
        let secp_cids = secp_message_cids(secp_msgs);
        proof {
            assert(bytes_seq_view(bls_cids@) =~= Seq::new(
                messages_view(bls_msgs@).len(),
                |i: int| dag_cbor_cid(messages_view(bls_msgs@)[i]),
            ));
            assert(bytes_seq_view(secp_cids@) =~= Seq::new(
                signed_messages_view(secp_msgs@).len(),
                |i: int| dag_cbor_cid(signed_messages_view(secp_msgs@)[i]),
            ));
        }
        let bls_root = amt_root(&bls_cids);
        let secp_root = amt_root(&secp_cids);
        let mut meta: Vec<u8> = Vec::new();
        meta.push(0x82u8);
        let mut bls_enc = cbor_encode_cid(&bls_root);
        meta.append(&mut bls_enc);
        let mut secp_enc = cbor_encode_cid(&secp_root);
        meta.append(&mut secp_enc);
        proof {
            assert(meta@ =~= meta_cbor(bls_root@, secp_root@));
        }
        cid_of_dag_cbor(&meta)
    }
}

} // verus!
