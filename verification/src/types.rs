//! The chain data model: headers, blocks, tipsets and the small records they
//! carry.  All values are immutable plain data; a block is identified by a
//! content hash carried alongside it.

use vstd::prelude::*;

use crate::sector::PoStProof;

verus! {

/// One output of the external randomness beacon: its round number and its
/// opaque randomness bytes.
#[derive(Clone, Debug)]
pub struct BeaconEntry {
    pub round: u64,
    pub data: Vec<u8>,
}

/// The VRF proof used for per-round leader election and as entropy for the
/// next round's randomness.
#[derive(Clone, Debug)]
pub struct Ticket {
    pub vrfproof: Vec<u8>,
}

/// A declared win count together with the VRF proof backing it.
#[derive(Clone, Debug)]
pub struct ElectionProof {
    pub win_count: i64,
    pub vrfproof: Vec<u8>,
}

/// A message without an explicit signature, as its canonical encoding.
#[derive(Clone, Debug)]
pub struct Message {
    pub cbor: Vec<u8>,
}

/// An explicitly signed message, as its canonical encoding.
#[derive(Clone, Debug)]
pub struct SignedMessage {
    pub cbor: Vec<u8>,
}

/// An immutable block header.  `cid` is the content hash identifying the
/// block; `miner_address` and the parent and root references are raw address
/// and identifier bytes.
#[derive(Clone, Debug)]
pub struct BlockHeader {
    /// Content identifier of the block.
    pub cid: Vec<u8>,
    /// Address bytes of the miner that produced the block.
    pub miner_address: Vec<u8>,
    /// Chain height the block claims.
    pub epoch: i64,
    /// Unix seconds the block claims.
    pub timestamp: u64,
    /// Identifiers of the parent tipset's blocks.
    pub parents: Vec<Vec<u8>>,
    /// Declared root of the block's message lists.
    pub messages: Vec<u8>,
    /// Election proof; mandatory under this consensus mechanism.
    pub election_proof: Option<ElectionProof>,
    /// Ticket; mandatory under this consensus mechanism.
    pub ticket: Option<Ticket>,
    /// Beacon entries the block declares, in order.
    pub beacon_entries: Vec<BeaconEntry>,
    /// Winning proofs of storage attached to the block.
    pub winning_post_proof: Vec<PoStProof>,
}

/// A block: its header together with its full message lists.
#[derive(Clone, Debug)]
pub struct Block {
    pub header: BlockHeader,
    pub bls_messages: Vec<Message>,
    pub secp_messages: Vec<SignedMessage>,
}

/// A resolved tipset summary: what the validators read of a tipset that is
/// already part of the chain (a parent, the genesis, or a lookback tipset).
#[derive(Clone, Debug)]
pub struct Tipset {
    pub epoch: i64,
    pub min_timestamp: u64,
    pub min_ticket: Option<Ticket>,
    pub parent_state: Vec<u8>,
}

/// A candidate tipset with full message bodies, as handed to structural
/// validation.
#[derive(Clone, Debug)]
pub struct FullTipset {
    pub blocks: Vec<Block>,
}

impl FullTipset {
    /// Every block of a tipset shares one epoch and one parent set.
    pub open spec fn wf(self) -> bool {
        forall|i: int|
            0 <= i < self.blocks@.len() ==> (#[trigger] self.blocks@[i]).header.epoch
                == self.blocks@[0].header.epoch && self.blocks@[i].header.parents@
                == self.blocks@[0].header.parents@
    }

    /// The tipset's epoch: the epoch shared by its blocks.
    pub open spec fn epoch_spec(self) -> i64 {
        self.blocks@[0].header.epoch
    }

    /// The epoch shared by the tipset's blocks.
    pub fn epoch(&self) -> (r: i64)
        requires
            self.blocks@.len() > 0,
        ensures
            r == self.epoch_spec(),
    {
        self.blocks[0].header.epoch
    }

    /// The blocks of the tipset.
    pub fn blocks(&self) -> (r: &Vec<Block>)
        ensures
            r == &self.blocks,
    {
        &self.blocks
    }
}

/// The canonical byte views of a message list, for stating what a message
/// root is computed over.
pub open spec fn messages_view(msgs: Seq<Message>) -> Seq<Seq<u8>> {
    Seq::new(msgs.len(), |i: int| msgs[i].cbor@)
}

/// The canonical byte views of a signed-message list.
pub open spec fn signed_messages_view(msgs: Seq<SignedMessage>) -> Seq<Seq<u8>> {
    Seq::new(msgs.len(), |i: int| msgs[i].cbor@)
}

} // verus!
