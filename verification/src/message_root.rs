//! Message-root recomputation: the content identifier of each message, an
//! append-indexed accumulator over each list's identifiers, and the small
//! record wrapping the two sub-roots, addressed by the same hash-to-identifier
//! function used everywhere else, so a recomputed root can be held against a
//! header's declared root byte for byte.

use vstd::prelude::*;

use crate::bytes::{append_bytes, bytes_seq_view, cbor_bytes_enc, cbor_encode_bytes};
use crate::hashing::{cid_of_dag_cbor, dag_cbor_cid, is_dag_cbor_cid};
use crate::types::{Message, SignedMessage};

verus! {

/// Root identifier of the append-indexed accumulator over a list of content
/// identifiers, each given as its bytes.
pub uninterp spec fn amt_root_of(cids: Seq<Seq<u8>>) -> Seq<u8>;

/// Relies on fvm_ipld_amt::Amtv0::new_from_iter over a fresh
/// fvm_ipld_blockstore::MemoryBlockstore: the root identifier of the
/// accumulator is a function of the value list alone, and the construction
/// cannot fail — the in-memory store accepts every write, list indices stay
/// within the accumulator's range, and identifiers in the canonical 38-byte
/// form parse with cid::Cid::read_bytes.
#[verifier::external_body]
pub(crate) fn amt_root(cids: &Vec<Vec<u8>>) -> (r: Vec<u8>)
    requires
        forall|i: int|
            0 <= i < cids@.len() ==> is_dag_cbor_cid(#[trigger] bytes_seq_view(cids@)[i]),
    ensures
        r@ == amt_root_of(bytes_seq_view(cids@)),
{
    let store = fvm_ipld_blockstore::MemoryBlockstore::default();
    let mut parsed: Vec<cid::Cid> = Vec::with_capacity(cids.len());
    for c in cids.iter() {
        parsed.push(cid::Cid::read_bytes(c.as_slice()).unwrap());
    }
    fvm_ipld_amt::Amtv0::new_from_iter(&store, parsed).unwrap().to_bytes()
}

/// A content identifier inside a DAG-CBOR value: tag 42 over the identifier
/// bytes behind a leading zero byte.
pub open spec fn cbor_cid_enc(c: Seq<u8>) -> Seq<u8> {
    seq![0xd8u8, 0x2au8] + cbor_bytes_enc(seq![0x00u8] + c)
}

/// The record wrapping the two sub-roots: a two-element array of the
/// signature-free root and the signed root.
pub open spec fn meta_cbor(bls_root: Seq<u8>, secp_root: Seq<u8>) -> Seq<u8> {
    seq![0x82u8] + cbor_cid_enc(bls_root) + cbor_cid_enc(secp_root)
}

/// The message root of two message lists: each message's identifier, the
/// accumulator root over each list, and the identifier of the record
/// wrapping the two roots.
pub open spec fn message_root(bls: Seq<Seq<u8>>, secp: Seq<Seq<u8>>) -> Seq<u8> {
    let bls_cids = Seq::new(bls.len(), |i: int| dag_cbor_cid(bls[i]));
    let secp_cids = Seq::new(secp.len(), |i: int| dag_cbor_cid(secp[i]));
    dag_cbor_cid(meta_cbor(amt_root_of(bls_cids), amt_root_of(secp_cids)))
}

pub(crate) fn cbor_encode_cid(c: &Vec<u8>) -> (r: Vec<u8>)
    ensures
        r@ == cbor_cid_enc(c@),
{
    let mut payload: Vec<u8> = Vec::new();
    payload.push(0x00u8);
    append_bytes(&mut payload, c);
    proof {
        assert(payload@ =~= seq![0x00u8] + c@);
    }
    let mut r: Vec<u8> = Vec::new();
    r.push(0xd8u8);
    r.push(0x2au8);
    let mut enc = cbor_encode_bytes(&payload);
    r.append(&mut enc);
    proof {
        assert(r@ =~= cbor_cid_enc(c@));
    }
    r
}

pub(crate) fn bls_message_cids(msgs: &Vec<Message>) -> (r: Vec<Vec<u8>>)
    ensures
        r@.len() == msgs@.len(),
        forall|j: int| 0 <= j < r@.len() ==> (#[trigger] r@[j])@ == dag_cbor_cid(msgs@[j].cbor@),
        forall|j: int| 0 <= j < r@.len() ==> is_dag_cbor_cid((#[trigger] r@[j])@),
{
    let n = msgs.len();
    let mut r: Vec<Vec<u8>> = Vec::new();
    let mut i: usize = 0;
    while i < n
        invariant
            n == msgs@.len(),
            i <= n,
            r@.len() == i,
            forall|j: int| 0 <= j < i ==> (#[trigger] r@[j])@ == dag_cbor_cid(msgs@[j].cbor@),
            forall|j: int| 0 <= j < i ==> is_dag_cbor_cid((#[trigger] r@[j])@),
        decreases n - i,
    {
        r.push(cid_of_dag_cbor(&msgs[i].cbor));
        i = i + 1;
    }
    r
}

pub(crate) fn secp_message_cids(msgs: &Vec<SignedMessage>) -> (r: Vec<Vec<u8>>)
    ensures
        r@.len() == msgs@.len(),
        forall|j: int| 0 <= j < r@.len() ==> (#[trigger] r@[j])@ == dag_cbor_cid(msgs@[j].cbor@),
        forall|j: int| 0 <= j < r@.len() ==> is_dag_cbor_cid((#[trigger] r@[j])@),
{
    let n = msgs.len();
    let mut r: Vec<Vec<u8>> = Vec::new();
    let mut i: usize = 0;
    while i < n
        invariant
            n == msgs@.len(),
            i <= n,
            r@.len() == i,
            forall|j: int| 0 <= j < i ==> (#[trigger] r@[j])@ == dag_cbor_cid(msgs@[j].cbor@),
            forall|j: int| 0 <= j < i ==> is_dag_cbor_cid((#[trigger] r@[j])@),
        decreases n - i,
    {
        r.push(cid_of_dag_cbor(&msgs[i].cbor));
        i = i + 1;
    }
    r
}

} // verus!
