//! Content addressing: the 32-byte BLAKE2b digest behind every randomness
//! draw and every content identifier this library computes.

use vstd::prelude::*;

verus! {

/// The 32-byte BLAKE2b digest of a byte string.
pub uninterp spec fn blake2b256_of(data: Seq<u8>) -> Seq<u8>;

/// Relies on blake2b_simd::Params: a BLAKE2b digest with a 32-byte output
/// length is a function of the input bytes alone, and is 32 bytes long.
#[verifier::external_body]
pub(crate) fn blake2b256(data: &Vec<u8>) -> (r: Vec<u8>)
    ensures
        r@ == blake2b256_of(data@),
        r@.len() == 32,
{
    blake2b_simd::Params::new().hash_length(32).to_state().update(data.as_slice()).finalize()
        .as_bytes()
        .to_vec()
}

/// Prefix of a version-1 content identifier whose payload codec is DAG-CBOR
/// (0x71) and whose digest is a 32-byte BLAKE2b multihash (code 0xb220,
/// varint-encoded as a0 e4 02, length 0x20).
pub open spec fn cid_prefix() -> Seq<u8> {
    seq![0x01u8, 0x71u8, 0xa0u8, 0xe4u8, 0x02u8, 0x20u8]
}

/// Content identifier of a DAG-CBOR encoded value: the standard prefix
/// followed by the BLAKE2b digest of the encoding.
pub open spec fn dag_cbor_cid(data: Seq<u8>) -> Seq<u8> {
    cid_prefix() + blake2b256_of(data)
}

/// A byte string in the exact shape of the identifiers produced here.
pub open spec fn is_dag_cbor_cid(s: Seq<u8>) -> bool {
    s.len() == 38 && s.subrange(0, 6) == cid_prefix()
}

pub fn cid_of_dag_cbor(data: &Vec<u8>) -> (r: Vec<u8>)
    ensures
        r@ == dag_cbor_cid(data@),
        is_dag_cbor_cid(r@),
{
    let mut r: Vec<u8> = Vec::new();
    r.push(0x01u8);
    r.push(0x71u8);
    r.push(0xa0u8);
    r.push(0xe4u8);
    r.push(0x02u8);
    r.push(0x20u8);
    proof {
        assert(r@ =~= cid_prefix());
    }
    let mut digest = blake2b256(data);
    r.append(&mut digest);
    proof {
        assert(r@.subrange(0, 6) =~= cid_prefix());
    }
    r
}

} // verus!
