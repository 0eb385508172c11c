//! VRF verification: an election or ticket proof is a BLS signature over the
//! derived randomness, verified against the miner's worker key.

use vstd::prelude::*;

use crate::errors::{ConsensusErrorV, FilecoinConsensusError};

verus! {

/// Address protocol byte of a BLS public-key address.
pub const BLS_ADDRESS_PROTOCOL: u8 = 3;

/// Byte length of a BLS public key, and so of a BLS address payload.
pub const BLS_PUB_LEN: usize = 48;

/// Whether `sig` is a valid BLS signature over `msg` by the key `pubkey`.
pub uninterp spec fn bls_sig_valid(sig: Seq<u8>, msg: Seq<u8>, pubkey: Seq<u8>) -> bool;

/// Relies on bls_signatures::verify_messages (with PublicKey::from_bytes and
/// Signature::from_bytes converting the raw arguments): whether a signature
/// verifies is a function of the signature, message and key bytes alone;
/// bytes that parse as no key or no signature verify nothing.
#[verifier::external_body]
pub(crate) fn bls_verify(sig: &Vec<u8>, msg: &Vec<u8>, pubkey: &Vec<u8>) -> (r: bool)
    ensures
        r == bls_sig_valid(sig@, msg@, pubkey@),
{
    let pk = match <bls_signatures::PublicKey as bls_signatures::Serialize>::from_bytes(
        pubkey.as_slice(),
    ) {
        Ok(pk) => pk,
        Err(_) => return false,
    };
    let sg = match <bls_signatures::Signature as bls_signatures::Serialize>::from_bytes(
        sig.as_slice(),
    ) {
        Ok(sg) => sg,
        Err(_) => return false,
    };
    bls_signatures::verify_messages(&sg, &[msg.as_slice()], &[pk])
}

/// A worker address authorizes VRF proofs when it is a BLS key address: the
/// protocol byte followed by a 48-byte public key.
pub open spec fn is_bls_address(addr: Seq<u8>) -> bool {
    addr.len() == (BLS_PUB_LEN + 1) && addr[0] == BLS_ADDRESS_PROTOCOL
}

/// The verdict of checking a VRF proof `evrf` over the randomness `rand`
/// against the worker address `worker`.
pub open spec fn vrf_verdict(worker: Seq<u8>, rand: Seq<u8>, evrf: Seq<u8>) -> Option<
    ConsensusErrorV,
> {
    if is_bls_address(worker) && bls_sig_valid(evrf, rand, worker.skip(1)) {
        None
    } else {
        Some(ConsensusErrorV::VrfValidation)
    }
}

/// Verifies a VRF proof over derived randomness against the worker address:
/// the address must be a BLS key address and the proof a valid BLS signature
/// of the randomness by that key.
pub fn verify_election_post_vrf(worker: &Vec<u8>, rand: &Vec<u8>, evrf: &Vec<u8>) -> (r: Result<
    (),
    FilecoinConsensusError,
>)
    ensures
        r is Ok <==> vrf_verdict(worker@, rand@, evrf@) is None,
        r is Err ==> Some(r->Err_0@) == vrf_verdict(worker@, rand@, evrf@),
{
    if worker.len() != BLS_PUB_LEN + 1 || worker[0] != BLS_ADDRESS_PROTOCOL {
        return Err(FilecoinConsensusError::VrfValidation);
    }
    let pubkey = crate::bytes::subvec(worker, 1, worker.len());
    proof {
        assert(pubkey@ =~= worker@.skip(1));
    }
    if bls_verify(evrf, rand, &pubkey) {
        Ok(())
    } else {
        Err(FilecoinConsensusError::VrfValidation)
    }
}

} // verus!
