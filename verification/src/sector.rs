//! Sector-related value types: sizes, registered proof kinds, sector
//! records, and storage proofs, modeled as plain data with the registered
//! codes the protocol assigns them.

use vstd::prelude::*;

verus! {

/// Network version from which the second seal-proof generation applies.
pub const SEAL_PROOF_V1P1_FROM_VERSION: u32 = 7;

/// One of the sector sizes the network admits, in bytes.
#[derive(Clone, Copy, Debug)]
pub struct SectorSize {
    pub bytes: u64,
}

impl SectorSize {
    /// The admitted sizes: 2 KiB, 8 MiB, 512 MiB, 32 GiB, 64 GiB.
    pub open spec fn is_valid(self) -> bool {
        self.bytes == 2048 || self.bytes == 8388608 || self.bytes == 536870912 || self.bytes
            == 34359738368 || self.bytes == 68719476736
    }

    /// Makes a sector size from a byte count, if the network admits it.
    pub fn from_bytes(bytes: u64) -> (r: Option<SectorSize>)
        ensures
            match r {
                Some(s) => s.bytes == bytes && s.is_valid(),
                None => !(SectorSize { bytes }).is_valid(),
            },
    {
        if bytes == 2048 || bytes == 8388608 || bytes == 536870912 || bytes == 34359738368 || bytes
            == 68719476736 {
            Some(SectorSize { bytes })
        } else {
            None
        }
    }
}

/// The registered seal-proof code for a sector size, by network version:
/// the first generation below version 7, the revised generation from it.
pub open spec fn seal_proof_code(size_bytes: u64, network_version: u32) -> int {
    let offset: int = if network_version < SEAL_PROOF_V1P1_FROM_VERSION {
        0
    } else {
        5
    };
    if size_bytes == 2048 {
        offset
    } else if size_bytes == 8388608 {
        offset + 1
    } else if size_bytes == 536870912 {
        offset + 2
    } else if size_bytes == 34359738368 {
        offset + 3
    } else {
        offset + 4
    }
}

/// A registered seal-proof kind, by its protocol code.
#[derive(Clone, Copy, Debug)]
pub struct RegisteredSealProof {
    pub code: i64,
}

impl RegisteredSealProof {
    /// The seal-proof kind used for sectors of the given size at the given
    /// network version.
    pub fn from_sector_size(size: SectorSize, network_version: u32) -> (r: RegisteredSealProof)
        requires
            size.is_valid(),
        ensures
            r.code == seal_proof_code(size.bytes, network_version),
    {
        let offset: i64 = if network_version < SEAL_PROOF_V1P1_FROM_VERSION {
            0
        } else {
            5
        };
        let code: i64 = if size.bytes == 2048 {
            offset
        } else if size.bytes == 8388608 {
            offset + 1
        } else if size.bytes == 536870912 {
            offset + 2
        } else if size.bytes == 34359738368 {
            offset + 3
        } else {
            offset + 4
        };
        RegisteredSealProof { code }
    }
}

/// A registered proof-of-storage kind, by its protocol code.
#[derive(Clone, Copy, Debug)]
pub struct RegisteredPoStProof {
    pub code: i64,
}

impl RegisteredPoStProof {
    /// Wraps a raw protocol code.
    pub fn from_code(code: i64) -> (r: RegisteredPoStProof)
        ensures
            r.code == code,
    {
        RegisteredPoStProof { code }
    }
}

/// One sector a miner may be challenged to prove: its seal-proof kind, its
/// number, and the identifier of its sealed data.
#[derive(Clone, Debug)]
pub struct SectorInfo {
    pub proof: RegisteredSealProof,
    pub sector_number: u64,
    pub sealed_cid: Vec<u8>,
}

impl SectorInfo {
    pub fn new(proof: RegisteredSealProof, sector_number: u64, sealed_cid: Vec<u8>) -> (r:
        SectorInfo)
        ensures
            r.proof == proof,
            r.sector_number == sector_number,
            r.sealed_cid == sealed_cid,
    {
        SectorInfo { proof, sector_number, sealed_cid }
    }
}

/// A winning proof of storage: its registered kind and the proof bytes.
#[derive(Clone, Debug)]
pub struct PoStProof {
    pub post_proof: RegisteredPoStProof,
    pub proof_bytes: Vec<u8>,
}

impl PoStProof {
    pub fn new(reg_post_proof: RegisteredPoStProof, proof_bytes: Vec<u8>) -> (r: PoStProof)
        ensures
            r.post_proof == reg_post_proof,
            r.proof_bytes == proof_bytes,
    {
        PoStProof { post_proof: reg_post_proof, proof_bytes }
    }
}

} // verus!
