//! Tests of the byte-level primitives: big-endian encoding, CBOR framing,
//! identifier-address parsing, randomness draws and win counting.

use fil_cns::bytes::{cbor_encode_bytes, i64_to_u64_twos_complement, miner_id, u64_to_be_bytes};
use fil_cns::randomness::{draw_randomness, DrawTag};
use fil_cns::sector::{PoStProof, RegisteredPoStProof, RegisteredSealProof, SectorInfo, SectorSize};
use fil_cns::win_count::expected_win_count;

#[test]
fn be_bytes_exact() {
    assert_eq!(u64_to_be_bytes(0), vec![0, 0, 0, 0, 0, 0, 0, 0]);
    assert_eq!(u64_to_be_bytes(1), vec![0, 0, 0, 0, 0, 0, 0, 1]);
    assert_eq!(
        u64_to_be_bytes(0x0102030405060708),
        vec![1, 2, 3, 4, 5, 6, 7, 8]
    );
    assert_eq!(
        u64_to_be_bytes(u64::MAX),
        vec![255, 255, 255, 255, 255, 255, 255, 255]
    );
}

#[test]
fn twos_complement_images() {
    assert_eq!(i64_to_u64_twos_complement(0), 0);
    assert_eq!(i64_to_u64_twos_complement(7), 7);
    assert_eq!(i64_to_u64_twos_complement(-1), u64::MAX);
    assert_eq!(i64_to_u64_twos_complement(i64::MIN), 0x8000000000000000);
}

#[test]
fn cbor_byte_string_headers() {
    // Short byte strings carry their length in the major-type byte.
    assert_eq!(cbor_encode_bytes(&vec![9, 8, 7]), vec![0x43, 9, 8, 7]);
    assert_eq!(cbor_encode_bytes(&Vec::new()), vec![0x40]);
    // One-byte length form.
    let payload30 = vec![1u8; 30];
    let enc30 = cbor_encode_bytes(&payload30);
    assert_eq!(enc30[0], 0x58);
    assert_eq!(enc30[1], 30);
    assert_eq!(&enc30[2..], payload30.as_slice());
    // Two-byte length form.
    let payload300 = vec![2u8; 300];
    let enc300 = cbor_encode_bytes(&payload300);
    assert_eq!(enc300[0], 0x59);
    assert_eq!(enc300[1], 0x01);
    assert_eq!(enc300[2], 0x2c);
    assert_eq!(&enc300[3..], payload300.as_slice());
}

#[test]
fn miner_id_reads_identifier_addresses() {
    assert_eq!(miner_id(&vec![0, 42]), Some(42));
    assert_eq!(miner_id(&vec![0, 0]), Some(0));
    assert_eq!(miner_id(&vec![0, 0x80, 0x01]), Some(128));
    assert_eq!(miner_id(&vec![0, 0xac, 0x02]), Some(300));
}

#[test]
fn miner_id_rejects_other_addresses() {
    // Too short, wrong protocol, dangling continuation, non-minimal zero.
    assert_eq!(miner_id(&vec![0]), None);
    assert_eq!(miner_id(&vec![]), None);
    assert_eq!(miner_id(&vec![3, 1, 2, 3]), None);
    assert_eq!(miner_id(&vec![0, 0x80]), None);
    assert_eq!(miner_id(&vec![0, 0x80, 0x00]), None);
    // A terminator in the middle leaves trailing bytes.
    assert_eq!(miner_id(&vec![0, 0x01, 0x01]), None);
}

#[test]
fn draw_is_deterministic_and_32_bytes() {
    let rbase = b"beacon".to_vec();
    let entropy = b"xyz".to_vec();
    let a = draw_randomness(&rbase, DrawTag::TicketProduction, 5, &entropy);
    let b = draw_randomness(&rbase, DrawTag::TicketProduction, 5, &entropy);
    assert_eq!(a, b);
    assert_eq!(a.len(), 32);
}

#[test]
fn draw_exact_value() {
    // The draw hashes tag, beacon digest, round and entropy; this value was
    // computed independently from that definition.
    let rbase = b"beacon".to_vec();
    let entropy = b"xyz".to_vec();
    let a = draw_randomness(&rbase, DrawTag::TicketProduction, 5, &entropy);
    assert_eq!(
        a,
        vec![
            112, 51, 80, 248, 233, 28, 62, 114, 244, 51, 199, 126, 1, 166, 101, 84, 49, 203, 28,
            96, 212, 155, 178, 195, 76, 244, 86, 93, 91, 241, 125, 10
        ]
    );
}

#[test]
fn draw_separates_domains_and_rounds() {
    let rbase = b"beacon".to_vec();
    let entropy = b"xyz".to_vec();
    let ticket = draw_randomness(&rbase, DrawTag::TicketProduction, 5, &entropy);
    let election = draw_randomness(&rbase, DrawTag::ElectionProofProduction, 5, &entropy);
    let post = draw_randomness(&rbase, DrawTag::WinningPoStChallengeSeed, 5, &entropy);
    let other_round = draw_randomness(&rbase, DrawTag::TicketProduction, 6, &entropy);
    assert_ne!(ticket, election);
    assert_ne!(ticket, post);
    assert_ne!(election, post);
    assert_ne!(ticket, other_round);
}

#[test]
fn win_count_exact_values() {
    // The five 48-bit windows of the digest of b"proof" fall at roughly
    // 0.57, 0.72, 0.97, 0.63 and 0.29 of the range; the counts below follow.
    let proof = b"proof".to_vec();
    assert_eq!(expected_win_count(&proof, 1, 2), 1);
    assert_eq!(expected_win_count(&proof, 1, 3), 1);
    assert_eq!(expected_win_count(&proof, 2, 3), 3);
}

#[test]
fn win_count_full_and_no_power() {
    let proof = b"proof".to_vec();
    assert_eq!(expected_win_count(&proof, 7, 7), 5);
    assert_eq!(expected_win_count(&proof, 0, 7), 0);
}

#[test]
fn sector_size_from_bytes() {
    assert!(SectorSize::from_bytes(2048).is_some());
    assert!(SectorSize::from_bytes(34359738368).is_some());
    assert!(SectorSize::from_bytes(1024).is_none());
    assert!(SectorSize::from_bytes(0).is_none());
    assert_eq!(SectorSize::from_bytes(8388608).unwrap().bytes, 8388608);
}

#[test]
fn seal_proof_codes_by_version() {
    let two_kib = SectorSize::from_bytes(2048).unwrap();
    let thirty_two_gib = SectorSize::from_bytes(34359738368).unwrap();
    assert_eq!(RegisteredSealProof::from_sector_size(two_kib, 6).code, 0);
    assert_eq!(RegisteredSealProof::from_sector_size(two_kib, 7).code, 5);
    assert_eq!(
        RegisteredSealProof::from_sector_size(thirty_two_gib, 8).code,
        8
    );
}

#[test]
fn sector_records_hold_their_fields() {
    let info = SectorInfo::new(RegisteredSealProof { code: 3 }, 11, vec![1, 2, 3]);
    assert_eq!(info.proof.code, 3);
    assert_eq!(info.sector_number, 11);
    assert_eq!(info.sealed_cid, vec![1, 2, 3]);
    let post = PoStProof::new(RegisteredPoStProof::from_code(9), vec![4, 5]);
    assert_eq!(post.post_proof.code, 9);
    assert_eq!(post.proof_bytes, vec![4, 5]);
}
