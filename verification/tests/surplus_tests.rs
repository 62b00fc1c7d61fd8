use bulletproofs::PedersenGens;
use curve25519_dalek_ng::scalar::Scalar;
use reserve_proof::errors::Error;
use reserve_proof::surplus::{prove_surplus, verify_surplus};

#[test]
fn range_proof_verify_success() {
    let sp = prove_surplus(42, 0).unwrap();
    assert!(verify_surplus(&sp.proof_bytes, &sp.commitment).is_ok());
}

#[test]
fn range_proof_verify_fail() {
    let sp = prove_surplus(42, 0).unwrap();
    // commitment for wrong value
    let wrong_commitment = PedersenGens::default()
        .commit(Scalar::from(43u64), Scalar::from(1u64))
        .compress()
        .to_bytes()
        .to_vec();
    assert_eq!(
        verify_surplus(&sp.proof_bytes, &wrong_commitment),
        Err(Error::RangeProofInvalid)
    );
}

#[test]
fn prove_below_threshold_fails() {
    assert_eq!(prove_surplus(29, 30).err(), Some(Error::BelowThreshold));
}

#[test]
fn prove_at_threshold_round_trips() {
    let sp = prove_surplus(30, 30).unwrap();
    assert!(verify_surplus(&sp.proof_bytes, &sp.commitment).is_ok());
}

#[test]
fn verify_rejects_short_commitment() {
    let sp = prove_surplus(5, 1).unwrap();
    let short = vec![0u8; 31];
    assert_eq!(
        verify_surplus(&sp.proof_bytes, &short),
        Err(Error::RangeProofInvalid)
    );
}

#[test]
fn verify_rejects_undecodable_proof() {
    let sp = prove_surplus(5, 1).unwrap();
    let garbage = vec![1u8, 2u8, 3u8];
    assert_eq!(
        verify_surplus(&garbage, &sp.commitment),
        Err(Error::RangeProofInvalid)
    );
}
