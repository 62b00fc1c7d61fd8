//! The surplus range-proof engine: proves that `total - minimum` lies in
//! `[0, 2^64)` without revealing `total`. All proof-system parameters — the
//! 64-bit width, the transcript domain-separation label, and the generator
//! sets — are fixed constants of this protocol, identical on the prove and
//! verify sides; they are never caller-configurable.

use vstd::prelude::*;

use crate::errors::Error;

verus! {

/// Whether the fixed-parameter range-proof verifier accepts the given proof
/// bytes against the given 32-byte commitment. The relation is a function of
/// the two byte strings alone (the bit width, transcript label and
/// generators being protocol constants), so it carries a name; the trusted
/// wrappers below tie the name to the real verifier.
pub uninterp spec fn range_proof_accepts(proof_bytes: Seq<u8>, commitment: Seq<u8>) -> bool;

/// A zero-knowledge proof that a committed surplus lies in `[0, 2^64)`,
/// together with the 32-byte commitment it opens.
pub struct SurplusProof {
    pub proof_bytes: Vec<u8>,
    pub commitment: Vec<u8>,
}

impl SurplusProof {
    /// A well-formed surplus proof: the commitment is a compressed curve
    /// point of 32 bytes and the proof verifies against it.
    pub open spec fn wf(self) -> bool {
        &&& self.commitment@.len() == 32
        &&& range_proof_accepts(self.proof_bytes@, self.commitment@)
    }
}

/// Relies on bulletproofs' `RangeProof::prove_single` with bit width 64,
/// single-party generators `BulletproofGens::new(64, 1)`, the default
/// Pedersen generators, the fixed transcript label of this protocol, and a
/// fresh random blinding scalar. Its source shows that construction cannot
/// fail for these fixed parameters, and its documentation shows
/// completeness: the returned proof verifies against the returned
/// commitment under the same parameters.
#[verifier::external_body]
fn prove_range_random(value: u64) -> (r: SurplusProof)
    ensures
        r.commitment@.len() == 32,
        range_proof_accepts(r.proof_bytes@, r.commitment@),
{
    let bp_gens = bulletproofs::BulletproofGens::new(64, 1);
    let pc_gens = bulletproofs::PedersenGens::default();
    let blinding = curve25519_dalek_ng::scalar::Scalar::random(&mut rand::rngs::OsRng);
    let mut transcript = merlin::Transcript::new(b"por");
    let (range_proof, committed) = bulletproofs::RangeProof::prove_single(
        &bp_gens,
        &pc_gens,
        &mut transcript,
        value,
        &blinding,
        64,
    )
    .expect("range proof construction cannot fail for the fixed parameters");
    SurplusProof { proof_bytes: range_proof.to_bytes(), commitment: committed.to_bytes().to_vec() }
}

/// Relies on bulletproofs' `RangeProof::verify_single` under exactly the
/// parameters used at proving time (bit width 64, the same generator sets
/// and transcript label): acceptance is a function of the proof bytes and
/// the commitment bytes alone. Proof bytes that do not decode are rejected.
#[verifier::external_body]
fn verify_range_bytes(proof_bytes: &Vec<u8>, commitment: &Vec<u8>) -> (accepted: bool)
    requires
        commitment@.len() == 32,
    ensures
        accepted == range_proof_accepts(proof_bytes@, commitment@),
{
    let decoded = match bulletproofs::RangeProof::from_bytes(proof_bytes.as_slice()) {
        Ok(p) => p,
        Err(_) => return false,
    };
    let bp_gens = bulletproofs::BulletproofGens::new(64, 1);
    let pc_gens = bulletproofs::PedersenGens::default();
    let point = curve25519_dalek_ng::ristretto::CompressedRistretto::from_slice(
        commitment.as_slice(),
    );
    let mut transcript = merlin::Transcript::new(b"por");
    decoded.verify_single(&bp_gens, &pc_gens, &mut transcript, &point, 64).is_ok()
}

/// Proves that the undisclosed total meets the disclosed minimum: commits
/// `total - minimum` under a fresh blinding scalar and produces a range
/// proof for it.
///
/// Succeeds exactly when `total >= minimum`; below the threshold it fails
/// with `BelowThreshold` before any proof construction is attempted.
pub fn prove_surplus(total: u64, minimum: u64) -> (r: Result<SurplusProof, Error>)
    ensures
        r is Ok <==> total >= minimum,
        r is Err ==> r == Err::<SurplusProof, Error>(Error::BelowThreshold),
        r matches Ok(sp) ==> sp.wf(),
{
    if total < minimum {
        return Err(Error::BelowThreshold);
    }
    Ok(prove_range_random(total - minimum))
}

/// Law: the round trip from proving to verification closes. Every
/// well-formed surplus proof — in particular every proof that
/// `prove_surplus` returns — satisfies exactly the condition under which
/// `verify_surplus` answers `Ok`.
pub proof fn lemma_surplus_round_trip(sp: SurplusProof)
    requires
        sp.wf(),
    ensures
        sp.commitment@.len() == 32 && range_proof_accepts(sp.proof_bytes@, sp.commitment@),
{
}

/// Checks a range proof against a surplus commitment under the fixed
/// protocol parameters.
///
/// Succeeds exactly when the commitment is 32 bytes long and the verifier
/// accepts the pair; any other outcome is `RangeProofInvalid`.
pub fn verify_surplus(proof_bytes: &Vec<u8>, commitment: &Vec<u8>) -> (r: Result<(), Error>)
    ensures
        r is Ok <==> commitment@.len() == 32 && range_proof_accepts(proof_bytes@, commitment@),
        r is Err ==> r == Err::<(), Error>(Error::RangeProofInvalid),
{
    if commitment.len() != 32 {
        return Err(Error::RangeProofInvalid);
    }
    if verify_range_bytes(proof_bytes, commitment) {
        Ok(())
    } else {
        Err(Error::RangeProofInvalid)
    }
}

} // verus!
