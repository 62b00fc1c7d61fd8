//! The proof-of-reserve document: the durable artifact binding block height,
//! Merkle root, per-output commitments, the surplus range proof, the
//! disclosed minimum, and (once attached) ownership evidence. Also the
//! verifier that independently recomputes the root and checks the range
//! proof against a trusted chain height.

use vstd::prelude::*;

use crate::commitment::{commit_utxos, sum_values, Utxo};
use crate::encoding::{base64_decode, base64_decoded};
use crate::errors::Error;
use crate::hashing::{sha256, sha256_of};
use crate::merkle::{all_len_32, byte_views, merkle_root, merkle_spec};
use crate::surplus::{prove_surplus, range_proof_accepts, verify_surplus, SurplusProof};

verus! {

/// The durable proof-of-reserve artifact. All binary fields hold raw bytes;
/// the textual transport form (hex / base64 fields in a flat record) is the
/// concern of the surrounding application, not of the protocol.
pub struct ProofDocument {
    pub block_height: u64,
    pub utxo_root: Vec<u8>,
    pub commitments: Vec<Vec<u8>>,
    pub range_proof: Vec<u8>,
    pub surplus_commitment: Vec<u8>,
    pub ownership_proofs: Vec<Vec<u8>>,
    pub min_amount: u64,
    pub psbt_hash: Option<Vec<u8>>,
    pub signing_type: Option<String>,
}

impl ProofDocument {
    /// A validly produced document: the recorded root is the Merkle root of
    /// the commitment list, the range proof verifies against the surplus
    /// commitment, and ownership evidence is either absent or complete —
    /// never partially populated.
    pub open spec fn wf(self) -> bool {
        &&& self.utxo_root@ == merkle_spec(byte_views(self.commitments@))
        &&& self.utxo_root@.len() == 32
        &&& all_len_32(byte_views(self.commitments@))
        &&& self.surplus_commitment@.len() == 32
        &&& range_proof_accepts(self.range_proof@, self.surplus_commitment@)
        &&& self.ownership_proofs@.len() == 0 || self.ownership_proofs@.len()
            == self.commitments@.len()
    }
}

/// The committed reserve before it is bound into a document: per-output
/// commitments, their total, their Merkle root, and the surplus proof.
pub struct ReserveBundle {
    pub commitments: Vec<Vec<u8>>,
    pub total: u64,
    pub utxo_root: Vec<u8>,
    pub surplus: SurplusProof,
}

impl ReserveBundle {
    /// The bundle's internal consistency: 32-byte commitments, the root
    /// computed over exactly those commitments, and a verifying surplus
    /// proof.
    pub open spec fn wf(self) -> bool {
        &&& all_len_32(byte_views(self.commitments@))
        &&& self.utxo_root@ == merkle_spec(byte_views(self.commitments@))
        &&& self.utxo_root@.len() == 32
        &&& self.surplus.wf()
    }
}

/// Commits the outputs, checks the disclosed minimum, proves the surplus
/// and aggregates the commitments into a Merkle root.
///
/// Fails with `NoOutputs` on an empty list, `AmountOverflow` when the value
/// sum does not fit in 64 bits, and `BelowThreshold` when the total is
/// under the minimum; succeeds on exactly the remaining inputs.
pub fn prepare_reserve(utxos: &Vec<Utxo>, minimum: u64) -> (r: Result<ReserveBundle, Error>)
    ensures
        r is Ok <==> utxos@.len() > 0 && sum_values(utxos@) <= u64::MAX && sum_values(utxos@)
            >= minimum,
        r == Err::<ReserveBundle, Error>(Error::NoOutputs) <==> utxos@.len() == 0,
        r == Err::<ReserveBundle, Error>(Error::AmountOverflow) <==> utxos@.len() > 0
            && sum_values(utxos@) > u64::MAX,
        r == Err::<ReserveBundle, Error>(Error::BelowThreshold) <==> utxos@.len() > 0
            && sum_values(utxos@) <= u64::MAX && sum_values(utxos@) < minimum,
        r matches Ok(bundle) ==> {
            &&& bundle.wf()
            &&& bundle.commitments@.len() == utxos@.len()
            &&& bundle.total == sum_values(utxos@)
        },
{
    let (commitments, total) = match commit_utxos(utxos) {
        Ok(pair) => pair,
        Err(e) => {
            return Err(e);
        },
    };
    let surplus = match prove_surplus(total, minimum) {
        Ok(sp) => sp,
        Err(e) => {
            return Err(e);
        },
    };
    let utxo_root = merkle_root(&commitments);
    Ok(ReserveBundle { commitments, total, utxo_root, surplus })
}

/// Produces a finished one-shot document: no signing request is involved,
/// so `psbt_hash` and `signing_type` are absent and ownership evidence is
/// empty.
///
/// Succeeds exactly when the outputs are non-empty, their sum fits in 64
/// bits, and the sum meets the disclosed minimum; the error taxonomy is
/// that of `prepare_reserve`.
pub fn generate_proof(utxos: &Vec<Utxo>, minimum: u64, height: u64) -> (r: Result<
    ProofDocument,
    Error,
>)
    ensures
        r is Ok <==> utxos@.len() > 0 && sum_values(utxos@) <= u64::MAX && sum_values(utxos@)
            >= minimum,
        r == Err::<ProofDocument, Error>(Error::NoOutputs) <==> utxos@.len() == 0,
        r == Err::<ProofDocument, Error>(Error::AmountOverflow) <==> utxos@.len() > 0
            && sum_values(utxos@) > u64::MAX,
        r == Err::<ProofDocument, Error>(Error::BelowThreshold) <==> utxos@.len() > 0
            && sum_values(utxos@) <= u64::MAX && sum_values(utxos@) < minimum,
        r matches Ok(doc) ==> {
            &&& doc.wf()
            &&& doc.block_height == height
            &&& doc.min_amount == minimum
            &&& doc.commitments@.len() == utxos@.len()
            &&& doc.ownership_proofs@.len() == 0
            &&& doc.psbt_hash is None
            &&& doc.signing_type is None
        },
{
    let bundle = match prepare_reserve(utxos, minimum) {
        Ok(b) => b,
        Err(e) => {
            return Err(e);
        },
    };
    Ok(
        ProofDocument {
            block_height: height,
            utxo_root: bundle.utxo_root,
            commitments: bundle.commitments,
            range_proof: bundle.surplus.proof_bytes,
            surplus_commitment: bundle.surplus.commitment,
            ownership_proofs: Vec::new(),
            min_amount: minimum,
            psbt_hash: None,
            signing_type: None,
        },
    )
}

/// Binds a prepared reserve to the signing request handed to the external
/// signer: the draft records the SHA-256 digest of the request's decoded
/// bytes, so that any alteration between draft and signing is detected when
/// the signed response comes back.
///
/// Succeeds exactly when the request text decodes as base64.
pub fn assemble_draft(bundle: ReserveBundle, minimum: u64, height: u64, signing_request: &str) -> (r:
    Result<ProofDocument, Error>)
    ensures
        r is Ok <==> base64_decoded(signing_request@) is Some,
        r is Err ==> r == Err::<ProofDocument, Error>(Error::MalformedRequest),
        r matches Ok(doc) ==> {
            &&& (bundle.wf() ==> doc.wf())
            &&& doc.block_height == height
            &&& doc.min_amount == minimum
            &&& doc.commitments@ == bundle.commitments@
            &&& doc.utxo_root@ == bundle.utxo_root@
            &&& doc.range_proof@ == bundle.surplus.proof_bytes@
            &&& doc.surplus_commitment@ == bundle.surplus.commitment@
            &&& doc.ownership_proofs@.len() == 0
            &&& (doc.psbt_hash matches Some(h) && h@ == sha256_of(
                base64_decoded(signing_request@)->Some_0,
            ))
            &&& (doc.signing_type matches Some(t) && t@ == "psbt-opreturn-v1"@)
        },
{
    let request_bytes = match base64_decode(signing_request) {
        Some(bytes) => bytes,
        None => {
            return Err(Error::MalformedRequest);
        },
    };
    let digest = sha256(&request_bytes);
    Ok(
        ProofDocument {
            block_height: height,
            utxo_root: bundle.utxo_root,
            commitments: bundle.commitments,
            range_proof: bundle.surplus.proof_bytes,
            surplus_commitment: bundle.surplus.commitment,
            ownership_proofs: Vec::new(),
            min_amount: minimum,
            psbt_hash: Some(digest),
            signing_type: Some("psbt-opreturn-v1".to_owned()),
        },
    )
}

/// The verifier's verdict on a document against a trusted current chain
/// height: the checks run in a fixed order and stop at the first failure —
/// height recency, Merkle-root recomputation, then the range proof against
/// the surplus commitment. Ownership evidence is deliberately not checked
/// here.
pub open spec fn verify_outcome(doc: ProofDocument, current_height: u64) -> Result<(), Error> {
    if doc.block_height > current_height {
        Err(Error::StaleHeight)
    } else if doc.utxo_root@ != merkle_spec(byte_views(doc.commitments@)) {
        Err(Error::RootMismatch)
    } else if !(doc.surplus_commitment@.len() == 32 && range_proof_accepts(
        doc.range_proof@,
        doc.surplus_commitment@,
    )) {
        Err(Error::RangeProofInvalid)
    } else {
        Ok(())
    }
}

/// Whether two byte vectors hold the same bytes.
pub fn bytes_equal(a: &Vec<u8>, b: &Vec<u8>) -> (r: bool)
    ensures
        r == (a@ == b@),
{
    if a.len() != b.len() {
        return false;
    }
    let mut i: usize = 0;
    while i < a.len()
        invariant
            i <= a@.len(),
            a@.len() == b@.len(),
            forall|j: int| 0 <= j < i ==> a@[j] == b@[j],
        decreases a@.len() - i,
    {
        if a[i] != b[i] {
            return false;
        }
        i = i + 1;
    }
    assert(a@ =~= b@);
    true
}

/// Independently re-checks a document: exactly the verdict of
/// `verify_outcome`.
pub fn verify_document(doc: &ProofDocument, current_height: u64) -> (r: Result<(), Error>)
    ensures
        r == verify_outcome(*doc, current_height),
{
    if doc.block_height > current_height {
        return Err(Error::StaleHeight);
    }
    let recomputed = merkle_root(&doc.commitments);
    if !bytes_equal(&recomputed, &doc.utxo_root) {
        return Err(Error::RootMismatch);
    }
    match verify_surplus(&doc.range_proof, &doc.surplus_commitment) {
        Ok(()) => Ok(()),
        Err(_) => Err(Error::RangeProofInvalid),
    }
}

/// Law: a well-formed document whose block height does not exceed the
/// trusted current height passes every verifier check.
pub proof fn lemma_valid_document_verifies(doc: ProofDocument, current_height: u64)
    requires
        doc.wf(),
        doc.block_height <= current_height,
    ensures
        verify_outcome(doc, current_height) == Ok::<(), Error>(()),
{
}

/// Law: altering the commitment list of a document after its root was fixed
/// is detected, whenever the altered list's Merkle root differs from the
/// original one — the verifier stops with `RootMismatch`.
pub proof fn lemma_altered_commitments_rejected(
    original: ProofDocument,
    altered: ProofDocument,
    current_height: u64,
)
    requires
        original.wf(),
        altered.block_height <= current_height,
        altered.utxo_root@ == original.utxo_root@,
        merkle_spec(byte_views(altered.commitments@)) != merkle_spec(
            byte_views(original.commitments@),
        ),
    ensures
        verify_outcome(altered, current_height) == Err::<(), Error>(Error::RootMismatch),
{
}

} // verus!
