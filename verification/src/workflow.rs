//! The signing workflow: a draft document hands a signing request to an
//! external signer; the purportedly signed response is merged back only
//! after three checks — the response hashes to the digest recorded in the
//! draft, it has exactly one input per commitment, and every input carries
//! ownership evidence. Any failure leaves the document exactly as it was:
//! either every input gains evidence or none does.

use vstd::prelude::*;

use crate::document::{bytes_equal, ProofDocument};
use crate::encoding::{base64_decode, base64_decoded};
use crate::errors::Error;
use crate::hashing::{sha256, sha256_of};
use crate::merkle::clone_bytes;

verus! {

/// The per-input signature material found in a signed response: at most one
/// partial (script-path) signature and at most one key-path signature, as
/// plain bytes.
pub struct SignedInput {
    pub partial_sig: Option<Vec<u8>>,
    pub key_path_sig: Option<Vec<u8>>,
}

/// The ownership evidence extracted from one signed input: a single partial
/// signature if present, else a single key-path signature, else nothing.
pub open spec fn evidence_of(input: SignedInput) -> Option<Seq<u8>> {
    if input.partial_sig is Some {
        Some(input.partial_sig->Some_0@)
    } else if input.key_path_sig is Some {
        Some(input.key_path_sig->Some_0@)
    } else {
        None
    }
}

/// Every input of the response yields ownership evidence.
pub open spec fn all_signed(inputs: Seq<SignedInput>) -> bool {
    forall|i: int| 0 <= i < inputs.len() ==> evidence_of(#[trigger] inputs[i]) is Some
}

/// The draft's binding check: if the draft recorded a request digest, the
/// signed response must hash to exactly that digest.
pub open spec fn hash_matches(doc: ProofDocument, response_hash: Seq<u8>) -> bool {
    doc.psbt_hash matches Some(stored) ==> stored@ == response_hash
}

/// Whether the base64 decoding that the digest check needs succeeds: a
/// draft that recorded no digest needs none.
pub open spec fn response_decodes(doc: ProofDocument, response: Seq<char>) -> bool {
    doc.psbt_hash is Some ==> base64_decoded(response) is Some
}

/// The draft's binding check, stated over the response text itself: if the
/// draft recorded a request digest, the response decodes as base64 and its
/// decoded bytes hash to that digest.
pub open spec fn response_bound(doc: ProofDocument, response: Seq<char>) -> bool {
    doc.psbt_hash matches Some(stored) ==> (base64_decoded(response) matches Some(bytes)
        && sha256_of(bytes) == stored@)
}

/// What bitcoin's PSBT decoder makes of a response text: `None` where the
/// text is not a decodable PSBT, otherwise one entry per input holding its
/// first partial signature and its key-path signature. Decoding, and the
/// per-input selection (the partial-signature map iterates in key order),
/// is a function of the text alone, so the outcome carries a name; the
/// trusted wrapper below ties it to the real decoder.
pub uninterp spec fn parsed_inputs(response: Seq<char>) -> Option<Seq<SignedInput>>;

/// Relies on bitcoin's `Psbt` base64 / binary decoding: hands each input's
/// first partial signature and its key-path signature out as plain byte
/// vectors, in input order. Deterministic in the response text.
#[verifier::external_body]
fn parse_signed_inputs(response: &str) -> (r: Option<Vec<SignedInput>>)
    ensures
        r is Some <==> parsed_inputs(response@) is Some,
        r matches Some(v) ==> Some(v@) == parsed_inputs(response@),
{
    let psbt = match <bitcoin::psbt::Psbt as core::str::FromStr>::from_str(response) {
        Ok(p) => p,
        Err(_) => return None,
    };
    Some(
        psbt.inputs
            .iter()
            .map(|input| SignedInput {
                partial_sig: input.partial_sigs.iter().next().map(|(_, sig)| (*sig).to_vec()),
                key_path_sig: input.tap_key_sig.map(|sig| sig.to_vec()),
            })
            .collect(),
    )
}

/// Merges a signed response, given as its hash and its parsed inputs, into
/// a draft document.
///
/// Fails with `TamperedRequest` exactly when the recorded digest differs
/// from the response hash, with `StructureAltered` exactly when the input
/// count differs from the commitment count, and with `MissingSignature(i)`
/// at the first input position carrying no evidence; on any failure the
/// document is left untouched. On success the ownership evidence is fully
/// populated, in input order, and every other field is unchanged.
pub fn merge_signed(
    doc: &mut ProofDocument,
    response_hash: &Vec<u8>,
    inputs: &Vec<SignedInput>,
) -> (r: Result<(), Error>)
    ensures
        r is Ok <==> hash_matches(*old(doc), response_hash@) && inputs@.len() == old(
            doc,
        ).commitments@.len() && all_signed(inputs@),
        r == Err::<(), Error>(Error::TamperedRequest) <==> !hash_matches(
            *old(doc),
            response_hash@,
        ),
        r == Err::<(), Error>(Error::StructureAltered) <==> hash_matches(*old(doc), response_hash@)
            && inputs@.len() != old(doc).commitments@.len(),
        r matches Err(e) ==> e matches Error::MissingSignature(idx) ==> {
            &&& hash_matches(*old(doc), response_hash@)
            &&& inputs@.len() == old(doc).commitments@.len()
            &&& 0 <= idx < inputs@.len()
            &&& evidence_of(inputs@[idx as int]) is None
            &&& forall|j: int| 0 <= j < idx ==> evidence_of(#[trigger] inputs@[j]) is Some
        },
        hash_matches(*old(doc), response_hash@) && inputs@.len() == old(doc).commitments@.len()
            && !all_signed(inputs@) ==> (r matches Err(e) && e matches Error::MissingSignature(_)),
        r is Err ==> *final(doc) == *old(doc),
        r is Ok ==> {
            &&& final(doc).ownership_proofs@.len() == inputs@.len()
            &&& forall|i: int| 0 <= i < inputs@.len() ==> (
            #[trigger] final(doc).ownership_proofs@[i])@ == evidence_of(inputs@[i])->Some_0
            &&& final(doc).block_height == old(doc).block_height
            &&& final(doc).utxo_root == old(doc).utxo_root
            &&& final(doc).commitments == old(doc).commitments
            &&& final(doc).range_proof == old(doc).range_proof
            &&& final(doc).surplus_commitment == old(doc).surplus_commitment
            &&& final(doc).min_amount == old(doc).min_amount
            &&& final(doc).psbt_hash == old(doc).psbt_hash
            &&& final(doc).signing_type == old(doc).signing_type
        },
{
    match &doc.psbt_hash {
        Some(stored) => {
            if !bytes_equal(stored, response_hash) {
                return Err(Error::TamperedRequest);
            }
        },
        None => {},
    }
    if inputs.len() != doc.commitments.len() {
        return Err(Error::StructureAltered);
    }
    let mut evidence: Vec<Vec<u8>> = Vec::new();
    let mut i: usize = 0;
    while i < inputs.len()
        invariant
            i <= inputs@.len(),
            evidence@.len() == i,
            forall|j: int| 0 <= j < i ==> evidence_of(#[trigger] inputs@[j]) is Some,
            forall|j: int| 0 <= j < i ==> (#[trigger] evidence@[j])@ == evidence_of(
                inputs@[j],
            )->Some_0,
            *doc == *old(doc),
            hash_matches(*old(doc), response_hash@),
            inputs@.len() == old(doc).commitments@.len(),
        decreases inputs@.len() - i,
    {
        let input: &SignedInput = &inputs[i];
        match &input.partial_sig {
            Some(sig) => {
                evidence.push(clone_bytes(sig));
            },
            None => {
                match &input.key_path_sig {
                    Some(sig) => {
                        evidence.push(clone_bytes(sig));
                    },
                    None => {
                        return Err(Error::MissingSignature(i));
                    },
                }
            },
        }
        i = i + 1;
    }
    doc.ownership_proofs = evidence;
    Ok(())
}

/// Merges a signed response, given as the text the external signer handed
/// back, into a draft document: decodes and hashes the response, extracts
/// its per-input signature material, and applies `merge_signed`.
///
/// Succeeds exactly when the response decodes as a PSBT whose inputs match
/// the draft — the digest binding holds, the input count equals the
/// commitment count, and every input carries evidence. Fails with
/// `MalformedResponse` exactly when the PSBT parse or the decoding the
/// digest check needs fails, with `TamperedRequest` exactly when the
/// decoded response does not hash to the recorded digest, with
/// `StructureAltered` exactly when the input count differs, and with
/// `MissingSignature(i)` at the first input carrying no evidence. On any
/// failure the document is left exactly as it was; on success the ownership
/// evidence is fully populated, in input order, with every other field
/// unchanged.
pub fn attach_sigs(doc: &mut ProofDocument, signed_response: &str) -> (r: Result<(), Error>)
    ensures
        r is Ok <==> (parsed_inputs(signed_response@) matches Some(ins) && response_bound(
            *old(doc),
            signed_response@,
        ) && ins.len() == old(doc).commitments@.len() && all_signed(ins)),
        r == Err::<(), Error>(Error::MalformedResponse) <==> (parsed_inputs(signed_response@)
            is None || !response_decodes(*old(doc), signed_response@)),
        r == Err::<(), Error>(Error::TamperedRequest) <==> (parsed_inputs(signed_response@) is Some
            && response_decodes(*old(doc), signed_response@) && !response_bound(
            *old(doc),
            signed_response@,
        )),
        r == Err::<(), Error>(Error::StructureAltered) <==> (parsed_inputs(signed_response@)
            matches Some(ins) && response_decodes(*old(doc), signed_response@) && response_bound(
            *old(doc),
            signed_response@,
        ) && ins.len() != old(doc).commitments@.len()),
        r matches Err(e) ==> e matches Error::MissingSignature(idx) ==> {
            &&& parsed_inputs(signed_response@) matches Some(ins)
            &&& response_bound(*old(doc), signed_response@)
            &&& ins.len() == old(doc).commitments@.len()
            &&& 0 <= idx < ins.len()
            &&& evidence_of(ins[idx as int]) is None
            &&& forall|j: int| 0 <= j < idx ==> evidence_of(#[trigger] ins[j]) is Some
        },
        r is Err ==> *final(doc) == *old(doc),
        r is Ok ==> {
            &&& final(doc).ownership_proofs@.len() == old(doc).commitments@.len()
            &&& (parsed_inputs(signed_response@) matches Some(ins) && forall|i: int|
                0 <= i < ins.len() ==> (#[trigger] final(doc).ownership_proofs@[i])@
                    == evidence_of(ins[i])->Some_0)
            &&& (old(doc).wf() ==> final(doc).wf())
            &&& final(doc).block_height == old(doc).block_height
            &&& final(doc).utxo_root == old(doc).utxo_root
            &&& final(doc).commitments == old(doc).commitments
            &&& final(doc).range_proof == old(doc).range_proof
            &&& final(doc).surplus_commitment == old(doc).surplus_commitment
            &&& final(doc).min_amount == old(doc).min_amount
            &&& final(doc).psbt_hash == old(doc).psbt_hash
            &&& final(doc).signing_type == old(doc).signing_type
        },
{
    let inputs = match parse_signed_inputs(signed_response) {
        Some(v) => v,
        None => {
            return Err(Error::MalformedResponse);
        },
    };
    let response_hash: Vec<u8> = if doc.psbt_hash.is_some() {
        match base64_decode(signed_response) {
            Some(bytes) => sha256(&bytes),
            None => {
                return Err(Error::MalformedResponse);
            },
        }
    } else {
        Vec::new()
    };
    merge_signed(doc, &response_hash, &inputs)
}

} // verus!
