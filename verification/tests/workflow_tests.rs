use base64::Engine as _;
use reserve_proof::commitment::Utxo;
use reserve_proof::document::generate_proof;
use reserve_proof::errors::Error;
use reserve_proof::workflow::{attach_sigs, merge_signed, SignedInput};
use sha2::{Digest, Sha256};

fn utxo(vout: u32, value: u64) -> Utxo {
    Utxo { txid: vec![3u8; 32], vout, value }
}

fn draft_with_hash(n_outputs: u32, digest: Option<Vec<u8>>) -> reserve_proof::document::ProofDocument {
    let mut utxos = Vec::new();
    for i in 0..n_outputs {
        utxos.push(utxo(i, 10));
    }
    let mut doc = generate_proof(&utxos, 0, 1).unwrap();
    doc.psbt_hash = digest;
    doc
}

fn signed(partial: Option<Vec<u8>>, key_path: Option<Vec<u8>>) -> SignedInput {
    SignedInput { partial_sig: partial, key_path_sig: key_path }
}

#[test]
fn workflow_tamper_detected() {
    let recorded = vec![7u8; 32];
    let mut doc = draft_with_hash(2, Some(recorded));
    let other_hash = vec![8u8; 32];
    let inputs = vec![signed(Some(vec![1]), None), signed(Some(vec![2]), None)];
    assert_eq!(
        merge_signed(&mut doc, &other_hash, &inputs).err(),
        Some(Error::TamperedRequest)
    );
    assert!(doc.ownership_proofs.is_empty());
}

#[test]
fn workflow_structure_altered() {
    let mut doc = draft_with_hash(2, None);
    let inputs = vec![signed(Some(vec![1]), None)];
    let hash = Vec::new();
    assert_eq!(
        merge_signed(&mut doc, &hash, &inputs).err(),
        Some(Error::StructureAltered)
    );
    assert!(doc.ownership_proofs.is_empty());
}

#[test]
fn workflow_missing_signature_is_atomic() {
    let mut doc = draft_with_hash(3, None);
    let inputs = vec![
        signed(Some(vec![1]), None),
        signed(None, None),
        signed(Some(vec![3]), None),
    ];
    let hash = Vec::new();
    assert_eq!(
        merge_signed(&mut doc, &hash, &inputs).err(),
        Some(Error::MissingSignature(1))
    );
    assert!(doc.ownership_proofs.is_empty());
}

#[test]
fn workflow_merge_populates_in_order() {
    let recorded = vec![5u8; 32];
    let mut doc = draft_with_hash(3, Some(recorded.clone()));
    let inputs = vec![
        signed(Some(vec![10, 11]), None),
        signed(None, Some(vec![20])),
        // a partial signature is preferred over a key-path signature
        signed(Some(vec![30]), Some(vec![31])),
    ];
    assert!(merge_signed(&mut doc, &recorded, &inputs).is_ok());
    assert_eq!(
        doc.ownership_proofs,
        vec![vec![10u8, 11u8], vec![20u8], vec![30u8]]
    );
}

#[test]
fn attach_rejects_undecodable_response() {
    let mut doc = draft_with_hash(1, Some(vec![9u8; 32]));
    assert_eq!(
        attach_sigs(&mut doc, "not a psbt at all").err(),
        Some(Error::MalformedResponse)
    );
    assert!(doc.ownership_proofs.is_empty());
    assert_eq!(doc.psbt_hash, Some(vec![9u8; 32]));
}

fn key_path_signed_psbt() -> (String, Vec<u8>) {
    let tx = bitcoin::Transaction {
        version: 2,
        lock_time: bitcoin::absolute::LockTime::ZERO,
        input: vec![bitcoin::TxIn {
            previous_output: bitcoin::OutPoint::null(),
            script_sig: bitcoin::ScriptBuf::new(),
            sequence: bitcoin::Sequence::MAX,
            witness: bitcoin::Witness::default(),
        }],
        output: Vec::new(),
    };
    let mut psbt = bitcoin::psbt::Psbt::from_unsigned_tx(tx).unwrap();
    let sig_bytes = vec![0x44u8; 64];
    psbt.inputs[0].tap_key_sig =
        Some(bitcoin::taproot::Signature::from_slice(&sig_bytes).unwrap());
    (psbt.to_string(), sig_bytes)
}

#[test]
fn attach_extracts_key_path_evidence() {
    let (response, sig_bytes) = key_path_signed_psbt();
    let mut doc = draft_with_hash(1, None);
    assert!(attach_sigs(&mut doc, &response).is_ok());
    assert_eq!(doc.ownership_proofs, vec![sig_bytes]);
}

#[test]
fn attach_checks_recorded_digest() {
    let (response, _) = key_path_signed_psbt();
    let decoded = base64::engine::general_purpose::STANDARD
        .decode(&response)
        .unwrap();
    let mut h = Sha256::new();
    h.update(&decoded);
    let digest: Vec<u8> = h.finalize().to_vec();

    let mut doc = draft_with_hash(1, Some(digest));
    assert!(attach_sigs(&mut doc, &response).is_ok());
    assert_eq!(doc.ownership_proofs.len(), 1);

    let mut tampered = draft_with_hash(1, Some(vec![0u8; 32]));
    assert_eq!(
        attach_sigs(&mut tampered, &response).err(),
        Some(Error::TamperedRequest)
    );
    assert!(tampered.ownership_proofs.is_empty());
}
