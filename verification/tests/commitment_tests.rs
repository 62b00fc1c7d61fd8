use reserve_proof::commitment::{commit_utxos, Utxo};
use reserve_proof::errors::Error;

fn utxo(vout: u32, value: u64) -> Utxo {
    Utxo { txid: vec![0u8; 32], vout, value }
}

#[test]
fn commit_empty_fails() {
    let utxos: Vec<Utxo> = Vec::new();
    assert_eq!(commit_utxos(&utxos).err(), Some(Error::NoOutputs));
}

#[test]
fn commit_sums_values() {
    let utxos = vec![utxo(0, 10), utxo(1, 20), utxo(2, 15)];
    let (commitments, total) = commit_utxos(&utxos).unwrap();
    assert_eq!(total, 45);
    assert_eq!(commitments.len(), 3);
    for c in &commitments {
        assert_eq!(c.len(), 32);
    }
}

#[test]
fn commit_overflow_fails() {
    let utxos = vec![utxo(0, u64::MAX), utxo(1, 1)];
    assert_eq!(commit_utxos(&utxos).err(), Some(Error::AmountOverflow));
}
