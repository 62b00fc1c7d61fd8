use reserve_proof::merkle::merkle_root;
use sha2::{Digest, Sha256};

fn hash_pair(a: &[u8], b: &[u8]) -> Vec<u8> {
    let mut h = Sha256::new();
    h.update(a);
    h.update(b);
    h.finalize().to_vec()
}

#[test]
fn merkle_root_single_leaf() {
    let leaf = vec![42u8; 32];
    assert_eq!(merkle_root(&vec![leaf.clone()]), leaf);
}

#[test]
fn merkle_root_two_leaves() {
    let a = vec![1u8; 32];
    let b = vec![2u8; 32];
    let expected = hash_pair(&a, &b);
    assert_eq!(merkle_root(&vec![a, b]), expected);
}

#[test]
fn merkle_root_empty_is_zero() {
    let leaves: Vec<Vec<u8>> = Vec::new();
    assert_eq!(merkle_root(&leaves), vec![0u8; 32]);
}

#[test]
fn merkle_root_deterministic() {
    let leaves = vec![vec![9u8; 32], vec![8u8; 32], vec![7u8; 32], vec![6u8; 32]];
    assert_eq!(merkle_root(&leaves), merkle_root(&leaves));
}

#[test]
fn merkle_root_order_sensitive() {
    let a = vec![1u8; 32];
    let b = vec![2u8; 32];
    let root_ab = merkle_root(&vec![a.clone(), b.clone()]);
    let root_ba = merkle_root(&vec![b, a]);
    assert_ne!(root_ab, root_ba);
}

#[test]
fn merkle_root_odd_duplicates_last() {
    let a = vec![1u8; 32];
    let b = vec![2u8; 32];
    let c = vec![3u8; 32];
    let left = hash_pair(&a, &b);
    let right = hash_pair(&c, &c);
    let expected = hash_pair(&left, &right);
    assert_eq!(merkle_root(&vec![a, b, c]), expected);
}
