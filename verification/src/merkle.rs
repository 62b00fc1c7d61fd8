//! Merkle aggregation of an ordered list of commitments into one 32-byte
//! root. Levels are hashed pairwise bottom-up; a level of odd length
//! duplicates its last node to pair with itself (a documented tie-break of
//! this protocol, kept as specified). There is no inclusion-proof format:
//! whole-list recomputation is the only verification mode.

use vstd::prelude::*;

use crate::hashing::{sha256, sha256_of};

verus! {

/// The byte sequences held by a list of byte vectors, in order.
pub open spec fn byte_views(s: Seq<Vec<u8>>) -> Seq<Seq<u8>> {
    s.map_values(|v: Vec<u8>| v@)
}

/// Every sequence in the list is exactly 32 bytes long.
pub open spec fn all_len_32(s: Seq<Seq<u8>>) -> bool {
    forall|i: int| 0 <= i < s.len() ==> (#[trigger] s[i]).len() == 32
}

/// The degenerate root assigned to an empty leaf list.
pub open spec fn zero_digest() -> Seq<u8> {
    Seq::new(32, |i: int| 0u8)
}

/// A level padded to even length by duplicating its last node.
pub open spec fn pad_even(level: Seq<Seq<u8>>) -> Seq<Seq<u8>> {
    if level.len() % 2 == 1 {
        level.push(level.last())
    } else {
        level
    }
}

/// One round of pairwise hashing over an even-length level.
pub open spec fn hash_level(level: Seq<Seq<u8>>) -> Seq<Seq<u8>> {
    Seq::new(level.len() / 2, |i: int| sha256_of(level[2 * i] + level[2 * i + 1]))
}

/// The Merkle root of an ordered leaf list: the all-zero digest for no
/// leaves, the leaf itself for one leaf, and otherwise the root of the next
/// level up.
pub open spec fn merkle_spec(leaves: Seq<Seq<u8>>) -> Seq<u8>
    decreases leaves.len(),
{
    if leaves.len() == 0 {
        zero_digest()
    } else if leaves.len() == 1 {
        leaves[0]
    } else {
        merkle_spec(hash_level(pad_even(leaves)))
    }
}

/// An owned copy of a byte vector, element for element.
pub fn clone_bytes(v: &Vec<u8>) -> (r: Vec<u8>)
    ensures
        r@ == v@,
{
    let mut r: Vec<u8> = Vec::new();
    let mut i: usize = 0;
    while i < v.len()
        invariant
            i <= v@.len(),
            r@ == v@.take(i as int),
        decreases v@.len() - i,
    {
        r.push(v[i]);
        assert(v@.take(i + 1 as int) =~= v@.take(i as int).push(v@[i as int]));
        i = i + 1;
    }
    assert(v@.take(v@.len() as int) =~= v@);
    r
}

/// Folds an ordered list of leaves into the single root that `merkle_spec`
/// assigns to it. Deterministic and pure: equal inputs give equal roots.
pub fn merkle_root(leaves: &Vec<Vec<u8>>) -> (root: Vec<u8>)
    ensures
        root@ == merkle_spec(byte_views(leaves@)),
        all_len_32(byte_views(leaves@)) ==> root@.len() == 32,
{
    if leaves.len() == 0 {
        let mut z: Vec<u8> = Vec::new();
        while z.len() < 32
            invariant
                z@.len() <= 32,
                forall|j: int| 0 <= j < z@.len() ==> z@[j] == 0u8,
            decreases 32 - z@.len(),
        {
            z.push(0u8);
        }
        assert(z@ =~= zero_digest());
        return z;
    }
    let mut level: Vec<Vec<u8>> = Vec::new();
    let mut i: usize = 0;
    while i < leaves.len()
        invariant
            i <= leaves@.len(),
            level@.len() == i,
            forall|j: int| 0 <= j < i ==> (#[trigger] level@[j])@ == leaves@[j]@,
        decreases leaves@.len() - i,
    {
        let leaf = clone_bytes(&leaves[i]);
        level.push(leaf);
        i = i + 1;
    }
    assert(byte_views(level@) =~= byte_views(leaves@));

    while level.len() > 1
        invariant
            1 <= level@.len(),
            merkle_spec(byte_views(level@)) == merkle_spec(byte_views(leaves@)),
            all_len_32(byte_views(leaves@)) ==> all_len_32(byte_views(level@)),
        decreases level@.len(),
    {
        let ghost pre = byte_views(level@);
        if level.len() % 2 == 1 {
            let last = clone_bytes(&level[level.len() - 1]);
            level.push(last);
        }
        assert(byte_views(level@) =~= pad_even(pre));
        let ghost padded = pad_even(pre);
        let half = level.len() / 2;
        let mut next: Vec<Vec<u8>> = Vec::new();
        let mut j: usize = 0;
        while j < half
            invariant
                j <= half,
                byte_views(level@) == padded,
                level@.len() == 2 * half,
                half <= usize::MAX / 2,
                next@.len() == j,
                forall|k: int| 0 <= k < j ==> (#[trigger] next@[k])@ == sha256_of(
                    padded[2 * k] + padded[2 * k + 1],
                ),
                forall|k: int| 0 <= k < j ==> (#[trigger] next@[k])@.len() == 32,
            decreases half - j,
        {
            let mut buf = clone_bytes(&level[2 * j]);
            let mut right = clone_bytes(&level[2 * j + 1]);
            buf.append(&mut right);
            assert(buf@ == padded[2 * j as int] + padded[2 * j + 1 as int]);
            let parent = sha256(&buf);
            next.push(parent);
            j = j + 1;
        }
        assert(byte_views(next@) =~= hash_level(padded));
        assert(merkle_spec(pre) == merkle_spec(hash_level(pad_even(pre))));
        level = next;
    }
    assert(merkle_spec(byte_views(level@)) == byte_views(level@)[0]);
    let root = clone_bytes(&level[0]);
    root
}

/// Law: the Merkle root is deterministic — equal leaf lists give equal
/// roots.
pub proof fn lemma_merkle_deterministic(l1: Seq<Seq<u8>>, l2: Seq<Seq<u8>>)
    requires
        l1 == l2,
    ensures
        merkle_spec(l1) == merkle_spec(l2),
{
}

/// Law: the root of a single-leaf list is the leaf itself.
pub proof fn lemma_merkle_single(leaf: Seq<u8>)
    ensures
        merkle_spec(seq![leaf]) == leaf,
{
}

/// Law: the root of a two-leaf list `[a, b]` is `sha256(a ++ b)`.
pub proof fn lemma_merkle_pair(a: Seq<u8>, b: Seq<u8>)
    ensures
        merkle_spec(seq![a, b]) == sha256_of(a + b),
{
    let l = seq![a, b];
    let inner = seq![sha256_of(a + b)];
    assert(pad_even(l) == l);
    assert(hash_level(l) =~= inner);
    assert(merkle_spec(inner) == sha256_of(a + b));
    assert(merkle_spec(l) == merkle_spec(hash_level(pad_even(l))));
}

/// Law: a three-leaf list `[a, b, c]` duplicates its last leaf before the
/// first hashing round, so its root is
/// `sha256(sha256(a ++ b) ++ sha256(c ++ c))`.
pub proof fn lemma_merkle_odd_duplicates_last(a: Seq<u8>, b: Seq<u8>, c: Seq<u8>)
    ensures
        merkle_spec(seq![a, b, c]) == sha256_of(sha256_of(a + b) + sha256_of(c + c)),
{
    let l = seq![a, b, c];
    assert(pad_even(l) =~= seq![a, b, c, c]);
    assert(hash_level(seq![a, b, c, c]) =~= seq![sha256_of(a + b), sha256_of(c + c)]);
    lemma_merkle_pair(sha256_of(a + b), sha256_of(c + c));
}

} // verus!
