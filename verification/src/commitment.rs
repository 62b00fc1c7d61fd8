//! Per-output value commitments: each unspent output's value is bound into a
//! hiding, additively homomorphic Pedersen commitment with a fresh random
//! blinding scalar, while the total value is accumulated with an explicit
//! overflow check.

use vstd::prelude::*;

use crate::errors::Error;
use crate::merkle::byte_views;

verus! {

/// One unspent output as read from the chain-state oracle: transaction id,
/// output index, and value in the smallest currency unit. Never mutated.
pub struct Utxo {
    pub txid: Vec<u8>,
    pub vout: u32,
    pub value: u64,
}

/// The sum of the values of a list of unspent outputs, as an unbounded
/// integer.
pub open spec fn sum_values(s: Seq<Utxo>) -> int
    decreases s.len(),
{
    if s.len() == 0 {
        0
    } else {
        sum_values(s.drop_last()) + s.last().value
    }
}

/// The sum of a prefix never exceeds the sum of the whole list, since every
/// value is non-negative.
pub proof fn lemma_sum_prefix(s: Seq<Utxo>, i: int)
    requires
        0 <= i <= s.len(),
    ensures
        0 <= sum_values(s.take(i)) <= sum_values(s),
    decreases s.len(),
{
    if s.len() == 0 {
        assert(s.take(i) =~= s);
    } else if i == s.len() {
        assert(s.take(i) =~= s);
        lemma_sum_prefix(s.drop_last(), s.len() - 1);
        assert(s.drop_last().take(s.len() - 1) =~= s.drop_last());
    } else {
        assert(s.take(i) =~= s.drop_last().take(i));
        lemma_sum_prefix(s.drop_last(), i);
    }
}

/// Relies on bulletproofs' `PedersenGens::commit` under the default
/// generators, with a blinding scalar drawn fresh from the operating
/// system's randomness source: the result is a compressed Ristretto point of
/// 32 bytes. The blinding scalar is ephemeral and never leaves this call, so
/// nothing beyond the length is claimed of the commitment bytes.
#[verifier::external_body]
fn pedersen_commit_random(value: u64) -> (commitment: Vec<u8>)
    ensures
        commitment@.len() == 32,
{
    let generators = bulletproofs::PedersenGens::default();
    let blinding = curve25519_dalek_ng::scalar::Scalar::random(&mut rand::rngs::OsRng);
    generators
        .commit(curve25519_dalek_ng::scalar::Scalar::from(value), blinding)
        .compress()
        .to_bytes()
        .to_vec()
}

/// Commits every output's value and accumulates the total.
///
/// Fails with `NoOutputs` on an empty list, and with `AmountOverflow` when
/// the sum of the values does not fit in 64 bits; otherwise returns one
/// 32-byte commitment per output, in input order, together with the total.
pub fn commit_utxos(utxos: &Vec<Utxo>) -> (r: Result<(Vec<Vec<u8>>, u64), Error>)
    ensures
        r is Ok <==> utxos@.len() > 0 && sum_values(utxos@) <= u64::MAX,
        r == Err::<(Vec<Vec<u8>>, u64), Error>(Error::NoOutputs) <==> utxos@.len() == 0,
        r == Err::<(Vec<Vec<u8>>, u64), Error>(Error::AmountOverflow) <==> utxos@.len() > 0
            && sum_values(utxos@) > u64::MAX,
        r matches Ok((commitments, total)) ==> {
            &&& commitments@.len() == utxos@.len()
            &&& crate::merkle::all_len_32(byte_views(commitments@))
            &&& total == sum_values(utxos@)
        },
{
    if utxos.len() == 0 {
        return Err(Error::NoOutputs);
    }
    let mut commitments: Vec<Vec<u8>> = Vec::new();
    let mut total: u64 = 0;
    let mut i: usize = 0;
    while i < utxos.len()
        invariant
            i <= utxos@.len(),
            commitments@.len() == i,
            forall|j: int| 0 <= j < i ==> (#[trigger] commitments@[j])@.len() == 32,
            total == sum_values(utxos@.take(i as int)),
        decreases utxos@.len() - i,
    {
        let value = utxos[i].value;
        assert(utxos@.take(i + 1 as int).drop_last() =~= utxos@.take(i as int));
        assert(utxos@.take(i + 1 as int).last() == utxos@[i as int]);
        if total > u64::MAX - value {
            proof {
                lemma_sum_prefix(utxos@, i + 1 as int);
            }
            return Err(Error::AmountOverflow);
        }
        total = total + value;
        let c = pedersen_commit_random(value);
        commitments.push(c);
        i = i + 1;
    }
    assert(utxos@.take(utxos@.len() as int) =~= utxos@);
    Ok((commitments, total))
}

} // verus!
