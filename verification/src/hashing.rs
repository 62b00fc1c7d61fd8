//! The fixed cryptographic hash used throughout the protocol: SHA-256 for
//! Merkle node hashing and for fingerprinting a signing request.

use vstd::prelude::*;

verus! {

/// The digest that SHA-256 assigns to a byte sequence. The digest is a
/// function of the bytes alone, so it carries a name rather than a
/// reimplementation; the trusted wrapper below ties the name to the real
/// implementation.
pub uninterp spec fn sha256_of(data: Seq<u8>) -> Seq<u8>;

/// Relies on sha2's `Sha256`: a 32-byte digest, a function of the input
/// bytes alone.
#[verifier::external_body]
pub fn sha256(data: &Vec<u8>) -> (digest: Vec<u8>)
    ensures
        digest@ == sha256_of(data@),
        digest@.len() == 32,
{
    let mut hasher = <sha2::Sha256 as sha2::Digest>::new();
    sha2::Digest::update(&mut hasher, data.as_slice());
    sha2::Digest::finalize(hasher).to_vec()
}

} // verus!
