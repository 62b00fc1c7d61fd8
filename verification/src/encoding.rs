//! Trusted bindings for the textual encodings the protocol touches: the
//! base64 transport form of a signing request, and the base58 text used when
//! a payload is shown as scannable frames.

use vstd::prelude::*;

verus! {

/// What the standard-alphabet base64 decoder makes of a text: `None` where
/// the text is not valid base64, otherwise the decoded bytes. Which texts
/// decode, and to what, is a function of the text alone, so the outcome
/// carries a name; the trusted wrapper below ties it to the real decoder.
pub uninterp spec fn base64_decoded(text: Seq<char>) -> Option<Seq<u8>>;

/// Relies on the base64 crate's standard-alphabet engine: decoding is
/// deterministic in the input text.
#[verifier::external_body]
pub fn base64_decode(text: &str) -> (r: Option<Vec<u8>>)
    ensures
        r is Some <==> base64_decoded(text@) is Some,
        r matches Some(bytes) ==> Some(bytes@) == base64_decoded(text@),
{
    match base64::Engine::decode(&base64::engine::general_purpose::STANDARD, text) {
        Ok(bytes) => Some(bytes),
        Err(_) => None,
    }
}

/// The base58 text of a byte string: a function of the bytes alone.
pub uninterp spec fn base58_encoded(data: Seq<u8>) -> Seq<char>;

/// Relies on the base58 crate's `ToBase58` for byte slices: encoding is
/// deterministic in the input bytes.
#[verifier::external_body]
pub fn base58_encode(data: &Vec<u8>) -> (text: String)
    ensures
        text@ == base58_encoded(data@),
{
    base58::ToBase58::to_base58(data.as_slice())
}

} // verus!
