//! Error taxonomy: input errors surface immediately to the caller, protocol
//! errors are terminal for one verification attempt, workflow errors are
//! terminal for one signing transition and leave the document unchanged.

use vstd::prelude::*;

verus! {

/// Every way a proof-of-reserve operation can fail.
#[derive(Debug, Clone, Copy, PartialEq, Eq, Structural)]
pub enum Error {
    /// The unspent-output list handed to the commitment engine was empty.
    NoOutputs,
    /// The sum of the output values does not fit in 64 bits.
    AmountOverflow,
    /// The committed total is below the disclosed minimum.
    BelowThreshold,
    /// The document claims a block height beyond the trusted current height.
    StaleHeight,
    /// The recomputed Merkle root differs from the recorded one.
    RootMismatch,
    /// The range proof does not verify against the surplus commitment.
    RangeProofInvalid,
    /// The signed response does not hash to the digest recorded in the draft.
    TamperedRequest,
    /// The signed response has a different number of inputs than the draft.
    StructureAltered,
    /// The signed response carries no signature for the given input index.
    MissingSignature(usize),
    /// The signing request handed out for the draft was not valid base64.
    MalformedRequest,
    /// The signed response could not be decoded at all.
    MalformedResponse,
}

} // verus!
