//! Proof of reserve: evidence that an entity controls on-chain funds meeting
//! or exceeding a disclosed minimum, without revealing the exact balance.
//!
//! The library turns a set of unspent outputs into a tamper-evident aggregate
//! commitment (a Merkle root over per-output Pedersen commitments), a
//! zero-knowledge range proof that the surplus over the disclosed minimum is
//! non-negative, and a draft / signed / finalized workflow that binds
//! externally produced signatures to the exact request shown to the signer.

pub mod commitment;
pub mod document;
pub mod encoding;
pub mod errors;
pub mod frames;
pub mod hashing;
pub mod merkle;
pub mod surplus;
pub mod workflow;
