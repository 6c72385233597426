//! The ways a vote or a certificate is refused.

use vstd::prelude::*;

verus! {

/// Why a vote or a certificate was refused.
#[derive(Clone, Copy, Debug, PartialEq, Eq, Structural, Hash)]
pub enum ChainError {
    /// The key is not a member of the committee.
    UnknownSigner,
    /// The aggregator already holds a vote from this key.
    DuplicateVote,
    /// A certificate lists the same key twice.
    DuplicateSigner,
    /// A signature does not verify.
    InvalidSignature,
    /// The signers do not hold a quorum of the voting power.
    InsufficientQuorum,
}

} // verus!
