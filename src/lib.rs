//! Votes and quorum certificates for a committee of weighted validators.
//!
//! Validators sign a lightweight commitment (`LiteValue`) to a block value in a
//! given consensus `Round`. A `SignatureAggregator` collects such signatures and
//! emits a `Certificate` once the signers hold a quorum of the committee's voting
//! power; the certificate can be re-checked later against the same `Committee`.

mod aggregator;
mod block;
mod certificate;
mod client;
mod committee;
mod crypto;
mod encoding;
mod error;
mod round;
mod value;
mod vote;

pub use aggregator::{
    lemma_aggregated_certificate_checks, lemma_equal_pair_aggregation, SignatureAggregator,
};
pub use block::{
    make_first_block, Amount, BlockExecutionOutcome, ChainId, Event, ExecutedBlock,
    OperationResult, Operation, OutgoingMessage, ProposedBlock, ATTOS_PER_TOKEN,
};
pub use certificate::{
    copy_signatures, lemma_equal_pair_certificate_needs_both, tally, Certificate,
};
pub use client::{truncate_query_output, ApplicationWrapper, ClientWrapper, OnClientDrop};
pub use committee::Committee;
pub use crypto::{bytes_equal, CryptoHash, ValidatorPublicKey, ValidatorSecretKey, ValidatorSignature};
pub use encoding::Encode;
pub use error::ChainError;
pub use round::Round;
pub use value::{
    lemma_kinds_separate_commitments, lemma_kinds_separate_signed_bytes, CertificateKind,
    CertificateValue, ConfirmedBlock, LiteValue, ValidatedBlock,
};
pub use vote::LiteVote;
