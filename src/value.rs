//! The two kinds of block values that validators sign, and their lightweight
//! commitments.

use crate::block::ExecutedBlock;
use crate::crypto::{keccak256_of, CryptoHash};
use crate::encoding::Encode;
use crate::round::Round;
use vstd::prelude::*;

verus! {

/// What a certificate attests of a block.
#[derive(Clone, Copy, Debug, PartialEq, Eq, Structural, Hash)]
pub enum CertificateKind {
    /// The block was validated: a quorum may go on to confirm it.
    Validated,
    /// The block is confirmed: it is final.
    Confirmed,
}

impl CertificateKind {
    /// The byte that stands for this kind in hashed and signed data.
    pub open spec fn tag(self) -> u8 {
        match self {
            CertificateKind::Validated => 1,
            CertificateKind::Confirmed => 2,
        }
    }

    /// The byte that stands for this kind in hashed and signed data.
    pub fn tag_byte(&self) -> (r: u8)
        ensures
            r == self.tag(),
    {
        match self {
            CertificateKind::Validated => 1,
            CertificateKind::Confirmed => 2,
        }
    }
}

/// A value that validators can certify.
pub trait CertificateValue: Encode {
    /// The kind of certificate that this type of value goes into.
    spec fn kind_spec() -> CertificateKind;

    /// The kind of certificate that this type of value goes into.
    fn kind() -> (r: CertificateKind)
        ensures
            r == Self::kind_spec(),
    ;
}

/// A block that a quorum has confirmed.
#[derive(Clone, Debug, PartialEq, Eq, Hash)]
pub struct ConfirmedBlock(pub ExecutedBlock);

/// A block that a quorum has validated.
#[derive(Clone, Debug, PartialEq, Eq, Hash)]
pub struct ValidatedBlock(pub ExecutedBlock);

impl ConfirmedBlock {
    pub fn new(block: ExecutedBlock) -> (r: ConfirmedBlock)
        ensures
            r.0 == block,
    {
        ConfirmedBlock(block)
    }
}

impl ValidatedBlock {
    pub fn new(block: ExecutedBlock) -> (r: ValidatedBlock)
        ensures
            r.0 == block,
    {
        ValidatedBlock(block)
    }
}

impl Encode for ConfirmedBlock {
    open spec fn encoding(&self) -> Seq<u8> {
        self.0.encoding()
    }

    fn encode_into(&self, out: &mut Vec<u8>) {
        self.0.encode_into(out);
    }

    fn copied(&self) -> (r: Self) {
        ConfirmedBlock(self.0.copied())
    }
}

impl Encode for ValidatedBlock {
    open spec fn encoding(&self) -> Seq<u8> {
        self.0.encoding()
    }

    fn encode_into(&self, out: &mut Vec<u8>) {
        self.0.encode_into(out);
    }

    fn copied(&self) -> (r: Self) {
        ValidatedBlock(self.0.copied())
    }
}

impl CertificateValue for ConfirmedBlock {
    open spec fn kind_spec() -> CertificateKind {
        CertificateKind::Confirmed
    }

    fn kind() -> (r: CertificateKind) {
        CertificateKind::Confirmed
    }
}

impl CertificateValue for ValidatedBlock {
    open spec fn kind_spec() -> CertificateKind {
        CertificateKind::Validated
    }

    fn kind() -> (r: CertificateKind) {
        CertificateKind::Validated
    }
}

/// The bytes that identify `value`: its kind's tag, then its encoding.
pub open spec fn tagged_encoding<T: CertificateValue>(value: &T) -> Seq<u8> {
    seq![T::kind_spec().tag()] + value.encoding()
}

/// The bytes that a vote for `value` in `round` signs: the hash of the value's
/// tagged encoding, the kind's tag, then the round.
pub open spec fn value_signed_bytes<T: CertificateValue>(value: &T, round: Round) -> Seq<u8> {
    keccak256_of(tagged_encoding(value)) + seq![T::kind_spec().tag()] + round.encoding()
}

/// A lightweight commitment to a value: the hash of its tagged encoding and its kind.
#[derive(Clone, Copy, Debug, PartialEq, Eq, Hash)]
pub struct LiteValue {
    pub value_hash: CryptoHash,
    pub kind: CertificateKind,
}

impl LiteValue {
    /// Whether this commits to `value`.
    pub open spec fn commits_to<T: CertificateValue>(self, value: &T) -> bool {
        &&& self.value_hash@ == keccak256_of(tagged_encoding(value))
        &&& self.kind == T::kind_spec()
    }

    /// The commitment to `value`.
    pub fn new<T: CertificateValue>(value: &T) -> (r: LiteValue)
        ensures
            r.commits_to(value),
            forall|round: Round| #[trigger] r.signed_bytes(round) == value_signed_bytes(value, round),
    {
        let kind = T::kind();
        let mut bytes: Vec<u8> = Vec::new();
        bytes.push(kind.tag_byte());
        value.encode_into(&mut bytes);
        assert(bytes@ =~= tagged_encoding(value));
        LiteValue { value_hash: CryptoHash::of_bytes(&bytes), kind }
    }

    /// The bytes that a vote for this value in `round` signs: the value hash,
    /// the kind's tag, then the round.
    pub open spec fn signed_bytes(self, round: Round) -> Seq<u8> {
        self.value_hash@ + seq![self.kind.tag()] + round.encoding()
    }

    /// The bytes that a vote for this value in `round` signs.
    pub fn signing_payload(&self, round: Round) -> (r: Vec<u8>)
        ensures
            r@ == self.signed_bytes(round),
    {
        let mut bytes: Vec<u8> = Vec::new();
        self.value_hash.encode_into(&mut bytes);
        bytes.push(self.kind.tag_byte());
        round.encode_into(&mut bytes);
        assert(bytes@ =~= self.signed_bytes(round));
        bytes
    }
}

impl Encode for CertificateKind {
    open spec fn encoding(&self) -> Seq<u8> {
        seq![self.tag()]
    }

    fn encode_into(&self, out: &mut Vec<u8>) {
        out.push(self.tag_byte());
    }

    fn copied(&self) -> (r: Self) {
        *self
    }
}

impl Encode for LiteValue {
    open spec fn encoding(&self) -> Seq<u8> {
        self.value_hash.encoding() + self.kind.encoding()
    }

    fn encode_into(&self, out: &mut Vec<u8>) {
        self.value_hash.encode_into(out);
        self.kind.encode_into(out);
        assert(out@ =~= old(out)@ + self.encoding());
    }

    fn copied(&self) -> (r: Self) {
        *self
    }
}

/// Confirming and validating the same block commit to different lite values,
/// and their hashes are taken over different bytes.
pub proof fn lemma_kinds_separate_commitments(
    block: ExecutedBlock,
    confirmed: LiteValue,
    validated: LiteValue,
)
    requires
        confirmed.commits_to(&ConfirmedBlock(block)),
        validated.commits_to(&ValidatedBlock(block)),
    ensures
        confirmed != validated,
        tagged_encoding(&ConfirmedBlock(block)) != tagged_encoding(&ValidatedBlock(block)),
{
    assert(tagged_encoding(&ConfirmedBlock(block))[0] != tagged_encoding(&ValidatedBlock(block))[0]);
}

/// Lite values of different kinds are signed over different bytes, in any two rounds.
pub proof fn lemma_kinds_separate_signed_bytes(a: LiteValue, b: LiteValue, ra: Round, rb: Round)
    requires
        a.kind != b.kind,
    ensures
        a.signed_bytes(ra) != b.signed_bytes(rb),
{
    assert(a.signed_bytes(ra)[32] == a.kind.tag());
    assert(b.signed_bytes(rb)[32] == b.kind.tag());
}

} // verus!
