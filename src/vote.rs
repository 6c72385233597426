//! A single validator's signed vote.

use crate::crypto::{
    ed25519_public_key_of, ed25519_signature_of, ValidatorPublicKey, ValidatorSecretKey,
    ValidatorSignature,
};
use crate::encoding::Encode;
use crate::error::ChainError;
use crate::round::Round;
use crate::value::LiteValue;
use vstd::prelude::*;

verus! {

/// A validator's signature over a lite value in a round.
#[derive(Clone, Copy, Debug, PartialEq, Eq, Hash)]
pub struct LiteVote {
    pub value: LiteValue,
    pub round: Round,
    pub public_key: ValidatorPublicKey,
    pub signature: ValidatorSignature,
}

impl LiteVote {
    /// Whether the signature is a valid one by `public_key` over `value` in `round`.
    pub open spec fn is_valid(self) -> bool {
        self.signature.verifies(self.public_key, self.value.signed_bytes(self.round))
    }

    /// The vote of the holder of `secret` for `value` in `round`.
    pub fn new(value: LiteValue, round: Round, secret: &ValidatorSecretKey) -> (r: LiteVote)
        ensures
            r.value == value,
            r.round == round,
            r.public_key@ == ed25519_public_key_of(secret@),
            r.signature@ == ed25519_signature_of(secret@, value.signed_bytes(round)),
            r.is_valid(),
    {
        let payload = value.signing_payload(round);
        let signature = ValidatorSignature::sign(secret, &payload);
        LiteVote { value, round, public_key: secret.public(), signature }
    }

    /// Checks the signature against the public key, the value and the round.
    pub fn check(&self) -> (r: Result<(), ChainError>)
        ensures
            r is Ok <==> self.is_valid(),
            r is Err ==> r == Err::<(), ChainError>(ChainError::InvalidSignature),
    {
        let payload = self.value.signing_payload(self.round);
        if self.signature.check(&self.public_key, &payload) {
            Ok(())
        } else {
            Err(ChainError::InvalidSignature)
        }
    }
}

impl Encode for LiteVote {
    open spec fn encoding(&self) -> Seq<u8> {
        self.value.encoding() + self.round.encoding() + self.public_key.encoding()
            + self.signature.encoding()
    }

    fn encode_into(&self, out: &mut Vec<u8>) {
        self.value.encode_into(out);
        self.round.encode_into(out);
        self.public_key.encode_into(out);
        self.signature.encode_into(out);
        assert(out@ =~= old(out)@ + self.encoding());
    }

    fn copied(&self) -> (r: Self) {
        *self
    }
}

} // verus!
