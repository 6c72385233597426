//! Collecting the votes of a committee into a certificate.

use crate::certificate::{
    copy_signatures, first_fault, lemma_first_fault_extends, lemma_signer_keys_contains,
    signatures_validity, signer_keys, Certificate,
};
use crate::committee::{
    lemma_signers_power_at_most_total, lemma_signers_power_empty, lemma_signers_power_insert,
    Committee,
};
use crate::crypto::{ValidatorPublicKey, ValidatorSignature};
use crate::encoding::Encode;
use crate::error::ChainError;
use crate::round::Round;
use crate::value::{tagged_encoding, value_signed_bytes, CertificateValue, LiteValue};
use vstd::prelude::*;

verus! {

/// Collects signatures for one value in one round, and hands out a certificate
/// whenever the signatures collected hold a quorum.
///
/// A refused vote leaves the aggregator as it was. Votes that arrive after a
/// quorum are still recorded, and each of them yields a certificate that holds
/// all the signatures so far.
pub struct SignatureAggregator<'a, T> {
    value: T,
    round: Round,
    committee: &'a Committee,
    payload: Vec<u8>,
    signatures: Vec<(ValidatorPublicKey, ValidatorSignature)>,
    weight: u64,
}

impl<'a, T: CertificateValue> SignatureAggregator<'a, T> {
    pub closed spec fn spec_value(&self) -> T {
        self.value
    }

    pub closed spec fn spec_round(&self) -> Round {
        self.round
    }

    pub closed spec fn spec_committee(&self) -> Committee {
        *self.committee
    }

    /// The signatures accepted so far, in the order they came.
    pub closed spec fn spec_signatures(&self) -> Seq<(ValidatorPublicKey, ValidatorSignature)> {
        self.signatures@
    }

    /// The voting power of the signers accepted so far.
    pub closed spec fn spec_weight(&self) -> nat {
        self.weight as nat
    }

    /// Every accepted signer is a member, with a valid signature and no other
    /// entry, and the weight is their power.
    pub closed spec fn wf(&self) -> bool {
        &&& self.committee.wf()
        &&& self.payload@ == value_signed_bytes(&self.value, self.round)
        &&& first_fault(
            *self.committee,
            self.signatures@,
            signatures_validity(&self.value, self.round, self.signatures@),
            self.signatures@.len(),
        ) is None
        &&& self.weight == self.committee.power_of_signers(signer_keys(self.signatures@))
    }

    /// What appending a signature by `key` does, where `signature_is_valid` says
    /// whether it verifies: refuse an unknown signer, then a signer already
    /// recorded, then an invalid signature; else accept it.
    pub open spec fn append_outcome(&self, key: Seq<u8>, signature_is_valid: bool) -> Result<
        (),
        ChainError,
    > {
        if !self.spec_committee().is_member(key) {
            Err(ChainError::UnknownSigner)
        } else if signer_keys(self.spec_signatures()).contains(key) {
            Err(ChainError::DuplicateVote)
        } else if !signature_is_valid {
            Err(ChainError::InvalidSignature)
        } else {
            Ok(())
        }
    }

    /// How appending the signature of `key`, valid or not as `signature_is_valid`
    /// says, turns `pre` into `post` with the result `r`. A refusal changes
    /// nothing. An accepted signature is recorded last and adds its signer's
    /// power; a certificate comes exactly when the signers then hold a quorum,
    /// and it passes the certificate check.
    pub open spec fn appended(
        pre: Self,
        post: Self,
        key: ValidatorPublicKey,
        signature: ValidatorSignature,
        signature_is_valid: bool,
        r: Result<Option<Certificate<T>>, ChainError>,
    ) -> bool {
        &&& post.spec_value() == pre.spec_value()
        &&& post.spec_round() == pre.spec_round()
        &&& post.spec_committee() == pre.spec_committee()
        &&& (r is Err <==> pre.append_outcome(key@, signature_is_valid) is Err)
        &&& (r matches Err(e) ==> pre.append_outcome(key@, signature_is_valid) == Err::<
            (),
            ChainError,
        >(e) && post == pre)
        &&& (r is Ok ==> {
            &&& post.spec_signatures() == pre.spec_signatures().push((key, signature))
            &&& post.spec_weight() == pre.spec_weight() + pre.spec_committee().power(key@)
        })
        &&& (r matches Ok(o) ==> (o is Some <==> pre.spec_committee().is_quorum_spec(
            post.spec_weight(),
        )))
        &&& (r matches Ok(Some(c)) ==> {
            &&& c.spec_value().encoding() == pre.spec_value().encoding()
            &&& c.spec_round() == pre.spec_round()
            &&& c.spec_signatures() == post.spec_signatures()
            &&& c.check_outcome(pre.spec_committee()) == Ok::<(), ChainError>(())
        })
    }

    /// An aggregator for `value` in `round`, with no signature yet.
    pub fn new(value: T, round: Round, committee: &'a Committee) -> (r: Self)
        requires
            committee.wf(),
        ensures
            r.wf(),
            r.spec_value() == value,
            r.spec_round() == round,
            r.spec_committee() == *committee,
            r.spec_signatures().len() == 0,
            r.spec_weight() == 0,
    {
        let lite = LiteValue::new(&value);
        let payload = lite.signing_payload(round);
        proof {
            lemma_signers_power_empty(committee.members());
        }
        SignatureAggregator { value, round, committee, payload, signatures: Vec::new(), weight: 0 }
    }

    /// Appends the signature of `public_key` after checking it against this
    /// aggregator's value and round. Refuses an unknown signer, then a signer
    /// already recorded, then an invalid signature, and changes nothing then;
    /// else records it and returns a certificate when the signers hold a quorum.
    pub fn append(&mut self, public_key: ValidatorPublicKey, signature: ValidatorSignature) -> (r:
        Result<Option<Certificate<T>>, ChainError>)
        requires
            old(self).wf(),
        ensures
            final(self).wf(),
            Self::appended(
                *old(self),
                *final(self),
                public_key,
                signature,
                signature.verifies(
                    public_key,
                    value_signed_bytes(&old(self).spec_value(), old(self).spec_round()),
                ),
                r,
            ),
    {
        let valid = signature.check(&public_key, &self.payload);
        self.append_checked(public_key, signature, valid)
    }

    /// Appends the signature of `public_key`, given whether it verifies over
    /// this aggregator's value and round. Returns a certificate when the
    /// signers then hold a quorum.
    pub fn append_checked(
        &mut self,
        public_key: ValidatorPublicKey,
        signature: ValidatorSignature,
        signature_is_valid: bool,
    ) -> (r: Result<Option<Certificate<T>>, ChainError>)
        requires
            old(self).wf(),
            signature_is_valid == signature.verifies(
                public_key,
                value_signed_bytes(&old(self).spec_value(), old(self).spec_round()),
            ),
        ensures
            final(self).wf(),
            Self::appended(*old(self), *final(self), public_key, signature, signature_is_valid, r),
    {
        let power = match self.committee.power_of(&public_key) {
            Some(p) => p,
            None => {
                return Err(ChainError::UnknownSigner);
            },
        };
        let ghost sigs = self.signatures@;
        let mut j: usize = 0;
        while j < self.signatures.len()
            invariant
                *self == *old(self),
                old(self).wf(),
                old(self).spec_committee().is_member(public_key@),
                0 <= j <= sigs.len(),
                sigs == self.signatures@,
                forall|k: int| 0 <= k < j ==> sigs[k].0@ != public_key@,
            decreases sigs.len() - j,
        {
            if self.signatures[j].0.same_as(&public_key) {
                proof {
                    lemma_signer_keys_contains(sigs, public_key@);
                }
                return Err(ChainError::DuplicateVote);
            }
            j = j + 1;
        }
        proof {
            lemma_signer_keys_contains(sigs, public_key@);
        }
        if !signature_is_valid {
            return Err(ChainError::InvalidSignature);
        }
        proof {
            let c = *self.committee;
            let value = self.value;
            let round = self.round;
            let new_sigs = sigs.push((public_key, signature));
            let old_valid = signatures_validity(&value, round, sigs);
            let new_valid = signatures_validity(&value, round, new_sigs);
            assert(new_sigs.drop_last() =~= sigs);
            lemma_first_fault_extends(c, sigs, new_sigs, old_valid, new_valid, sigs.len());
            lemma_signers_power_insert(c.members(), signer_keys(sigs), public_key@);
            lemma_signers_power_at_most_total(c.members(), signer_keys(new_sigs));
            c.lemma_wf_facts();
        }
        self.signatures.push((public_key, signature));
        self.weight = self.weight + power;
        if self.committee.is_quorum(self.weight) {
            let certificate = Certificate::new(
                self.value.copied(),
                self.round,
                copy_signatures(&self.signatures),
            );
            proof {
                lemma_aggregated_certificate_checks(*self, certificate);
            }
            Ok(Some(certificate))
        } else {
            Ok(None)
        }
    }
}

/// With a committee of two validators of equal power, a first valid vote yields
/// no certificate, and a valid vote of the other validator then yields one.
pub proof fn lemma_equal_pair_aggregation<T: CertificateValue>(
    start: SignatureAggregator<T>,
    middle: SignatureAggregator<T>,
    end: SignatureAggregator<T>,
    first_key: ValidatorPublicKey,
    first_signature: ValidatorSignature,
    first_result: Result<Option<Certificate<T>>, ChainError>,
    second_key: ValidatorPublicKey,
    second_signature: ValidatorSignature,
    second_result: Result<Option<Certificate<T>>, ChainError>,
)
    requires
        start.wf(),
        start.spec_signatures().len() == 0,
        start.spec_committee().members().len() == 2,
        start.spec_committee().members()[0].1 == start.spec_committee().members()[1].1,
        first_key@ == start.spec_committee().members()[0].0@,
        second_key@ == start.spec_committee().members()[1].0@,
        SignatureAggregator::appended(
            start,
            middle,
            first_key,
            first_signature,
            true,
            first_result,
        ),
        middle.wf(),
        SignatureAggregator::appended(
            middle,
            end,
            second_key,
            second_signature,
            true,
            second_result,
        ),
    ensures
        first_result == Ok::<Option<Certificate<T>>, ChainError>(None),
        second_result matches Ok(Some(_)),
{
    let c = start.spec_committee();
    let m = c.members();
    c.lemma_equal_pair_needs_both();
    c.lemma_wf_facts();
    lemma_signers_power_empty(m);
    assert(start.spec_signatures() =~= Seq::empty());
    assert(m[0].0@ == c.members()[0].0@);
    assert(c.is_member(first_key@));
    assert(c.is_member(second_key@));
    assert(m[0].0@ != m[1].0@);
    assert(middle.spec_signatures() == seq![(first_key, first_signature)]);
    lemma_signer_keys_contains(middle.spec_signatures(), second_key@);
    assert(!signer_keys(middle.spec_signatures()).contains(second_key@)) by {
        if signer_keys(middle.spec_signatures()).contains(second_key@) {
            let j = choose|j: int|
                0 <= j < middle.spec_signatures().len() && middle.spec_signatures()[j].0@
                    == second_key@;
            assert(j == 0);
        }
    }
}

/// A certificate made of an aggregator's value (or a value with the same
/// encoding), its round and its signatures, once these hold a quorum, passes
/// the certificate check against the aggregator's committee.
pub proof fn lemma_aggregated_certificate_checks<T: CertificateValue>(
    aggregator: SignatureAggregator<T>,
    certificate: Certificate<T>,
)
    requires
        aggregator.wf(),
        certificate.spec_value().encoding() == aggregator.spec_value().encoding(),
        certificate.spec_round() == aggregator.spec_round(),
        certificate.spec_signatures() == aggregator.spec_signatures(),
        aggregator.spec_committee().is_quorum_spec(aggregator.spec_weight()),
    ensures
        certificate.check_outcome(aggregator.spec_committee()) == Ok::<(), ChainError>(()),
{
    let round = aggregator.spec_round();
    assert(tagged_encoding(&certificate.spec_value()) == tagged_encoding(&aggregator.spec_value()));
    assert(value_signed_bytes(&certificate.spec_value(), round) == value_signed_bytes(
        &aggregator.spec_value(),
        round,
    ));
    assert(signatures_validity(&certificate.spec_value(), round, certificate.spec_signatures())
        =~= signatures_validity(&aggregator.spec_value(), round, aggregator.spec_signatures()));
}

} // verus!
