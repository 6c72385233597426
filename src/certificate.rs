//! Certificates: a value, a round, and the signatures of a quorum.

use crate::committee::Committee;
use crate::crypto::{ValidatorPublicKey, ValidatorSignature};
use crate::encoding::{concat_encodings, le_bytes, Encode};
use crate::error::ChainError;
use crate::round::Round;
use crate::value::{value_signed_bytes, CertificateValue, LiteValue};
use vstd::prelude::*;

verus! {

/// The keys that sign in `sigs`.
pub open spec fn signer_keys(sigs: Seq<(ValidatorPublicKey, ValidatorSignature)>) -> Set<Seq<u8>>
    decreases sigs.len(),
{
    if sigs.len() == 0 {
        Set::empty()
    } else {
        signer_keys(sigs.drop_last()).insert(sigs.last().0@)
    }
}

/// A key signs in `sigs` exactly when some entry carries it.
pub proof fn lemma_signer_keys_contains(
    sigs: Seq<(ValidatorPublicKey, ValidatorSignature)>,
    key: Seq<u8>,
)
    ensures
        signer_keys(sigs).contains(key) <==> exists|j: int| 0 <= j < sigs.len() && sigs[j].0@ == key,
    decreases sigs.len(),
{
    if sigs.len() > 0 {
        let d = sigs.drop_last();
        lemma_signer_keys_contains(d, key);
        if signer_keys(d).contains(key) {
            let j = choose|j: int| 0 <= j < d.len() && d[j].0@ == key;
            assert(sigs[j] == d[j]);
        }
        if exists|j: int| 0 <= j < sigs.len() && sigs[j].0@ == key {
            let j = choose|j: int| 0 <= j < sigs.len() && sigs[j].0@ == key;
            if j < d.len() {
                assert(d[j] == sigs[j]);
            }
        }
    }
}

/// What is wrong with entry `i` of `sigs`, if anything, where `valid[i]` says
/// whether its signature verifies: the signer is unknown, the signature is
/// invalid, or the key signs in an earlier entry.
pub open spec fn entry_fault(
    committee: Committee,
    sigs: Seq<(ValidatorPublicKey, ValidatorSignature)>,
    valid: Seq<bool>,
    i: int,
) -> Option<ChainError> {
    if !committee.is_member(sigs[i].0@) {
        Some(ChainError::UnknownSigner)
    } else if !valid[i] {
        Some(ChainError::InvalidSignature)
    } else if exists|j: int| 0 <= j < i && sigs[j].0@ == sigs[i].0@ {
        Some(ChainError::DuplicateSigner)
    } else {
        None
    }
}

/// The fault of the first faulty entry among the first `n` of `sigs`.
pub open spec fn first_fault(
    committee: Committee,
    sigs: Seq<(ValidatorPublicKey, ValidatorSignature)>,
    valid: Seq<bool>,
    n: nat,
) -> Option<ChainError>
    decreases n,
{
    if n == 0 {
        None
    } else {
        match first_fault(committee, sigs, valid, (n - 1) as nat) {
            Some(e) => Some(e),
            None => entry_fault(committee, sigs, valid, n - 1),
        }
    }
}

/// Once an entry is faulty, the first fault stays the same over longer prefixes.
proof fn lemma_first_fault_stays(
    committee: Committee,
    sigs: Seq<(ValidatorPublicKey, ValidatorSignature)>,
    valid: Seq<bool>,
    i: nat,
    n: nat,
)
    requires
        i <= n,
        first_fault(committee, sigs, valid, i) is Some,
    ensures
        first_fault(committee, sigs, valid, n) == first_fault(committee, sigs, valid, i),
    decreases n,
{
    if i < n {
        lemma_first_fault_stays(committee, sigs, valid, i, (n - 1) as nat);
    }
}

/// Extending a list of signatures keeps the verdict on its first entries.
pub(crate) proof fn lemma_first_fault_extends(
    committee: Committee,
    sigs: Seq<(ValidatorPublicKey, ValidatorSignature)>,
    longer: Seq<(ValidatorPublicKey, ValidatorSignature)>,
    valid: Seq<bool>,
    longer_valid: Seq<bool>,
    n: nat,
)
    requires
        n <= sigs.len() <= longer.len(),
        sigs.len() <= valid.len(),
        sigs.len() <= longer_valid.len(),
        forall|i: int| 0 <= i < sigs.len() ==> longer[i] == sigs[i] && longer_valid[i] == valid[i],
    ensures
        first_fault(committee, longer, longer_valid, n) == first_fault(committee, sigs, valid, n),
    decreases n,
{
    if n > 0 {
        lemma_first_fault_extends(committee, sigs, longer, valid, longer_valid, (n - 1) as nat);
        let i = n - 1;
        assert((exists|j: int| 0 <= j < i && longer[j].0@ == longer[i].0@) == (exists|j: int|
            0 <= j < i && sigs[j].0@ == sigs[i].0@)) by {
            if exists|j: int| 0 <= j < i && longer[j].0@ == longer[i].0@ {
                let j = choose|j: int| 0 <= j < i && longer[j].0@ == longer[i].0@;
                assert(sigs[j].0@ == sigs[i].0@);
            }
            if exists|j: int| 0 <= j < i && sigs[j].0@ == sigs[i].0@ {
                let j = choose|j: int| 0 <= j < i && sigs[j].0@ == sigs[i].0@;
                assert(longer[j].0@ == longer[i].0@);
            }
        }
    }
}

/// The verdict on `sigs`, where `valid[i]` says whether the signature of entry
/// `i` verifies: the first faulty entry's fault, else whether the signers hold
/// a quorum.
pub open spec fn tally_outcome(
    committee: Committee,
    sigs: Seq<(ValidatorPublicKey, ValidatorSignature)>,
    valid: Seq<bool>,
) -> Result<(), ChainError> {
    match first_fault(committee, sigs, valid, sigs.len()) {
        Some(e) => Err(e),
        None => if committee.is_quorum_spec(committee.power_of_signers(signer_keys(sigs))) {
            Ok(())
        } else {
            Err(ChainError::InsufficientQuorum)
        },
    }
}

/// For each entry of `sigs`, whether its signature verifies over `value` in `round`.
pub open spec fn signatures_validity<T: CertificateValue>(
    value: &T,
    round: Round,
    sigs: Seq<(ValidatorPublicKey, ValidatorSignature)>,
) -> Seq<bool> {
    Seq::new(sigs.len(), |i: int| sigs[i].1.verifies(sigs[i].0, value_signed_bytes(value, round)))
}

/// Judges the signatures of a certificate, given for each whether it verifies:
/// each signer must be a member, its signature valid, and its key not seen
/// before; then the signers must hold a quorum.
pub fn tally(
    committee: &Committee,
    signatures: &Vec<(ValidatorPublicKey, ValidatorSignature)>,
    valid: &Vec<bool>,
) -> (r: Result<(), ChainError>)
    requires
        committee.wf(),
        valid@.len() == signatures@.len(),
    ensures
        r == tally_outcome(*committee, signatures@, valid@),
{
    let ghost sigs = signatures@;
    proof {
        assert(sigs.take(0) =~= Seq::empty());
        crate::committee::lemma_signers_power_empty(committee.members());
    }
    let mut weight: u64 = 0;
    let mut i: usize = 0;
    while i < signatures.len()
        invariant
            committee.wf(),
            sigs == signatures@,
            valid@.len() == sigs.len(),
            0 <= i <= sigs.len(),
            first_fault(*committee, sigs, valid@, i as nat) is None,
            weight == committee.power_of_signers(signer_keys(sigs.take(i as int))),
        decreases sigs.len() - i,
    {
        let key = &signatures[i].0;
        let power = match committee.power_of(key) {
            Some(p) => p,
            None => {
                proof {
                    lemma_first_fault_stays(*committee, sigs, valid@, (i + 1) as nat, sigs.len());
                }
                return Err(ChainError::UnknownSigner);
            },
        };
        if !valid[i] {
            proof {
                lemma_first_fault_stays(*committee, sigs, valid@, (i + 1) as nat, sigs.len());
            }
            return Err(ChainError::InvalidSignature);
        }
        let mut j: usize = 0;
        while j < i
            invariant
                0 <= j <= i < sigs.len(),
                sigs == signatures@,
                *key == sigs[i as int].0,
                committee.is_member(key@),
                valid@.len() == sigs.len(),
                valid@[i as int],
                first_fault(*committee, sigs, valid@, i as nat) is None,
                forall|k: int| 0 <= k < j ==> sigs[k].0@ != sigs[i as int].0@,
            decreases i - j,
        {
            if signatures[j].0.same_as(key) {
                proof {
                    assert(sigs[j as int].0@ == sigs[i as int].0@);
                    lemma_first_fault_stays(*committee, sigs, valid@, (i + 1) as nat, sigs.len());
                }
                return Err(ChainError::DuplicateSigner);
            }
            j = j + 1;
        }
        proof {
            let prefix = sigs.take(i as int);
            assert(sigs.take(i + 1).drop_last() =~= prefix);
            lemma_signer_keys_contains(prefix, key@);
            assert(!signer_keys(prefix).contains(key@)) by {
                if signer_keys(prefix).contains(key@) {
                    let k = choose|k: int| 0 <= k < prefix.len() && prefix[k].0@ == key@;
                    assert(sigs[k] == prefix[k]);
                }
            }
            crate::committee::lemma_signers_power_insert(
                committee.members(),
                signer_keys(prefix),
                key@,
            );
            crate::committee::lemma_signers_power_at_most_total(
                committee.members(),
                signer_keys(sigs.take(i + 1)),
            );
            committee.lemma_wf_facts();
        }
        weight = weight + power;
        i = i + 1;
    }
    assert(sigs.take(sigs.len() as int) =~= sigs);
    if committee.is_quorum(weight) {
        Ok(())
    } else {
        Err(ChainError::InsufficientQuorum)
    }
}

/// A copy of a list of signatures.
pub fn copy_signatures(signatures: &Vec<(ValidatorPublicKey, ValidatorSignature)>) -> (r: Vec<
    (ValidatorPublicKey, ValidatorSignature),
>)
    ensures
        r@ == signatures@,
{
    let mut r: Vec<(ValidatorPublicKey, ValidatorSignature)> = Vec::new();
    let mut i: usize = 0;
    while i < signatures.len()
        invariant
            0 <= i <= signatures@.len(),
            r@ == signatures@.take(i as int),
        decreases signatures@.len() - i,
    {
        r.push(signatures[i]);
        assert(r@ =~= signatures@.take(i + 1));
        i = i + 1;
    }
    assert(r@ =~= signatures@);
    r
}

/// A value, a round, and the signatures that attest them.
#[derive(Clone, Debug)]
pub struct Certificate<T> {
    value: T,
    round: Round,
    signatures: Vec<(ValidatorPublicKey, ValidatorSignature)>,
}

impl<T: CertificateValue> Certificate<T> {
    pub closed spec fn spec_value(&self) -> T {
        self.value
    }

    pub closed spec fn spec_round(&self) -> Round {
        self.round
    }

    pub closed spec fn spec_signatures(&self) -> Seq<(ValidatorPublicKey, ValidatorSignature)> {
        self.signatures@
    }

    /// The verdict of `check` against `committee`.
    pub open spec fn check_outcome(&self, committee: Committee) -> Result<(), ChainError> {
        tally_outcome(
            committee,
            self.spec_signatures(),
            signatures_validity(&self.spec_value(), self.spec_round(), self.spec_signatures()),
        )
    }

    /// The certificate of `value` in `round` with `signatures`, in that order.
    pub fn new(
        value: T,
        round: Round,
        signatures: Vec<(ValidatorPublicKey, ValidatorSignature)>,
    ) -> (r: Certificate<T>)
        ensures
            r.spec_value() == value,
            r.spec_round() == round,
            r.spec_signatures() == signatures@,
    {
        Certificate { value, round, signatures }
    }

    pub fn value(&self) -> (r: &T)
        ensures
            *r == self.spec_value(),
    {
        &self.value
    }

    pub fn round(&self) -> (r: Round)
        ensures
            r == self.spec_round(),
    {
        self.round
    }

    pub fn signatures(&self) -> (r: &Vec<(ValidatorPublicKey, ValidatorSignature)>)
        ensures
            r@ == self.spec_signatures(),
    {
        &self.signatures
    }

    /// The signatures, to change in place.
    pub fn signatures_mut(&mut self) -> (r: &mut Vec<(ValidatorPublicKey, ValidatorSignature)>)
        ensures
            r@ == old(self).spec_signatures(),
            final(self).spec_value() == old(self).spec_value(),
            final(self).spec_round() == old(self).spec_round(),
            final(self).spec_signatures() == final(r)@,
    {
        &mut self.signatures
    }

    /// Checks that a quorum of `committee` signed this value in this round:
    /// every signer is a member whose signature verifies, no key signs twice,
    /// and the signers hold a quorum. The first faulty entry decides the error.
    pub fn check(&self, committee: &Committee) -> (r: Result<(), ChainError>)
        requires
            committee.wf(),
        ensures
            r == self.check_outcome(*committee),
    {
        let lite = LiteValue::new(&self.value);
        let payload = lite.signing_payload(self.round);
        let ghost expected = signatures_validity(&self.value, self.round, self.signatures@);
        let mut valid: Vec<bool> = Vec::new();
        let mut i: usize = 0;
        while i < self.signatures.len()
            invariant
                0 <= i <= self.signatures@.len(),
                payload@ == value_signed_bytes(&self.value, self.round),
                expected == signatures_validity(&self.value, self.round, self.signatures@),
                valid@ == expected.take(i as int),
            decreases self.signatures@.len() - i,
        {
            let ok = self.signatures[i].1.check(&self.signatures[i].0, &payload);
            valid.push(ok);
            assert(valid@ =~= expected.take(i + 1));
            i = i + 1;
        }
        assert(valid@ =~= expected);
        tally(committee, &self.signatures, &valid)
    }
}

/// With a committee of two validators of equal power, dropping the last
/// signature of a certificate that passes the check leaves one that fails it
/// for want of a quorum.
pub proof fn lemma_equal_pair_certificate_needs_both<T: CertificateValue>(
    committee: Committee,
    full: Certificate<T>,
    shorter: Certificate<T>,
)
    requires
        committee.wf(),
        committee.members().len() == 2,
        committee.members()[0].1 == committee.members()[1].1,
        full.check_outcome(committee) == Ok::<(), ChainError>(()),
        shorter.spec_value() == full.spec_value(),
        shorter.spec_round() == full.spec_round(),
        shorter.spec_signatures() == full.spec_signatures().drop_last(),
    ensures
        shorter.check_outcome(committee) == Err::<(), ChainError>(ChainError::InsufficientQuorum),
{
    let m = committee.members();
    let sigs = full.spec_signatures();
    let valid = signatures_validity(&full.spec_value(), full.spec_round(), sigs);
    committee.lemma_wf_facts();
    committee.lemma_equal_pair_needs_both();
    crate::committee::lemma_signers_power_empty(m);
    assert(sigs.len() > 0) by {
        if sigs.len() == 0 {
            assert(signer_keys(sigs) == Set::<Seq<u8>>::empty());
        }
    }
    let n = (sigs.len() - 1) as nat;
    let short = shorter.spec_signatures();
    let short_valid = signatures_validity(&shorter.spec_value(), shorter.spec_round(), short);
    lemma_first_fault_extends(committee, short, sigs, short_valid, valid, n);
    assert(first_fault(committee, sigs, valid, n) is None);
    assert(entry_fault(committee, sigs, valid, n as int) is None);
    let last = sigs[n as int].0@;
    assert(short =~= sigs.drop_last());
    lemma_signer_keys_contains(short, last);
    assert(!signer_keys(short).contains(last)) by {
        if signer_keys(short).contains(last) {
            let j = choose|j: int| 0 <= j < short.len() && short[j].0@ == last;
            assert(sigs[j].0@ == sigs[n as int].0@);
        }
    }
    crate::committee::lemma_signers_power_insert(m, signer_keys(short), last);
    crate::committee::lemma_signers_power_at_most_total(m, signer_keys(sigs));
    let i = choose|i: int| 0 <= i < m.len() && #[trigger] m[i].0@ == last;
    crate::committee::lemma_keyed_power_entry(m, i);
    crate::committee::lemma_keyed_power_entry(m, 0);
    crate::committee::lemma_keyed_power_entry(m, 1);
    assert(m.drop_last().last() == m[0]);
    assert(crate::committee::total_power(m.drop_last().drop_last()) == 0);
    assert(crate::committee::total_power(m.drop_last()) == m[0].1);
    assert(crate::committee::total_power(m) == committee.power(m[0].0@) + committee.power(m[1].0@));
}

impl<T: CertificateValue> Encode for Certificate<T> {
    open spec fn encoding(&self) -> Seq<u8> {
        self.spec_value().encoding() + self.spec_round().encoding() + le_bytes(
            self.spec_signatures().len(),
            8,
        ) + concat_encodings(self.spec_signatures())
    }

    fn encode_into(&self, out: &mut Vec<u8>) {
        self.value.encode_into(out);
        self.round.encode_into(out);
        self.signatures.encode_into(out);
        assert(out@ =~= old(out)@ + self.encoding());
    }

    fn copied(&self) -> (r: Self) {
        Certificate {
            value: self.value.copied(),
            round: self.round,
            signatures: copy_signatures(&self.signatures),
        }
    }
}

} // verus!
