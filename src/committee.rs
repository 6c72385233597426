//! The committee of validators and its quorum arithmetic.

use crate::crypto::ValidatorPublicKey;
use vstd::prelude::*;

verus! {

/// Whether no two entries of `m` have the same key.
pub open spec fn keys_distinct(m: Seq<(ValidatorPublicKey, u64)>) -> bool {
    forall|i: int, j: int| 0 <= i < m.len() && 0 <= j < m.len() && i != j ==> m[i].0@ != m[j].0@
}

/// The sum of the powers in `m`.
pub open spec fn total_power(m: Seq<(ValidatorPublicKey, u64)>) -> nat
    decreases m.len(),
{
    if m.len() == 0 {
        0
    } else {
        total_power(m.drop_last()) + m.last().1 as nat
    }
}

/// The sum of the powers of the entries of `m` whose key is in `signers`.
pub open spec fn signers_power(m: Seq<(ValidatorPublicKey, u64)>, signers: Set<Seq<u8>>) -> nat
    decreases m.len(),
{
    if m.len() == 0 {
        0
    } else {
        signers_power(m.drop_last(), signers) + if signers.contains(m.last().0@) {
            m.last().1 as nat
        } else {
            0
        }
    }
}

/// The power of `key` in `m`: the sum of the powers of its entries.
pub open spec fn keyed_power(m: Seq<(ValidatorPublicKey, u64)>, key: Seq<u8>) -> nat {
    signers_power(m, set![key])
}

/// The power that a set of signers needs to exceed to form a quorum of `total`:
/// two thirds of it, rounded down.
pub open spec fn two_thirds(total: nat) -> nat {
    2 * total / 3
}

proof fn lemma_total_power_prefix(m: Seq<(ValidatorPublicKey, u64)>, i: int)
    requires
        0 <= i <= m.len(),
    ensures
        total_power(m.take(i)) <= total_power(m),
    decreases m.len(),
{
    if i < m.len() {
        assert(m.drop_last().take(i) =~= m.take(i));
        lemma_total_power_prefix(m.drop_last(), i);
    } else {
        assert(m.take(i) =~= m);
    }
}

/// The power of a set of signers is at most the committee's total.
pub proof fn lemma_signers_power_at_most_total(
    m: Seq<(ValidatorPublicKey, u64)>,
    signers: Set<Seq<u8>>,
)
    ensures
        signers_power(m, signers) <= total_power(m),
    decreases m.len(),
{
    if m.len() > 0 {
        lemma_signers_power_at_most_total(m.drop_last(), signers);
    }
}

/// No signer, no power.
pub proof fn lemma_signers_power_empty(m: Seq<(ValidatorPublicKey, u64)>)
    ensures
        signers_power(m, Set::empty()) == 0,
    decreases m.len(),
{
    if m.len() > 0 {
        lemma_signers_power_empty(m.drop_last());
    }
}

/// Adding a new signer adds its power.
pub proof fn lemma_signers_power_insert(
    m: Seq<(ValidatorPublicKey, u64)>,
    signers: Set<Seq<u8>>,
    key: Seq<u8>,
)
    requires
        !signers.contains(key),
    ensures
        signers_power(m, signers.insert(key)) == signers_power(m, signers) + keyed_power(m, key),
    decreases m.len(),
{
    if m.len() > 0 {
        lemma_signers_power_insert(m.drop_last(), signers, key);
    }
}

/// With distinct keys, the power of an entry's key is that entry's power.
pub proof fn lemma_keyed_power_entry(m: Seq<(ValidatorPublicKey, u64)>, i: int)
    requires
        keys_distinct(m),
        0 <= i < m.len(),
    ensures
        keyed_power(m, m[i].0@) == m[i].1,
    decreases m.len(),
{
    if i < m.len() - 1 {
        let d = m.drop_last();
        assert(keys_distinct(d));
        assert(d[i] == m[i]);
        lemma_keyed_power_entry(d, i);
        assert(m.last().0@ != m[i].0@);
    } else {
        lemma_keyed_power_absent(m.drop_last(), m[i].0@);
    }
}

/// A key with no entry has no power.
pub proof fn lemma_keyed_power_absent(m: Seq<(ValidatorPublicKey, u64)>, key: Seq<u8>)
    requires
        forall|i: int| 0 <= i < m.len() ==> m[i].0@ != key,
    ensures
        keyed_power(m, key) == 0,
    decreases m.len(),
{
    if m.len() > 0 {
        assert(m.last().0@ != key);
        lemma_keyed_power_absent(m.drop_last(), key);
    }
}

/// The validators of an epoch, each with a positive voting power.
#[derive(Clone, Debug)]
pub struct Committee {
    validators: Vec<(ValidatorPublicKey, u64)>,
    total_votes: u64,
}

impl Committee {
    /// The validators and their powers.
    pub closed spec fn members(&self) -> Seq<(ValidatorPublicKey, u64)> {
        self.validators@
    }

    /// Keys are distinct, powers are positive, and the total fits in a `u64`.
    pub closed spec fn wf(&self) -> bool {
        &&& keys_distinct(self.validators@)
        &&& forall|i: int| 0 <= i < self.validators@.len() ==> self.validators@[i].1 > 0
        &&& self.total_votes == total_power(self.validators@)
    }

    /// Whether `key` belongs to a member.
    pub open spec fn is_member(&self, key: Seq<u8>) -> bool {
        exists|i: int| 0 <= i < self.members().len() && #[trigger] self.members()[i].0@ == key
    }

    /// The voting power of `key` (zero for a non-member).
    pub open spec fn power(&self, key: Seq<u8>) -> nat {
        keyed_power(self.members(), key)
    }

    /// The voting power of a set of keys.
    pub open spec fn power_of_signers(&self, signers: Set<Seq<u8>>) -> nat {
        signers_power(self.members(), signers)
    }

    /// The total voting power.
    pub open spec fn total(&self) -> nat {
        total_power(self.members())
    }

    /// Whether `power` is a quorum: more than two thirds of the total.
    pub open spec fn is_quorum_spec(&self, power: nat) -> bool {
        power > two_thirds(self.total())
    }

    /// The committee of `validators` with their powers; `None` where two
    /// entries share a key, a power is zero, or the total exceeds `u64::MAX`.
    pub fn new(validators: Vec<(ValidatorPublicKey, u64)>) -> (r: Option<Committee>)
        ensures
            r is Some <==> {
                &&& keys_distinct(validators@)
                &&& forall|i: int| 0 <= i < validators@.len() ==> validators@[i].1 > 0
                &&& total_power(validators@) <= u64::MAX
            },
            r matches Some(c) ==> c.wf() && c.members() == validators@,
    {
        let mut total: u64 = 0;
        let mut i: usize = 0;
        while i < validators.len()
            invariant
                0 <= i <= validators@.len(),
                keys_distinct(validators@.take(i as int)),
                forall|k: int| 0 <= k < i ==> validators@[k].1 > 0,
                total == total_power(validators@.take(i as int)),
            decreases validators@.len() - i,
        {
            let power = validators[i].1;
            if power == 0 {
                return None;
            }
            let mut j: usize = 0;
            while j < i
                invariant
                    0 <= j <= i < validators@.len(),
                    forall|k: int| 0 <= k < j ==> validators@[k].0@ != validators@[i as int].0@,
                decreases i - j,
            {
                if validators[j].0.same_as(&validators[i].0) {
                    return None;
                }
                j = j + 1;
            }
            proof {
                assert(validators@.take(i + 1).drop_last() =~= validators@.take(i as int));
                lemma_total_power_prefix(validators@, i + 1);
            }
            if total > u64::MAX - power {
                return None;
            }
            total = total + power;
            i = i + 1;
        }
        assert(validators@.take(validators@.len() as int) =~= validators@);
        Some(Committee { validators, total_votes: total })
    }

    /// The committee of `keys`, each with power one; `None` where two keys are equal.
    pub fn make_simple(keys: Vec<ValidatorPublicKey>) -> (r: Option<Committee>)
        requires
            keys@.len() <= u64::MAX,
        ensures
            r is Some <==> forall|i: int, j: int|
                0 <= i < keys@.len() && 0 <= j < keys@.len() && i != j ==> keys@[i]@ != keys@[j]@,
            r matches Some(c) ==> c.wf() && c.members() == Seq::new(
                keys@.len(),
                |i: int| (keys@[i], 1u64),
            ),
    {
        let mut validators: Vec<(ValidatorPublicKey, u64)> = Vec::new();
        let mut i: usize = 0;
        while i < keys.len()
            invariant
                0 <= i <= keys@.len() <= u64::MAX,
                validators@ == Seq::new(i as nat, |k: int| (keys@[k], 1u64)),
                total_power(validators@) == i,
            decreases keys@.len() - i,
        {
            let ghost prev = validators@;
            validators.push((keys[i], 1u64));
            assert(validators@.drop_last() == prev);
            assert(validators@ =~= Seq::new((i + 1) as nat, |k: int| (keys@[k], 1u64)));
            i = i + 1;
        }
        let ghost members = validators@;
        let r = Committee::new(validators);
        proof {
            if keys_distinct(members) {
                assert forall|a: int, b: int|
                    0 <= a < keys@.len() && 0 <= b < keys@.len() && a != b implies keys@[a]@
                    != keys@[b]@ by {
                    assert(members[a].0 == keys@[a]);
                    assert(members[b].0 == keys@[b]);
                }
            } else {
                let (a, b) = choose|a: int, b: int|
                    0 <= a < members.len() && 0 <= b < members.len() && a != b && members[a].0@
                        == members[b].0@;
                assert(members[a].0 == keys@[a]);
                assert(members[b].0 == keys@[b]);
            }
        }
        r
    }

    /// What a well-formed committee guarantees: distinct keys, positive
    /// powers, and a total that fits in a `u64`.
    pub proof fn lemma_wf_facts(&self)
        requires
            self.wf(),
        ensures
            keys_distinct(self.members()),
            forall|i: int| 0 <= i < self.members().len() ==> self.members()[i].1 > 0,
            self.total() <= u64::MAX,
    {
    }

    /// In a committee of two validators of equal power, neither alone is a
    /// quorum and both together are.
    pub proof fn lemma_equal_pair_needs_both(&self)
        requires
            self.wf(),
            self.members().len() == 2,
            self.members()[0].1 == self.members()[1].1,
        ensures
            !self.is_quorum_spec(self.power(self.members()[0].0@)),
            !self.is_quorum_spec(self.power(self.members()[1].0@)),
            self.is_quorum_spec(self.power(self.members()[0].0@) + self.power(self.members()[1].0@)),
    {
        let m = self.members();
        lemma_keyed_power_entry(m, 0);
        lemma_keyed_power_entry(m, 1);
        let p = m[0].1 as nat;
        assert(m.drop_last().last() == m[0]);
        assert(total_power(m.drop_last().drop_last()) == 0);
        assert(total_power(m.drop_last()) == p);
        assert(total_power(m) == 2 * p);
        assert(p > 0);
        assert(2 * (2 * p) / 3 >= p) by (nonlinear_arith)
            requires
                p > 0,
        ;
        assert(2 * (2 * p) / 3 < 2 * p) by (nonlinear_arith)
            requires
                p > 0,
        ;
    }

    /// The total voting power.
    pub fn total_votes(&self) -> (r: u64)
        requires
            self.wf(),
        ensures
            r == self.total(),
    {
        self.total_votes
    }

    /// The smallest power that is a quorum: two thirds of the total, rounded
    /// down, plus one.
    pub fn quorum_threshold(&self) -> (r: u64)
        requires
            self.wf(),
        ensures
            r == two_thirds(self.total()) + 1,
            self.is_quorum_spec(r as nat),
            forall|p: nat| self.is_quorum_spec(p) <==> p >= r,
    {
        let t = self.total_votes as u128;
        ((t * 2 / 3) + 1) as u64
    }

    /// Whether `power` is a quorum: more than two thirds of the total.
    pub fn is_quorum(&self, power: u64) -> (r: bool)
        requires
            self.wf(),
        ensures
            r == self.is_quorum_spec(power as nat),
    {
        let t = self.total_votes as u128;
        power as u128 > t * 2 / 3
    }

    /// The voting power of `key`, or `None` where it is not a member.
    pub fn power_of(&self, key: &ValidatorPublicKey) -> (r: Option<u64>)
        requires
            self.wf(),
        ensures
            r is Some <==> self.is_member(key@),
            r matches Some(p) ==> p == self.power(key@) && p > 0,
            r is None ==> self.power(key@) == 0,
    {
        let mut i: usize = 0;
        while i < self.validators.len()
            invariant
                self.wf(),
                0 <= i <= self.validators@.len(),
                forall|k: int| 0 <= k < i ==> self.validators@[k].0@ != key@,
            decreases self.validators@.len() - i,
        {
            if self.validators[i].0.same_as(key) {
                proof {
                    lemma_keyed_power_entry(self.validators@, i as int);
                    assert(self.members()[i as int].0@ == key@);
                }
                return Some(self.validators[i].1);
            }
            i = i + 1;
        }
        proof {
            lemma_keyed_power_absent(self.validators@, key@);
        }
        None
    }
}

} // verus!
