//! Consensus rounds.

use crate::encoding::Encode;
use core::cmp::Ordering;
use vstd::prelude::*;

verus! {

/// A round of consensus on a block height.
///
/// Rounds are ordered by phase, then by index: the fast round comes first, then
/// the multi-leader rounds, the single-leader rounds, and the validator rounds.
#[derive(Clone, Copy, Debug, PartialEq, Eq, Structural, Hash, Ord)]
pub enum Round {
    /// The initial fast round.
    Fast,
    /// The N-th multi-leader round.
    MultiLeader(u32),
    /// The N-th single-leader round.
    SingleLeader(u32),
    /// The N-th round where the validators rotate as leaders.
    Validator(u32),
}

/// The order of two integers.
pub open spec fn compare_ints(a: int, b: int) -> Ordering {
    if a < b {
        Ordering::Less
    } else if a == b {
        Ordering::Equal
    } else {
        Ordering::Greater
    }
}

impl Round {
    /// The position of this round's phase: fast, multi-leader, single-leader, validator.
    pub open spec fn phase(self) -> int {
        match self {
            Round::Fast => 0,
            Round::MultiLeader(_) => 1,
            Round::SingleLeader(_) => 2,
            Round::Validator(_) => 3,
        }
    }

    /// The index of this round within its phase.
    pub open spec fn index(self) -> int {
        match self {
            Round::Fast => 0,
            Round::MultiLeader(n) => n as int,
            Round::SingleLeader(n) => n as int,
            Round::Validator(n) => n as int,
        }
    }

    /// The order of two rounds: by phase, then by index.
    pub open spec fn compare(self, other: Round) -> Ordering {
        if self.phase() != other.phase() {
            compare_ints(self.phase(), other.phase())
        } else {
            compare_ints(self.index(), other.index())
        }
    }

    fn phase_and_index(&self) -> (r: (u8, u32))
        ensures
            r.0 as int == self.phase(),
            r.1 as int == self.index(),
    {
        match self {
            Round::Fast => (0, 0),
            Round::MultiLeader(n) => (1, *n),
            Round::SingleLeader(n) => (2, *n),
            Round::Validator(n) => (3, *n),
        }
    }
}

impl PartialOrd for Round {
    fn partial_cmp(&self, other: &Round) -> (r: Option<Ordering>) {
        let (p, i) = self.phase_and_index();
        let (q, j) = other.phase_and_index();
        if p < q {
            Some(Ordering::Less)
        } else if p > q {
            Some(Ordering::Greater)
        } else if i < j {
            Some(Ordering::Less)
        } else if i > j {
            Some(Ordering::Greater)
        } else {
            Some(Ordering::Equal)
        }
    }
}

impl vstd::std_specs::cmp::PartialOrdSpecImpl for Round {
    open spec fn obeys_partial_cmp_spec() -> bool {
        true
    }

    open spec fn partial_cmp_spec(&self, other: &Round) -> Option<Ordering> {
        Some(self.compare(*other))
    }
}

impl Encode for Round {
    open spec fn encoding(&self) -> Seq<u8> {
        match self {
            Round::Fast => seq![0u8],
            Round::MultiLeader(n) => seq![1u8] + n.encoding(),
            Round::SingleLeader(n) => seq![2u8] + n.encoding(),
            Round::Validator(n) => seq![3u8] + n.encoding(),
        }
    }

    fn encode_into(&self, out: &mut Vec<u8>) {
        match self {
            Round::Fast => out.push(0u8),
            Round::MultiLeader(n) => {
                out.push(1u8);
                n.encode_into(out);
            },
            Round::SingleLeader(n) => {
                out.push(2u8);
                n.encode_into(out);
            },
            Round::Validator(n) => {
                out.push(3u8);
                n.encode_into(out);
            },
        }
        assert(out@ =~= old(out)@ + self.encoding());
    }

    fn copied(&self) -> (r: Self) {
        *self
    }
}

} // verus!
