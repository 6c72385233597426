//! The canonical byte encoding that values are hashed and signed over.
//!
//! Integers are little-endian and of fixed width, sequences carry their length
//! as eight bytes before their items, and an optional value starts with a
//! presence byte.

use crate::crypto::{CryptoHash, ValidatorPublicKey, ValidatorSignature};
use vstd::prelude::*;

verus! {

/// The `n` low bytes of `x`, least significant first.
pub open spec fn le_bytes(x: nat, n: nat) -> Seq<u8>
    decreases n,
{
    if n == 0 {
        Seq::empty()
    } else {
        seq![(x % 256) as u8] + le_bytes(x / 256, (n - 1) as nat)
    }
}

/// Appends the `n` low bytes of `x` to `out`, least significant first.
pub fn push_le(out: &mut Vec<u8>, x: u128, n: usize)
    ensures
        final(out)@ == old(out)@ + le_bytes(x as nat, n as nat),
{
    let mut v: u128 = x;
    let mut i: usize = 0;
    while i < n
        invariant
            0 <= i <= n,
            old(out)@ + le_bytes(x as nat, n as nat) == out@ + le_bytes(v as nat, (n - i) as nat),
        decreases n - i,
    {
        let ghost before = out@;
        out.push((v % 256) as u8);
        proof {
            assert(le_bytes(v as nat, (n - i) as nat) == seq![(v % 256) as u8] + le_bytes(
                (v / 256) as nat,
                (n - i - 1) as nat,
            ));
            assert(out@ == before + seq![(v % 256) as u8]);
            assert(before + le_bytes(v as nat, (n - i) as nat) =~= out@ + le_bytes(
                (v / 256) as nat,
                (n - i - 1) as nat,
            ));
        }
        v = v / 256;
        i = i + 1;
    }
    assert(out@ + le_bytes(v as nat, 0) =~= out@);
}

/// A value with a canonical byte encoding.
pub trait Encode: Sized {
    /// The bytes that encode this value.
    spec fn encoding(&self) -> Seq<u8>;

    /// Appends the encoding of this value to `out`.
    fn encode_into(&self, out: &mut Vec<u8>)
        ensures
            final(out)@ == old(out)@ + self.encoding(),
    ;

    /// A copy of this value, with the same encoding.
    fn copied(&self) -> (r: Self)
        ensures
            r.encoding() == self.encoding(),
    ;
}

/// The encodings of the items of `s`, one after the other.
pub open spec fn concat_encodings<T: Encode>(s: Seq<T>) -> Seq<u8>
    decreases s.len(),
{
    if s.len() == 0 {
        Seq::empty()
    } else {
        concat_encodings(s.drop_last()) + s.last().encoding()
    }
}

impl Encode for u8 {
    open spec fn encoding(&self) -> Seq<u8> {
        seq![*self]
    }

    fn encode_into(&self, out: &mut Vec<u8>) {
        out.push(*self);
    }

    fn copied(&self) -> (r: Self) {
        *self
    }
}

impl Encode for u32 {
    open spec fn encoding(&self) -> Seq<u8> {
        le_bytes(*self as nat, 4)
    }

    fn encode_into(&self, out: &mut Vec<u8>) {
        push_le(out, *self as u128, 4);
    }

    fn copied(&self) -> (r: Self) {
        *self
    }
}

impl Encode for u64 {
    open spec fn encoding(&self) -> Seq<u8> {
        le_bytes(*self as nat, 8)
    }

    fn encode_into(&self, out: &mut Vec<u8>) {
        push_le(out, *self as u128, 8);
    }

    fn copied(&self) -> (r: Self) {
        *self
    }
}

impl Encode for u128 {
    open spec fn encoding(&self) -> Seq<u8> {
        le_bytes(*self as nat, 16)
    }

    fn encode_into(&self, out: &mut Vec<u8>) {
        push_le(out, *self, 16);
    }

    fn copied(&self) -> (r: Self) {
        *self
    }
}

impl<T: Encode> Encode for Vec<T> {
    open spec fn encoding(&self) -> Seq<u8> {
        le_bytes(self@.len(), 8) + concat_encodings(self@)
    }

    fn encode_into(&self, out: &mut Vec<u8>) {
        push_le(out, self.len() as u128, 8);
        let ghost start = out@;
        let mut i: usize = 0;
        while i < self.len()
            invariant
                0 <= i <= self@.len(),
                start == old(out)@ + le_bytes(self@.len(), 8),
                out@ == start + concat_encodings(self@.take(i as int)),
            decreases self@.len() - i,
        {
            self[i].encode_into(out);
            proof {
                assert(self@.take(i + 1).drop_last() =~= self@.take(i as int));
            }
            i = i + 1;
        }
        assert(self@.take(self@.len() as int) =~= self@);
        assert(out@ =~= old(out)@ + self.encoding());
    }

    fn copied(&self) -> (r: Self) {
        let mut r: Vec<T> = Vec::new();
        let mut i: usize = 0;
        while i < self.len()
            invariant
                0 <= i <= self@.len(),
                r@.len() == i,
                concat_encodings(r@) == concat_encodings(self@.take(i as int)),
            decreases self@.len() - i,
        {
            let item = self[i].copied();
            let ghost prev = r@;
            r.push(item);
            proof {
                assert(r@.drop_last() =~= prev);
                assert(self@.take(i + 1).drop_last() =~= self@.take(i as int));
            }
            i = i + 1;
        }
        assert(self@.take(self@.len() as int) =~= self@);
        r
    }
}

impl<T: Encode> Encode for Option<T> {
    open spec fn encoding(&self) -> Seq<u8> {
        match self {
            None => seq![0u8],
            Some(x) => seq![1u8] + x.encoding(),
        }
    }

    fn encode_into(&self, out: &mut Vec<u8>) {
        match self {
            None => out.push(0u8),
            Some(x) => {
                out.push(1u8);
                x.encode_into(out);
                assert(out@ =~= old(out)@ + self.encoding());
            },
        }
    }

    fn copied(&self) -> (r: Self) {
        match self {
            None => None,
            Some(x) => Some(x.copied()),
        }
    }
}

impl<A: Encode, B: Encode> Encode for (A, B) {
    open spec fn encoding(&self) -> Seq<u8> {
        self.0.encoding() + self.1.encoding()
    }

    fn encode_into(&self, out: &mut Vec<u8>) {
        self.0.encode_into(out);
        self.1.encode_into(out);
        assert(out@ =~= old(out)@ + self.encoding());
    }

    fn copied(&self) -> (r: Self) {
        (self.0.copied(), self.1.copied())
    }
}

/// Appends the bytes of `a` to `out`.
pub fn push_array<const N: usize>(out: &mut Vec<u8>, a: &[u8; N])
    ensures
        final(out)@ == old(out)@ + a@,
{
    let mut i: usize = 0;
    while i < N
        invariant
            0 <= i <= N,
            a@.len() == N,
            out@ == old(out)@ + a@.take(i as int),
        decreases N - i,
    {
        out.push(a[i]);
        assert(a@.take(i + 1) =~= a@.take(i as int).push(a@[i as int]));
        i = i + 1;
    }
    assert(a@.take(N as int) =~= a@);
}

impl Encode for CryptoHash {
    open spec fn encoding(&self) -> Seq<u8> {
        self@
    }

    fn encode_into(&self, out: &mut Vec<u8>) {
        push_array(out, &self.bytes);
    }

    fn copied(&self) -> (r: Self) {
        *self
    }
}

impl Encode for ValidatorPublicKey {
    open spec fn encoding(&self) -> Seq<u8> {
        self@
    }

    fn encode_into(&self, out: &mut Vec<u8>) {
        push_array(out, &self.bytes);
    }

    fn copied(&self) -> (r: Self) {
        *self
    }
}

impl Encode for ValidatorSignature {
    open spec fn encoding(&self) -> Seq<u8> {
        self@
    }

    fn encode_into(&self, out: &mut Vec<u8>) {
        push_array(out, &self.bytes);
    }

    fn copied(&self) -> (r: Self) {
        *self
    }
}

} // verus!
