//! Hashes, validator keys and signatures, and the calls into the Ed25519 and
//! Keccak implementations that back them.

use ed25519_dalek::{Signer, Verifier};
use sha3::Digest;
use vstd::prelude::*;
use vstd::string::{StrSliceExecFns, StringSliceAdditionalSpecFns};

verus! {

/// What Keccak-256 yields on `data`.
pub uninterp spec fn keccak256_of(data: Seq<u8>) -> Seq<u8>;

/// The Ed25519 public key that belongs to the secret key `seed`.
pub uninterp spec fn ed25519_public_key_of(seed: Seq<u8>) -> Seq<u8>;

/// The Ed25519 signature of `message` under the secret key `seed`.
pub uninterp spec fn ed25519_signature_of(seed: Seq<u8>, message: Seq<u8>) -> Seq<u8>;

/// Whether Ed25519 verification accepts `signature` for `message` under `public_key`.
pub uninterp spec fn ed25519_accepts(public_key: Seq<u8>, message: Seq<u8>, signature: Seq<u8>) -> bool;

/// Relies on `sha3::Keccak256::digest`: the 32-byte Keccak-256 digest of `data`.
#[verifier::external_body]
fn keccak256(data: &Vec<u8>) -> (r: [u8; 32])
    ensures
        r@ == keccak256_of(data@),
{
    sha3::Keccak256::digest(data.as_slice()).into()
}

/// Relies on `ed25519_dalek::SigningKey::from_bytes` and `verifying_key`: the
/// public key of a 32-byte secret key.
#[verifier::external_body]
fn derive_public_key(seed: &[u8; 32]) -> (r: [u8; 32])
    ensures
        r@ == ed25519_public_key_of(seed@),
{
    ed25519_dalek::SigningKey::from_bytes(seed).verifying_key().to_bytes()
}

/// Relies on `<ed25519_dalek::SigningKey as Signer>::sign`: a deterministic
/// Ed25519 signature, which verification under the key's own public key accepts.
#[verifier::external_body]
fn sign_bytes(seed: &[u8; 32], message: &Vec<u8>) -> (r: [u8; 64])
    ensures
        r@ == ed25519_signature_of(seed@, message@),
        ed25519_accepts(ed25519_public_key_of(seed@), message@, r@),
{
    ed25519_dalek::SigningKey::from_bytes(seed).sign(message.as_slice()).to_bytes()
}

/// Relies on `ed25519_dalek::VerifyingKey::from_bytes` and
/// `<VerifyingKey as Verifier>::verify`: whether `signature` is a valid Ed25519
/// signature of `message` by `public_key` (a key that does not decode is refused).
#[verifier::external_body]
fn verify_bytes(public_key: &[u8; 32], message: &Vec<u8>, signature: &[u8; 64]) -> (r: bool)
    ensures
        r == ed25519_accepts(public_key@, message@, signature@),
{
    match ed25519_dalek::VerifyingKey::from_bytes(public_key) {
        Ok(key) => key.verify(
            message.as_slice(),
            &ed25519_dalek::Signature::from_bytes(signature),
        ).is_ok(),
        Err(_) => false,
    }
}

/// A 32-byte hash.
#[derive(Clone, Copy, Debug, PartialEq, Eq, Hash)]
pub struct CryptoHash {
    pub bytes: [u8; 32],
}

impl View for CryptoHash {
    type V = Seq<u8>;

    open spec fn view(&self) -> Seq<u8> {
        self.bytes@
    }
}

impl CryptoHash {
    /// The Keccak-256 hash of `data`.
    pub fn of_bytes(data: &Vec<u8>) -> (r: CryptoHash)
        ensures
            r@ == keccak256_of(data@),
    {
        CryptoHash { bytes: keccak256(data) }
    }

    /// The Keccak-256 hash of the UTF-8 bytes of `s`, to name values in examples.
    pub fn test_hash(s: &str) -> (r: CryptoHash)
        ensures
            r@ == keccak256_of(s.spec_bytes()),
    {
        CryptoHash::of_bytes(&s.as_bytes_vec())
    }

    /// Whether two hashes hold the same bytes.
    pub fn same_as(&self, other: &CryptoHash) -> (r: bool)
        ensures
            r == (self@ == other@),
    {
        bytes_equal(&self.bytes, &other.bytes)
    }
}

/// Whether two 32-byte arrays are equal, element by element.
pub fn bytes_equal(a: &[u8; 32], b: &[u8; 32]) -> (r: bool)
    ensures
        r == (a@ == b@),
{
    let mut i: usize = 0;
    while i < 32
        invariant
            0 <= i <= 32,
            a@.len() == 32,
            b@.len() == 32,
            forall|j: int| 0 <= j < i ==> a@[j] == b@[j],
        decreases 32 - i,
    {
        if a[i] != b[i] {
            return false;
        }
        i = i + 1;
    }
    assert(a@ =~= b@);
    true
}

/// The public key of a validator: an Ed25519 verifying key.
#[derive(Clone, Copy, Debug, PartialEq, Eq, Hash)]
pub struct ValidatorPublicKey {
    pub bytes: [u8; 32],
}

impl View for ValidatorPublicKey {
    type V = Seq<u8>;

    open spec fn view(&self) -> Seq<u8> {
        self.bytes@
    }
}

impl ValidatorPublicKey {
    /// Whether two keys hold the same bytes.
    pub fn same_as(&self, other: &ValidatorPublicKey) -> (r: bool)
        ensures
            r == (self@ == other@),
    {
        bytes_equal(&self.bytes, &other.bytes)
    }
}

/// A validator's signature: 64 bytes of an Ed25519 signature.
#[derive(Clone, Copy, Debug, PartialEq, Eq, Hash)]
pub struct ValidatorSignature {
    pub bytes: [u8; 64],
}

impl View for ValidatorSignature {
    type V = Seq<u8>;

    open spec fn view(&self) -> Seq<u8> {
        self.bytes@
    }
}

impl ValidatorSignature {
    /// Signs `message` with `secret`.
    pub fn sign(secret: &ValidatorSecretKey, message: &Vec<u8>) -> (r: ValidatorSignature)
        ensures
            r@ == ed25519_signature_of(secret@, message@),
            ed25519_accepts(ed25519_public_key_of(secret@), message@, r@),
    {
        ValidatorSignature { bytes: sign_bytes(&secret.seed, message) }
    }

    /// Whether this is a valid signature of `message` by `public_key`.
    pub open spec fn verifies(&self, public_key: ValidatorPublicKey, message: Seq<u8>) -> bool {
        ed25519_accepts(public_key@, message, self@)
    }

    /// Checks this signature of `message` against `public_key`.
    pub fn check(&self, public_key: &ValidatorPublicKey, message: &Vec<u8>) -> (r: bool)
        ensures
            r == self.verifies(*public_key, message@),
    {
        verify_bytes(&public_key.bytes, message, &self.bytes)
    }
}

/// The secret key of a validator: a 32-byte Ed25519 secret key.
#[derive(Clone)]
pub struct ValidatorSecretKey {
    seed: [u8; 32],
}

impl View for ValidatorSecretKey {
    type V = Seq<u8>;

    closed spec fn view(&self) -> Seq<u8> {
        self.seed@
    }
}

impl ValidatorSecretKey {
    /// The secret key made of the 32 bytes `seed`.
    pub fn from_seed(seed: [u8; 32]) -> (r: ValidatorSecretKey)
        ensures
            r@ == seed@,
    {
        ValidatorSecretKey { seed }
    }

    /// The public key that belongs to this secret key.
    pub fn public(&self) -> (r: ValidatorPublicKey)
        ensures
            r@ == ed25519_public_key_of(self@),
    {
        ValidatorPublicKey { bytes: derive_public_key(&self.seed) }
    }
}

} // verus!
