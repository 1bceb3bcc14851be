//! Ed25519 signing and verification of record bytes.
//!
//! The cryptography itself is done by `ed25519_dalek`; this module gives its
//! results names and contracts. Signing is deterministic: the signature is a
//! function of the secret key bytes and the message alone. Verification is a
//! function of the public key bytes, the message and the signature alone.

use vstd::prelude::*;
use ed25519_dalek::Signer;
use ed25519_dalek::SigningKey;
use ed25519_dalek::Verifier;
use ed25519_dalek::VerifyingKey;

verus! {

/// Length in bytes of an Ed25519 secret key.
pub const SECRET_KEY_LEN: usize = 32;

/// Length in bytes of an Ed25519 public key.
pub const PUBLIC_KEY_LEN: usize = 32;

/// The Ed25519 signature over `msg` by the secret key `sk`: signing is
/// deterministic, so the signature is a function of these two alone.
pub uninterp spec fn ed25519_signature(sk: Seq<u8>, msg: Seq<u8>) -> Seq<u8>;

/// The Ed25519 public key derived from the secret key `sk`.
pub uninterp spec fn ed25519_public_key(sk: Seq<u8>) -> Seq<u8>;

/// Whether Ed25519 verification accepts `sig` as a signature over `msg` by
/// the holder of `pk`; a function of the three byte strings alone.
pub uninterp spec fn ed25519_verifies(pk: Seq<u8>, msg: Seq<u8>, sig: Seq<u8>) -> bool;

/// Relies on `ed25519_dalek::SigningKey::generate`: draws a fresh 32-byte
/// secret key from the operating system's randomness. Nothing is promised of
/// the key's value beyond its length.
#[verifier::external_body]
fn generate_secret_key() -> (sk: Vec<u8>)
    ensures
        sk@.len() == SECRET_KEY_LEN,
{
    let mut csprng = rand::rngs::OsRng;
    SigningKey::generate(&mut csprng).to_bytes().to_vec()
}

/// Relies on `ed25519_dalek::SigningKey::verifying_key`: derives the public
/// key, a deterministic function of the secret key bytes.
#[verifier::external_body]
fn derive_public_key(sk: &[u8]) -> (pk: Vec<u8>)
    requires
        sk@.len() == SECRET_KEY_LEN,
    ensures
        pk@.len() == PUBLIC_KEY_LEN,
        pk@ == ed25519_public_key(sk@),
{
    let key_bytes: &[u8; 32] = sk.try_into().unwrap();
    SigningKey::from_bytes(key_bytes).verifying_key().to_bytes().to_vec()
}

/// Relies on `ed25519_dalek::SigningKey::sign` (RFC 8032): deterministic in
/// the secret key bytes and the message, always 64 bytes, and the produced
/// signature verifies under the key's own public key.
#[verifier::external_body]
fn sign_with_key(sk: &[u8], msg: &[u8]) -> (sig: Vec<u8>)
    requires
        sk@.len() == SECRET_KEY_LEN,
    ensures
        sig@.len() == crate::record::SIGNATURE_LEN,
        sig@ == ed25519_signature(sk@, msg@),
        ed25519_verifies(ed25519_public_key(sk@), msg@, sig@),
{
    let key_bytes: &[u8; 32] = sk.try_into().unwrap();
    SigningKey::from_bytes(key_bytes).sign(msg).to_bytes().to_vec()
}

/// Relies on `ed25519_dalek::VerifyingKey::{from_bytes, verify}`: whether
/// verification accepts the signature, a deterministic function of the three
/// byte strings. A public key or signature of the wrong length, or an invalid
/// public key, is accepted by nothing.
#[verifier::external_body]
fn verify_with_key(pk: &[u8], msg: &[u8], sig: &[u8]) -> (r: bool)
    ensures
        r == ed25519_verifies(pk@, msg@, sig@),
{
    let key_bytes: &[u8; 32] = match pk.try_into() {
        Ok(b) => b,
        Err(_) => return false,
    };
    let verifying_key = match VerifyingKey::from_bytes(key_bytes) {
        Ok(k) => k,
        Err(_) => return false,
    };
    let sig_bytes: &[u8; 64] = match sig.try_into() {
        Ok(b) => b,
        Err(_) => return false,
    };
    verifying_key.verify(msg, &ed25519_dalek::Signature::from_bytes(sig_bytes)).is_ok()
}

/// Checks a claimed signature over a message against a public key. Returns
/// exactly what Ed25519 verification decides for these three byte strings.
pub fn verify(pk: &[u8], msg: &[u8], sig: &[u8]) -> (r: bool)
    ensures
        r == ed25519_verifies(pk@, msg@, sig@),
{
    verify_with_key(pk, msg, sig)
}

/// An Ed25519 key pair, generated once at server startup and held in memory
/// for the process lifetime. The secret key never leaves the pair.
pub struct KeyPair {
    sk: Vec<u8>,
    pk: Vec<u8>,
}

impl KeyPair {
    /// The secret key bytes, as a mathematical value.
    pub closed spec fn spec_sk(self) -> Seq<u8> {
        self.sk@
    }

    /// The public key bytes, as a mathematical value.
    pub closed spec fn spec_pk(self) -> Seq<u8> {
        self.pk@
    }

    #[verifier::type_invariant]
    spec fn wf(self) -> bool {
        self.sk@.len() == SECRET_KEY_LEN && self.pk@.len() == PUBLIC_KEY_LEN
            && self.pk@ == ed25519_public_key(self.sk@)
    }

    /// Generates a fresh key pair from the operating system's randomness.
    pub fn generate() -> (kp: KeyPair)
        ensures
            kp.spec_pk() == ed25519_public_key(kp.spec_sk()),
            kp.spec_pk().len() == PUBLIC_KEY_LEN,
    {
        let sk = generate_secret_key();
        let pk = derive_public_key(sk.as_slice());
        KeyPair { sk, pk }
    }

    /// The public key bytes, for out-of-band distribution to clients.
    pub fn public_key_bytes(&self) -> (pk: Vec<u8>)
        ensures
            pk@ == self.spec_pk(),
            pk@ == ed25519_public_key(self.spec_sk()),
    {
        proof {
            use_type_invariant(self);
        }
        let mut out: Vec<u8> = Vec::new();
        out.extend_from_slice(self.pk.as_slice());
        out
    }

    /// Signs a message with the pair's secret key. The signature is
    /// deterministic in the key and the message, and verifies under the
    /// pair's public key.
    pub fn sign(&self, msg: &[u8]) -> (sig: Vec<u8>)
        ensures
            sig@.len() == crate::record::SIGNATURE_LEN,
            sig@ == ed25519_signature(self.spec_sk(), msg@),
            ed25519_verifies(self.spec_pk(), msg@, sig@),
    {
        proof {
            use_type_invariant(self);
        }
        sign_with_key(self.sk.as_slice(), msg)
    }
}

} // verus!
