//! The boundary to the cryptographic primitives: the operating system's
//! secure random source, SHA-256, and Ed25519 key derivation, signing and
//! verification. Every item here is trusted: its contract states what the
//! underlying library documents, and nothing more.

use vstd::prelude::*;
use rand::RngCore;
use sha2::Digest;
use ed25519_dalek::{Signer, Verifier};

verus! {

/// The SHA-256 digest of a byte sequence.
pub uninterp spec fn sha256_of(data: Seq<u8>) -> Seq<u8>;

/// The Ed25519 verification key derived from a 32-byte secret key.
pub uninterp spec fn ed25519_public_of(secret: Seq<u8>) -> Seq<u8>;

/// The Ed25519 signature over a message under a 32-byte secret key.
pub uninterp spec fn ed25519_sign(secret: Seq<u8>, message: Seq<u8>) -> Seq<u8>;

/// Whether a signature verifies over a message under the given public key
/// bytes; false whenever the bytes decode to no valid key.
pub uninterp spec fn ed25519_verify(public: Seq<u8>, message: Seq<u8>, signature: Seq<u8>) -> bool;

/// Relies on rand's `OsRng::fill_bytes`: it fills the buffer with bytes from
/// the operating system's cryptographically secure generator. The bytes
/// depend on that source, so nothing is promised of them but their number.
#[verifier::external_body]
pub(crate) fn os_random_bytes(len: usize) -> (r: Vec<u8>)
    ensures
        r@.len() == len,
{
    let mut buf = vec![0u8; len];
    rand::rngs::OsRng.fill_bytes(&mut buf);
    buf
}

/// Relies on `ed25519_dalek::SigningKey::generate`: it draws a fresh 32-byte
/// secret key from the given secure generator. The bytes are random, so
/// nothing is promised of them but their number.
#[verifier::external_body]
pub(crate) fn generate_secret_key() -> (r: Vec<u8>)
    ensures
        r@.len() == 32,
{
    let key = ed25519_dalek::SigningKey::generate(&mut rand::rngs::OsRng);
    key.to_bytes().to_vec()
}

/// Relies on `ed25519_dalek::SigningKey::verifying_key`: the verification key
/// is 32 bytes and is derived deterministically from the secret key alone.
#[verifier::external_body]
pub(crate) fn derive_public_key(secret: &[u8]) -> (r: Vec<u8>)
    requires
        secret@.len() == 32,
    ensures
        r@ == ed25519_public_of(secret@),
        r@.len() == 32,
{
    let bytes: [u8; 32] = secret.try_into().unwrap();
    let key = ed25519_dalek::SigningKey::from_bytes(&bytes);
    key.verifying_key().to_bytes().to_vec()
}

/// Relies on `ed25519_dalek::SigningKey::sign` (Ed25519 per RFC 8032, which
/// signs deterministically): the 64-byte signature is a function of the
/// secret key and the message alone, and `VerifyingKey::verify` accepts it
/// under the verification key derived from the same secret key.
#[verifier::external_body]
pub(crate) fn sign_message(secret: &[u8], message: &[u8]) -> (r: Vec<u8>)
    requires
        secret@.len() == 32,
    ensures
        r@ == ed25519_sign(secret@, message@),
        r@.len() == 64,
        ed25519_verify(ed25519_public_of(secret@), message@, r@),
{
    let bytes: [u8; 32] = secret.try_into().unwrap();
    let key = ed25519_dalek::SigningKey::from_bytes(&bytes);
    key.sign(message).to_bytes().to_vec()
}

/// Relies on `ed25519_dalek::VerifyingKey::verify` (with `from_bytes` to
/// decode the key): the outcome is a function of the public key bytes, the
/// message and the signature alone; a key that does not decode accepts
/// nothing.
#[verifier::external_body]
pub(crate) fn verify_signature(public: &[u8], message: &[u8], signature: &[u8]) -> (r: bool)
    requires
        public@.len() == 32,
        signature@.len() == 64,
    ensures
        r == ed25519_verify(public@, message@, signature@),
{
    let pk_bytes: [u8; 32] = public.try_into().unwrap();
    let sig_bytes: [u8; 64] = signature.try_into().unwrap();
    let sig = ed25519_dalek::Signature::from_bytes(&sig_bytes);
    match ed25519_dalek::VerifyingKey::from_bytes(&pk_bytes) {
        Ok(key) => key.verify(message, &sig).is_ok(),
        Err(_) => false,
    }
}

/// Relies on `sha2::Sha256::digest`: the 32-byte digest is a deterministic
/// function of the input bytes alone.
#[verifier::external_body]
pub(crate) fn sha256(data: &[u8]) -> (r: Vec<u8>)
    ensures
        r@ == sha256_of(data@),
        r@.len() == 32,
{
    sha2::Sha256::digest(data).to_vec()
}

} // verus!
