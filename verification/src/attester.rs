//! The attester: holds an Ed25519 signing keypair, commits-and-signs random
//! values, and checks attestations statelessly against a public key.

use vstd::prelude::*;
use vstd::pervasive::unreached;
use vstd::slice::slice_to_vec;
use crate::commitment::{commitment_of, compute_commitment};
use crate::crypto::{
    derive_public_key, ed25519_public_of, ed25519_sign, ed25519_verify, generate_secret_key,
    os_random_bytes, sign_message, verify_signature,
};
use crate::errors::RngError;

verus! {

/// Length in bytes of the salt drawn for every attestation.
pub const SALT_LENGTH: usize = 32;

/// The exact condition under which a `(public key, value, salt, signature)`
/// tuple counts as a valid attestation: the key and the signature have their
/// fixed Ed25519 lengths and the signature verifies over the commitment to
/// `value || salt` under that key.
pub open spec fn attestation_valid(
    public_key: Seq<u8>,
    value: Seq<u8>,
    salt: Seq<u8>,
    signature: Seq<u8>,
) -> bool {
    &&& public_key.len() == 32
    &&& signature.len() == 64
    &&& ed25519_verify(public_key, commitment_of(value, salt), signature)
}

/// An attestation identity: a private Ed25519 signing key, never exposed,
/// and the verification key derived from it.
pub struct RngAttester {
    signing_key: Vec<u8>,
    verifying_key: Vec<u8>,
}

impl RngAttester {
    /// The signing key's bytes; visible to specifications only.
    pub closed spec fn key_view(&self) -> Seq<u8> {
        self.signing_key@
    }

    /// The verification key's bytes.
    pub closed spec fn public_key_view(&self) -> Seq<u8> {
        self.verifying_key@
    }

    /// A well-formed attester holds a 32-byte signing key together with the
    /// verification key derived from exactly that key.
    pub open spec fn wf(&self) -> bool {
        &&& self.key_view().len() == 32
        &&& self.public_key_view() == ed25519_public_of(self.key_view())
        &&& self.public_key_view().len() == 32
    }

    /// Creates an attester with a keypair drawn freshly from the operating
    /// system's secure random source.
    pub fn new() -> (r: Result<RngAttester, RngError>)
        ensures
            r is Ok,
            r matches Ok(a) ==> a.wf(),
    {
        let signing_key = generate_secret_key();
        let verifying_key = derive_public_key(signing_key.as_slice());
        Ok(RngAttester { signing_key, verifying_key })
    }

    /// Attests a random value: draws a fresh 32-byte salt, commits to
    /// `value || salt`, signs the commitment with the private key, and hands
    /// back the unchanged value, the salt and the signature. The returned
    /// tuple is a valid attestation under this attester's public key.
    pub fn attest(&self, random_number: &[u8]) -> (r: Result<(Vec<u8>, Vec<u8>, Vec<u8>), RngError>)
        requires
            self.wf(),
        ensures
            r is Ok,
            r matches Ok((v, salt, sig)) ==> {
                &&& v@ == random_number@
                &&& salt@.len() == SALT_LENGTH
                &&& sig@ == ed25519_sign(self.key_view(), commitment_of(random_number@, salt@))
                &&& attestation_valid(self.public_key_view(), random_number@, salt@, sig@)
            },
    {
        let salt = os_random_bytes(SALT_LENGTH);
        let digest = compute_commitment(random_number, salt.as_slice());
        let signature = sign_message(self.signing_key.as_slice(), digest.as_slice());
        Ok((slice_to_vec(random_number), salt, signature))
    }

    /// The verification key, freely shareable.
    pub fn get_public_key(&self) -> (r: &Vec<u8>)
        ensures
            r@ == self.public_key_view(),
    {
        &self.verifying_key
    }

    /// Checks an attestation against a public key, without an attester
    /// instance: recomputes the commitment to `value || salt` and verifies
    /// the signature over it. Returns `Ok` exactly on valid attestations and
    /// `VerificationFailure` on all others — wrong key, tampered value,
    /// tampered salt, tampered or malformed signature.
    pub fn verify_attestation(
        public_key: &[u8],
        random_number: &[u8],
        salt: &[u8],
        signature: &[u8],
    ) -> (r: Result<(), RngError>)
        ensures
            r is Ok <==> attestation_valid(public_key@, random_number@, salt@, signature@),
            r matches Err(e) ==> e == RngError::VerificationFailure,
    {
        if public_key.len() != 32 || signature.len() != 64 {
            return Err(RngError::VerificationFailure);
        }
        let digest = compute_commitment(random_number, salt);
        if verify_signature(public_key, digest.as_slice(), signature) {
            Ok(())
        } else {
            Err(RngError::VerificationFailure)
        }
    }
}

impl Default for RngAttester {
    fn default() -> (r: Self)
        ensures
            r.wf(),
    {
        match Self::new() {
            Ok(a) => a,
            Err(_) => unreached(),
        }
    }
}

/// Round-trip validity: the tuple a successful `attest` returns satisfies
/// `attestation_valid` for the attester's public key, and any result that
/// meets `verify_attestation`'s contract on such a tuple is `Ok`.
pub proof fn lemma_attest_then_verify(
    public_key: Seq<u8>,
    value: Seq<u8>,
    salt: Seq<u8>,
    signature: Seq<u8>,
    r: Result<(), RngError>,
)
    requires
        attestation_valid(public_key, value, salt, signature),
        r is Ok <==> attestation_valid(public_key, value, salt, signature),
    ensures
        r is Ok,
{
}

} // verus!
