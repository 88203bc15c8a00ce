//! Error taxonomy of the attestation core. Every failure is returned as an
//! explicit value; none is used for ordinary control flow.

use vstd::prelude::*;

verus! {

/// Why an operation of the attestation core failed.
#[derive(Clone, Copy, Debug, PartialEq, Eq, Structural)]
pub enum RngError {
    /// The caller supplied an out-of-range parameter, such as requesting a
    /// random value of length zero.
    InvalidArgument,
    /// The secure random source was unavailable while generating a keypair.
    KeyGenerationFailure,
    /// The signing primitive failed on a validly constructed key.
    SigningFailure,
    /// The signature does not validate against the supplied value, salt and
    /// public key.
    VerificationFailure,
}

} // verus!
