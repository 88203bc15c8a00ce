//! A cryptographically attested random value: random bytes bound to a fresh
//! salt by a SHA-256 commitment, the commitment signed with an Ed25519 key
//! held by an attester, and a stateless check of the whole bundle against
//! the attester's public key.

pub mod attester;
pub mod commitment;
pub mod crypto;
pub mod errors;
pub mod performer;
