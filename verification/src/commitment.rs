//! The commitment scheme shared by the signing and the verifying paths: a
//! value and a salt are bound together as the SHA-256 digest of
//! `value || salt`, in that order.

use vstd::prelude::*;
use crate::crypto::{sha256, sha256_of};

verus! {

/// The commitment to `value` under `salt`: the SHA-256 digest of the
/// concatenation `value || salt`, in that order.
pub open spec fn commitment_of(value: Seq<u8>, salt: Seq<u8>) -> Seq<u8> {
    sha256_of(value + salt)
}

/// Concatenation of two byte slices, in order: the commitment input
/// `value || salt`.
pub fn concat_bytes(a: &[u8], b: &[u8]) -> (r: Vec<u8>)
    ensures
        r@ == a@ + b@,
{
    let mut r: Vec<u8> = Vec::new();
    let mut i: usize = 0;
    while i < a.len()
        invariant
            i <= a@.len(),
            r@ == a@.subrange(0, i as int),
        decreases a@.len() - i,
    {
        r.push(a[i]);
        i += 1;
    }
    let mut j: usize = 0;
    while j < b.len()
        invariant
            j <= b@.len(),
            r@ == a@.subrange(0, a@.len() as int) + b@.subrange(0, j as int),
        decreases b@.len() - j,
    {
        r.push(b[j]);
        j += 1;
    }
    proof {
        assert(r@ =~= a@ + b@);
    }
    r
}

/// Computes the commitment digest for a value and a salt. Both the attest
/// path and the verify path call this one function, so the two sides can
/// never disagree on ordering or on the hash.
pub fn compute_commitment(value: &[u8], salt: &[u8]) -> (r: Vec<u8>)
    ensures
        r@ == commitment_of(value@, salt@),
        r@.len() == 32,
{
    let data = concat_bytes(value, salt);
    sha256(data.as_slice())
}

/// Determinism of the commitment: any two digests computed from the same
/// value and the same salt are identical.
pub proof fn lemma_commitment_deterministic(value: Seq<u8>, salt: Seq<u8>, d1: Seq<u8>, d2: Seq<u8>)
    requires
        d1 == commitment_of(value, salt),
        d2 == commitment_of(value, salt),
    ensures
        d1 == d2,
{
}

} // verus!
