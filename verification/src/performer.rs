//! The random source: cryptographically secure random byte sequences of a
//! caller-chosen, positive length.

use vstd::prelude::*;
use crate::crypto::os_random_bytes;
use crate::errors::RngError;

verus! {

/// Produces cryptographically secure random byte sequences. Holds no state:
/// every call draws fresh entropy from the operating system.
pub struct RngPerformer {}

impl RngPerformer {
    /// Creates a new random source.
    pub fn new() -> (r: RngPerformer) {
        RngPerformer {}
    }

    /// Draws `length` cryptographically secure random bytes. Rejects a
    /// zero-length request with `InvalidArgument`; any positive length
    /// succeeds and returns exactly that many bytes.
    pub fn generate_random_number(&self, length: usize) -> (r: Result<Vec<u8>, RngError>)
        ensures
            r is Ok <==> length > 0,
            r matches Ok(v) ==> v@.len() == length,
            r matches Err(e) ==> e == RngError::InvalidArgument,
    {
        if length == 0 {
            return Err(RngError::InvalidArgument);
        }
        Ok(os_random_bytes(length))
    }
}

impl Default for RngPerformer {
    fn default() -> (r: Self) {
        RngPerformer {}
    }
}

} // verus!
