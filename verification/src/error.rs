//! The failures that the operations of this crate report.

use vstd::prelude::*;

verus! {

/// Why an operation refused its input.
#[derive(Debug, Clone, Copy, PartialEq, Eq, Structural)]
pub enum CryptoError {
    /// An input buffer does not have the fixed size that the operation needs.
    InvalidLength,
    /// Fewer than 32 bytes of randomness were supplied for a private key.
    InsufficientRandomness,
    /// A byte string is not the encoding of a point on the Edwards curve.
    DecompressionFailure,
    /// A scalar encoding is not below the group order.
    NonCanonicalScalar,
    /// More output was asked of HKDF than it can expand to.
    DerivationLengthExceeded,
}

/// The outcome of an operation that returns bytes, with the bytes as a
/// sequence.
pub open spec fn result_view(r: Result<Vec<u8>, CryptoError>) -> Result<Seq<u8>, CryptoError> {
    match r {
        Ok(bytes) => Ok(bytes@),
        Err(e) => Err(e),
    }
}

} // verus!
