//! Errors of the shareholder operations.

use vstd::prelude::*;

verus! {

/// Why a shareholder operation was refused.
#[derive(Debug, Clone, Copy, PartialEq, Eq)]
pub enum Error {
    /// The update polynomial and the current polynomial differ in degree.
    PolynomialDegreeMismatch,
    /// Hashing the identifier to the field failed.
    ShareholderEncodingFailed,
    /// The dimensions of the update matrix and of the current matrix differ.
    VerificationMatrixDimensionMismatch,
    /// The update matrix does not commit to zero.
    VerificationMatrixZeroHoleMismatch,
    /// The identifier encodes to zero, the point at which the secret lies.
    ZeroValueShareholder,
}

} // verus!
