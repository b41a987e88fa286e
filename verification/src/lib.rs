//! Shareholder side of a churn-resistant proactive secret-sharing scheme.
//!
//! A secret is shared by a polynomial over the scalar field of a group of
//! prime order, and the sharing is committed to by a verification matrix of
//! group elements. The crate is generic over the field, the group and the
//! hash-to-field function: callers supply them through the traits of
//! [`algebra`] and [`suites`].

pub mod algebra;
pub mod errors;
pub mod matrix;
pub mod polynomial;
pub mod shareholder;
pub mod suites;

pub use algebra::{PrimeField, PrimeGroup};
pub use errors::Error;
pub use matrix::VerificationMatrix;
pub use polynomial::Polynomial;
pub use shareholder::{SecretShare, Shareholder, ShareholderId, SHAREHOLDER_ENC_DST};
pub use suites::FieldDigest;
