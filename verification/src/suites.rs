//! Hashing into the scalar field.

use vstd::prelude::*;
use crate::algebra::PrimeField;

verus! {

/// A hash function from byte strings to field elements, keyed by a domain
/// separation tag.
///
/// Implementations promise that the element is a function of the message and
/// the tag alone. Whether hashing succeeds is theirs to decide.
pub trait FieldDigest {
    /// The field that is hashed into.
    type Output: PrimeField;

    /// What a failed hash reports.
    type Error;

    /// The residue that `msg` hashes to under `dst`, or `None` where hashing
    /// fails. An unspecified function of the two unless the implementation
    /// defines it.
    open spec fn digest(msg: Seq<u8>, dst: Seq<u8>) -> Option<nat> {
        let hashed: spec_fn(Seq<u8>, Seq<u8>) -> Option<nat> = arbitrary();
        hashed(msg, dst)
    }

    /// Hashes `msg` to a field element under the tag `dst`.
    fn hash_to_field(msg: &[u8], dst: &[u8]) -> (r: Result<Self::Output, Self::Error>)
        ensures
            r matches Ok(s) ==> Self::digest(msg@, dst@) == Some(s.value()),
            r is Err ==> Self::digest(msg@, dst@) is None,
    ;
}

} // verus!
