//! The algebra that the scheme is built on: a field of prime order and a
//! group of the same order.
//!
//! Contracts speak of a field element through the residue it stands for, and
//! of a group element through its discrete logarithm. Both are ghost values:
//! no code computes them. An implementation that is verified defines them
//! and is checked against the contracts below. An implementation that is
//! only compiled leaves them as they are declared here, as unspecified
//! functions of the element, and promises that some choice of them
//! satisfies the contracts.

use vstd::prelude::*;

verus! {

/// The sum of two residues modulo `q`.
pub open spec fn sum_mod(a: nat, b: nat, q: nat) -> nat {
    ((a + b) as int % q as int) as nat
}

/// The product of two residues modulo `q`.
pub open spec fn product_mod(a: nat, b: nat, q: nat) -> nat {
    ((a * b) as int % q as int) as nat
}

/// An element of a field of prime order.
///
/// The operations are the arithmetic of residues modulo
/// [`PrimeField::modulus`], and what they return is a residue below it.
pub trait PrimeField: Sized + Copy {
    /// The number of elements of the field. Unspecified unless the
    /// implementation defines it.
    open spec fn modulus() -> nat {
        arbitrary()
    }

    /// The residue that the element stands for. An unspecified function of
    /// the element unless the implementation defines it.
    open spec fn value(&self) -> nat {
        let residue: spec_fn(Self) -> nat = arbitrary();
        residue(*self)
    }

    /// The additive identity.
    fn zero() -> (r: Self)
        ensures
            r.value() == 0,
            r.value() < Self::modulus(),
    ;

    /// Whether the element is the additive identity.
    fn is_zero(&self) -> (r: bool)
        ensures
            r == (self.value() == 0),
    ;

    /// The sum of two elements.
    fn add(&self, rhs: &Self) -> (r: Self)
        ensures
            r.value() == sum_mod(self.value(), rhs.value(), Self::modulus()),
            r.value() < Self::modulus(),
    ;

    /// The product of two elements.
    fn mul(&self, rhs: &Self) -> (r: Self)
        ensures
            r.value() == product_mod(self.value(), rhs.value(), Self::modulus()),
            r.value() < Self::modulus(),
    ;
}

/// An element of a group of prime order, written additively, with a fixed
/// generator.
///
/// The order of the group is the modulus of its scalar field, so every
/// element is exactly one multiple `k` of the generator with `k` below that
/// modulus. The operations act on `k` as stated, and what they return has a
/// `k` below the order.
pub trait PrimeGroup: Sized + Copy {
    /// The scalars that elements are multiplied by.
    type Scalar: PrimeField;

    /// The discrete logarithm of the element: the `k` for which the element
    /// is `k` times the generator. An unspecified function of the element
    /// unless the implementation defines it.
    open spec fn dlog(&self) -> nat {
        let logarithm: spec_fn(Self) -> nat = arbitrary();
        logarithm(*self)
    }

    /// The neutral element.
    fn identity() -> (r: Self)
        ensures
            r.dlog() == 0,
            r.dlog() < Self::Scalar::modulus(),
    ;

    /// Whether the element is the neutral element.
    fn is_identity(&self) -> (r: bool)
        ensures
            r == (self.dlog() == 0),
    ;

    /// The sum of two elements.
    fn add(&self, rhs: &Self) -> (r: Self)
        ensures
            r.dlog() == sum_mod(self.dlog(), rhs.dlog(), Self::Scalar::modulus()),
            r.dlog() < Self::Scalar::modulus(),
    ;

    /// The element multiplied by a scalar.
    fn mul(&self, scalar: &Self::Scalar) -> (r: Self)
        ensures
            r.dlog() == product_mod(self.dlog(), scalar.value(), Self::Scalar::modulus()),
            r.dlog() < Self::Scalar::modulus(),
    ;
}

} // verus!
