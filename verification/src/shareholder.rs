//! Shareholders and their identifiers.

use vstd::prelude::*;
use vstd::arithmetic::div_mod::lemma_small_mod;
use crate::algebra::{product_mod, PrimeField, PrimeGroup};
use crate::errors::Error;
use crate::matrix::{entry_sums, VerificationMatrix};
use crate::polynomial::{coefficient_sums, Polynomial};
use crate::suites::FieldDigest;

verus! {

/// Domain separation tag for encoding shareholder identifiers: the bytes
/// of `shareholder`.
pub const SHAREHOLDER_ENC_DST: [u8; 11] = [
    0x73, 0x68, 0x61, 0x72, 0x65, 0x68, 0x6f, 0x6c, 0x64, 0x65, 0x72,
];

/// Shareholder identifier.
#[derive(Debug, Clone, Copy, PartialEq, Eq, Hash)]
pub struct ShareholderId(pub [u8; 32]);

impl View for ShareholderId {
    type V = Seq<u8>;

    open spec fn view(&self) -> Seq<u8> {
        self.0@
    }
}

impl ShareholderId {
    /// What an identifier encodes to, given what its bytes hash to: a hash
    /// that failed and a hash of zero are both refused.
    pub open spec fn checked(hashed: Option<nat>) -> Result<nat, Error> {
        match hashed {
            None => Err(Error::ShareholderEncodingFailed),
            Some(v) => if v == 0 {
                Err(Error::ZeroValueShareholder)
            } else {
                Ok(v)
            },
        }
    }

    /// The residue that the identifier encodes to under the digest `H`, or
    /// the error that the encoding ends in.
    pub open spec fn spec_encode<H: FieldDigest>(&self) -> Result<nat, Error> {
        Self::checked(H::digest(self@, SHAREHOLDER_ENC_DST@))
    }

    /// Whether `r` is an encoding of the identifier under the digest `H`:
    /// the element of the residue that it encodes to, or the error.
    pub open spec fn encodes_to<H: FieldDigest>(&self, r: Result<H::Output, Error>) -> bool {
        match self.spec_encode::<H>() {
            Ok(v) => r matches Ok(s) && s.value() == v,
            Err(e) => r matches Err(f) && f == e,
        }
    }

    /// Turns the outcome of hashing an identifier into its encoding: the
    /// element that was hashed to unless it is zero.
    pub fn check_hashed<F: PrimeField, E>(hashed: Result<F, E>) -> (r: Result<F, Error>)
        ensures
            match hashed {
                Ok(s) => if s.value() == 0 {
                    r matches Err(e) && e == Error::ZeroValueShareholder
                } else {
                    r matches Ok(t) && t == s
                },
                Err(_) => r matches Err(e) && e == Error::ShareholderEncodingFailed,
            },
    {
        match hashed {
            Ok(s) => {
                if s.is_zero() {
                    Err(Error::ZeroValueShareholder)
                } else {
                    Ok(s)
                }
            },
            Err(_) => Err(Error::ShareholderEncodingFailed),
        }
    }

    /// Encodes the given shareholder ID to a non-zero element of the prime field.
    pub fn encode<H: FieldDigest>(&self) -> (r: Result<H::Output, Error>)
        ensures
            self.encodes_to::<H>(r),
            r matches Ok(s) ==> s.value() != 0,
    {
        let hashed = H::hash_to_field(self.0.as_slice(), SHAREHOLDER_ENC_DST.as_slice());
        Self::check_hashed(hashed)
    }
}

/// Encoding is a function of the bytes of the identifier: two encodings of
/// identifiers with the same bytes both succeed, with elements of the same
/// residue, or both fail with the same error.
pub proof fn lemma_encode_deterministic<H: FieldDigest>(
    a: ShareholderId,
    b: ShareholderId,
    first: Result<H::Output, Error>,
    second: Result<H::Output, Error>,
)
    requires
        a@ == b@,
        a.encodes_to::<H>(first),
        b.encodes_to::<H>(second),
    ensures
        first is Ok <==> second is Ok,
        first is Ok ==> first->Ok_0.value() == second->Ok_0.value(),
        first is Err ==> first->Err_0 == second->Err_0,
{
}

/// Secret share of the shared secret.
pub struct SecretShare<G: PrimeGroup> {
    /// Secret polynomial.
    p: Polynomial<G::Scalar>,
    /// Verification matrix.
    vm: VerificationMatrix<G>,
}

impl<G: PrimeGroup> SecretShare<G> {
    /// The polynomial of the share.
    pub closed spec fn spec_polynomial(&self) -> &Polynomial<G::Scalar> {
        &self.p
    }

    /// The verification matrix of the share.
    pub closed spec fn spec_verification_matrix(&self) -> &VerificationMatrix<G> {
        &self.vm
    }

    /// Creates a new secret share.
    pub fn new(p: Polynomial<G::Scalar>, vm: VerificationMatrix<G>) -> (r: Self)
        ensures
            *r.polynomial() == p,
            *r.verification_matrix() == vm,
    {
        Self { p, vm }
    }

    /// Returns the polynomial.
    #[verifier::when_used_as_spec(spec_polynomial)]
    pub fn polynomial(&self) -> (r: &Polynomial<G::Scalar>)
        ensures
            r == self.polynomial(),
    {
        &self.p
    }

    /// Returns the verification matrix.
    #[verifier::when_used_as_spec(spec_verification_matrix)]
    pub fn verification_matrix(&self) -> (r: &VerificationMatrix<G>)
        ensures
            r == self.verification_matrix(),
    {
        &self.vm
    }
}

/// Shareholder is responsible for deriving key shares and generating
/// switch points during handoffs when the committee is trying
/// to switch to the other dimension.
pub struct Shareholder<G: PrimeGroup> {
    /// Secret (full or reduced) share of the shared secret.
    share: SecretShare<G>,
}

impl<G: PrimeGroup> Shareholder<G> {
    /// The secret share of the shareholder.
    pub closed spec fn spec_secret_share(&self) -> &SecretShare<G> {
        &self.share
    }

    /// The polynomial of the shareholder.
    pub open spec fn spec_polynomial(&self) -> &Polynomial<G::Scalar> {
        self.secret_share().polynomial()
    }

    /// The verification matrix of the shareholder.
    pub open spec fn spec_verification_matrix(&self) -> &VerificationMatrix<G> {
        self.secret_share().verification_matrix()
    }

    /// The discrete logarithm of the key share for a hash of the given
    /// discrete logarithm: the hash times the constant coefficient, and
    /// zero, for the neutral element, where the polynomial has none.
    pub open spec fn spec_key_share(&self, hash: nat) -> nat {
        if self.polynomial()@.len() > 0 {
            product_mod(hash, self.polynomial()@[0], G::Scalar::modulus())
        } else {
            0
        }
    }

    /// Why the update `(p, vm)` is refused, if it is: the first of the
    /// degree, zero-hole and dimension checks that fails.
    pub open spec fn refusal(
        &self,
        p: &Polynomial<G::Scalar>,
        vm: &VerificationMatrix<G>,
    ) -> Option<Error> {
        if p.spec_degree() != self.polynomial().spec_degree() {
            Some(Error::PolynomialDegreeMismatch)
        } else if !vm.spec_is_zero_hole() {
            Some(Error::VerificationMatrixZeroHoleMismatch)
        } else if vm.spec_dimensions() != self.verification_matrix().spec_dimensions() {
            Some(Error::VerificationMatrixDimensionMismatch)
        } else {
            None
        }
    }

    /// Whether `next` is this shareholder after the update `(p, vm)`: its
    /// polynomial is the sum of the polynomials and its verification matrix
    /// the sum of the matrices.
    pub open spec fn proactivized(
        &self,
        p: &Polynomial<G::Scalar>,
        vm: &VerificationMatrix<G>,
        next: &Shareholder<G>,
    ) -> bool {
        &&& next.polynomial()@ == coefficient_sums(p@, self.polynomial()@, G::Scalar::modulus())
        &&& next.verification_matrix()@ == entry_sums(
            vm@,
            self.verification_matrix()@,
            G::Scalar::modulus(),
        )
    }

    /// Creates a new shareholder.
    pub fn new(p: Polynomial<G::Scalar>, vm: VerificationMatrix<G>) -> (r: Self)
        ensures
            *r.polynomial() == p,
            *r.verification_matrix() == vm,
    {
        Shareholder::from(SecretShare::new(p, vm))
    }

    /// Returns the secret share.
    #[verifier::when_used_as_spec(spec_secret_share)]
    pub fn secret_share(&self) -> (r: &SecretShare<G>)
        ensures
            r == self.secret_share(),
    {
        &self.share
    }

    /// Returns the polynomial.
    #[verifier::when_used_as_spec(spec_polynomial)]
    pub fn polynomial(&self) -> (r: &Polynomial<G::Scalar>)
        ensures
            r == self.polynomial(),
    {
        self.share.polynomial()
    }

    /// Returns the verification matrix.
    #[verifier::when_used_as_spec(spec_verification_matrix)]
    pub fn verification_matrix(&self) -> (r: &VerificationMatrix<G>)
        ensures
            r == self.verification_matrix(),
    {
        self.share.verification_matrix()
    }

    /// Computes switch point for the given shareholder.
    pub fn switch_point(&self, id: &G::Scalar) -> (r: G::Scalar)
        ensures
            r.value() == self.polynomial().spec_eval(id.value()),
    {
        self.share.polynomial().eval(id)
    }

    /// Computes key share from the given hash.
    pub fn key_share(&self, hash: G) -> (r: G)
        ensures
            r.dlog() == self.spec_key_share(hash.dlog()),
    {
        match self.share.polynomial().coefficient(0) {
            Some(s) => hash.mul(s),
            None => G::identity(),
        }
    }

    /// Creates a new shareholder with a proactivized secret polynomial.
    pub fn proactivize(&self, p: &Polynomial<G::Scalar>, vm: &VerificationMatrix<G>) -> (r: Result<
        Shareholder<G>,
        Error,
    >)
        ensures
            r is Ok <==> p.spec_degree() == self.polynomial().spec_degree()
                && vm.spec_is_zero_hole() && vm.spec_dimensions()
                == self.verification_matrix().spec_dimensions(),
            match self.refusal(p, vm) {
                Some(e) => r matches Err(f) && f == e,
                None => r matches Ok(next) && self.proactivized(p, vm, &next),
            },
            r matches Ok(next) ==> next.polynomial().spec_degree()
                == self.polynomial().spec_degree()
                && next.verification_matrix().spec_dimensions()
                == self.verification_matrix().spec_dimensions(),
    {
        if p.degree() != self.share.polynomial().degree() {
            return Err(Error::PolynomialDegreeMismatch);
        }
        if !vm.is_zero_hole() {
            return Err(Error::VerificationMatrixZeroHoleMismatch);
        }
        let given = vm.dimensions();
        let current = self.share.verification_matrix().dimensions();
        if given.0 != current.0 || given.1 != current.1 {
            return Err(Error::VerificationMatrixDimensionMismatch);
        }
        let p = p.add(self.share.polynomial());
        let vm = vm.add(self.share.verification_matrix());
        let shareholder = Shareholder::new(p, vm);

        Ok(shareholder)
    }
}

impl<G: PrimeGroup> From<SecretShare<G>> for Shareholder<G> {
    fn from(share: SecretShare<G>) -> (r: Shareholder<G>)
        ensures
            *r.secret_share() == share,
    {
        Shareholder { share }
    }
}

impl<G: PrimeGroup> vstd::std_specs::convert::FromSpecImpl<SecretShare<G>> for Shareholder<G> {
    open spec fn obeys_from_spec() -> bool {
        true
    }

    closed spec fn from_spec(share: SecretShare<G>) -> Shareholder<G> {
        Shareholder { share }
    }
}

/// Proactivization preserves the secret: where the constant coefficient of
/// the current polynomial is the residue `s`, and that of an update that is
/// not refused is zero or missing, the constant coefficient of the new
/// polynomial is `s`.
pub proof fn lemma_proactivize_preserves_secret<G: PrimeGroup>(
    current: Shareholder<G>,
    p: Polynomial<G::Scalar>,
    vm: VerificationMatrix<G>,
    next: Shareholder<G>,
    s: nat,
)
    requires
        s < G::Scalar::modulus(),
        current.polynomial()@.len() > 0,
        current.polynomial()@[0] == s,
        p@.len() > 0 ==> p@[0] == 0,
        current.refusal(&p, &vm) is None,
        current.proactivized(&p, &vm, &next),
    ensures
        next.polynomial()@.len() > 0,
        next.polynomial()@[0] == s,
{
    lemma_small_mod(s, G::Scalar::modulus());
}

} // verus!
