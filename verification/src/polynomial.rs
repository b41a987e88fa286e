//! Univariate polynomials over a prime field.

use vstd::prelude::*;
use vstd::arithmetic::div_mod::{
    lemma_add_mod_noop,
    lemma_mod_twice,
    lemma_mul_mod_noop_left,
    lemma_small_mod,
};
use vstd::arithmetic::mul::{lemma_mul_is_associative, lemma_mul_is_distributive_add};
use vstd::arithmetic::power::{lemma_pow0, pow};
use crate::algebra::{sum_mod, PrimeField};

verus! {

/// The residues that a sequence of field elements stands for.
pub open spec fn residues<F: PrimeField>(elements: Seq<F>) -> Seq<nat> {
    Seq::new(elements.len(), |i: int| elements[i].value())
}

/// The integer `a[0] + a[1] x + a[2] x^2 + ...`, not reduced.
pub open spec fn evaluation(a: Seq<nat>, x: int) -> int
    decreases a.len(),
{
    if a.len() == 0 {
        0
    } else {
        evaluation(a.drop_last(), x) + a.last() * pow(x, (a.len() - 1) as nat)
    }
}

/// The coefficients of the sum of two polynomials over the field of `q`
/// elements: coefficient by coefficient, and where only one polynomial has
/// a coefficient, that coefficient.
pub open spec fn coefficient_sums(a: Seq<nat>, b: Seq<nat>, q: nat) -> Seq<nat> {
    Seq::new(
        if a.len() >= b.len() {
            a.len()
        } else {
            b.len()
        },
        |i: int|
            if i < a.len() && i < b.len() {
                sum_mod(a[i], b[i], q)
            } else if i < a.len() {
                a[i]
            } else {
                b[i]
            },
    )
}

/// Evaluating a polynomial is adding its constant term to `x` times the
/// evaluation of the polynomial of the remaining coefficients.
pub proof fn lemma_evaluation_unfolds_at_front(a: Seq<nat>, x: int)
    requires
        a.len() > 0,
    ensures
        evaluation(a, x) == a[0] + x * evaluation(a.skip(1), x),
    decreases a.len(),
{
    let n = a.len();
    let front = a.drop_last();
    let tail = a.skip(1);
    if n == 1 {
        assert(evaluation(front, x) == 0);
        lemma_pow0(x);
    } else {
        lemma_evaluation_unfolds_at_front(front, x);
        assert(front.skip(1) =~= tail.drop_last());
        let rest = evaluation(tail.drop_last(), x);
        let top = pow(x, (n - 2) as nat);
        assert(pow(x, (n - 1) as nat) == x * top) by {
            reveal(pow);
        }
        assert(x * (rest + a.last() * top) == x * rest + a.last() * (x * top)) by {
            lemma_mul_is_distributive_add(x, rest, a.last() * top);
            lemma_mul_is_associative(x, a.last() as int, top);
            lemma_mul_is_associative(a.last() as int, x, top);
        }
    }
}

/// One step of Horner's rule, on residues: from the reduced evaluation of
/// the higher coefficients to that of one coefficient more.
proof fn lemma_horner_step(higher: int, x: int, c: int, q: int, product: int, sum: int)
    requires
        q > 0,
        product == ((higher % q) * x) % q,
        sum == (product + c) % q,
    ensures
        sum == (c + x * higher) % q,
{
    lemma_mul_mod_noop_left(higher, x, q);
    lemma_add_mod_noop(higher * x, c, q);
    lemma_add_mod_noop(product, c, q);
    lemma_mod_twice(higher * x, q);
}

/// Univariate polynomial over a prime field.
///
/// The coefficient of `x^i` stands at index `i`. Trailing zero coefficients
/// are kept, so that polynomials of one degree have one size.
pub struct Polynomial<F: PrimeField> {
    a: Vec<F>,
}

impl<F: PrimeField> View for Polynomial<F> {
    type V = Seq<nat>;

    /// The residues of the coefficients, lowest power first.
    open spec fn view(&self) -> Seq<nat> {
        residues(self.coefficients())
    }
}

impl<F: PrimeField> Polynomial<F> {
    /// The coefficients, lowest power first.
    pub closed spec fn coefficients(&self) -> Seq<F> {
        self.a@
    }

    /// The degree: one less than the number of coefficients, and zero where
    /// there is none.
    pub open spec fn spec_degree(&self) -> nat {
        if self@.len() == 0 {
            0
        } else {
            (self@.len() - 1) as nat
        }
    }

    /// The residue that the polynomial takes at the residue `x`.
    pub open spec fn spec_eval(&self, x: nat) -> nat {
        (evaluation(self@, x as int) % (F::modulus() as int)) as nat
    }

    /// Creates a polynomial with the given coefficients.
    pub fn with_coefficients(a: Vec<F>) -> (r: Self)
        ensures
            r.coefficients() == a@,
    {
        Polynomial { a }
    }

    /// Returns the number of coefficients.
    pub fn size(&self) -> (r: usize)
        ensures
            r == self@.len(),
    {
        self.a.len()
    }

    /// Returns the degree: one less than the number of coefficients, and
    /// zero for a polynomial without coefficients.
    pub fn degree(&self) -> (r: usize)
        ensures
            r == self.spec_degree(),
    {
        let n: usize = self.a.len();
        if n == 0 {
            0
        } else {
            n - 1
        }
    }

    /// Returns the coefficient of `x^index`, if the polynomial has one.
    pub fn coefficient(&self, index: usize) -> (r: Option<&F>)
        ensures
            r == if index < self.coefficients().len() {
                Some(&self.coefficients()[index as int])
            } else {
                None
            },
    {
        if index < self.a.len() {
            Some(&self.a[index])
        } else {
            None
        }
    }

    /// Evaluates the polynomial at `x`.
    pub fn eval(&self, x: &F) -> (r: F)
        ensures
            r.value() == self.spec_eval(x.value()),
    {
        let ghost q = F::modulus() as int;
        let ghost point = x.value() as int;
        let mut r = F::zero();
        let mut i: usize = self.a.len();
        proof {
            lemma_small_mod(0, F::modulus());
        }
        while i > 0
            invariant
                i <= self.a.len(),
                q == F::modulus(),
                q > 0,
                point == x.value(),
                r.value() == evaluation(self@.skip(i as int), point) % q,
            decreases i,
        {
            let ghost higher = evaluation(self@.skip(i as int), point);
            i = i - 1;
            let product = r.mul(x);
            r = product.add(&self.a[i]);
            proof {
                let lower = self@.skip(i as int);
                assert(lower.skip(1) =~= self@.skip(i + 1));
                lemma_evaluation_unfolds_at_front(lower, point);
                lemma_horner_step(
                    higher,
                    point,
                    lower[0] as int,
                    q,
                    product.value() as int,
                    r.value() as int,
                );
            }
        }
        proof {
            assert(self@.skip(0) =~= self@);
        }
        r
    }

    /// Adds two polynomials, coefficient by coefficient.
    pub fn add(&self, rhs: &Self) -> (r: Self)
        ensures
            r@ == coefficient_sums(self@, rhs@, F::modulus()),
    {
        let n: usize = self.a.len();
        let m: usize = rhs.a.len();
        let ghost expected = coefficient_sums(self@, rhs@, F::modulus());
        let mut a: Vec<F> = Vec::new();
        let mut i: usize = 0;
        while i < n || i < m
            invariant
                n == self.a.len(),
                m == rhs.a.len(),
                n == self@.len(),
                m == rhs@.len(),
                i <= n || i <= m,
                a.len() == i,
                expected == coefficient_sums(self@, rhs@, F::modulus()),
                expected.len() == if n >= m { n } else { m },
                forall|j: int| 0 <= j < i ==> (#[trigger] a@[j]).value() == expected[j],
            decreases (if n >= m { n } else { m }) - i,
        {
            let c = if i < n && i < m {
                self.a[i].add(&rhs.a[i])
            } else if i < n {
                self.a[i]
            } else {
                rhs.a[i]
            };
            a.push(c);
            i = i + 1;
        }
        Polynomial { a }
    }
}

} // verus!
