//! Verification matrices: commitments to the coefficients of a sharing
//! polynomial.

use vstd::prelude::*;
use crate::algebra::{sum_mod, PrimeField, PrimeGroup};

verus! {

/// The discrete logarithms of the elements of a row.
pub open spec fn row_dlogs<G: PrimeGroup>(row: Seq<G>) -> Seq<nat> {
    Seq::new(row.len(), |j: int| row[j].dlog())
}

/// The discrete logarithms of the elements of the given rows.
pub open spec fn dlogs<G: PrimeGroup>(rows: Seq<Vec<G>>) -> Seq<Seq<nat>> {
    Seq::new(rows.len(), |i: int| row_dlogs(rows[i]@))
}

/// Whether the rows make up a matrix: there is a row, the rows are not
/// empty, and they are of one length.
pub open spec fn rectangular(m: Seq<Seq<nat>>) -> bool {
    &&& m.len() > 0
    &&& m[0].len() > 0
    &&& forall|i: int| 0 <= i < m.len() ==> (#[trigger] m[i]).len() == m[0].len()
}

/// The sum of two matrices of the same dimensions over the group of order
/// `q`, entry by entry, in discrete logarithms.
pub open spec fn entry_sums(a: Seq<Seq<nat>>, b: Seq<Seq<nat>>, q: nat) -> Seq<Seq<nat>> {
    Seq::new(a.len(), |i: int| Seq::new(a[i].len(), |j: int| sum_mod(a[i][j], b[i][j], q)))
}

/// Verification matrix: the coefficients of a sharing polynomial, each
/// multiplied into the generator of the group.
///
/// The entry in row `i` and column `j` commits to the coefficient of
/// `x^i y^j`. A verification matrix has at least one row and one column.
pub struct VerificationMatrix<G: PrimeGroup> {
    m: Vec<Vec<G>>,
}

impl<G: PrimeGroup> View for VerificationMatrix<G> {
    type V = Seq<Seq<nat>>;

    /// The discrete logarithms of the entries, row by row.
    open spec fn view(&self) -> Seq<Seq<nat>> {
        dlogs(self.rows())
    }
}

impl<G: PrimeGroup> VerificationMatrix<G> {
    /// The rows of the matrix.
    pub closed spec fn rows(&self) -> Seq<Vec<G>> {
        self.m@
    }

    #[verifier::type_invariant]
    spec fn well_formed(&self) -> bool {
        rectangular(self@)
    }

    /// The number of rows and the number of columns.
    pub open spec fn spec_dimensions(&self) -> (nat, nat) {
        (self@.len(), self@[0].len())
    }

    /// Whether the matrix commits to a polynomial with constant term zero:
    /// its first entry is the neutral element.
    pub open spec fn spec_is_zero_hole(&self) -> bool {
        self@[0][0] == 0
    }

    /// Creates a verification matrix from its rows, or returns `None` where
    /// the rows do not make up a matrix.
    pub fn new(m: Vec<Vec<G>>) -> (r: Option<Self>)
        ensures
            r is Some <==> rectangular(dlogs(m@)),
            r matches Some(vm) ==> vm.rows() == m@,
    {
        let ghost d = dlogs(m@);
        if m.len() == 0 {
            return None;
        }
        let cols: usize = m[0].len();
        if cols == 0 {
            return None;
        }
        let mut i: usize = 1;
        while i < m.len()
            invariant
                1 <= i <= m.len(),
                d == dlogs(m@),
                cols == d[0].len(),
                forall|k: int| 0 <= k < i ==> (#[trigger] d[k]).len() == cols,
            decreases m.len() - i,
        {
            if m[i].len() != cols {
                proof {
                    assert(d[i as int].len() != d[0].len());
                }
                return None;
            }
            i = i + 1;
        }
        Some(VerificationMatrix { m })
    }

    /// Returns the dimensions (number of rows and columns) of the
    /// verification matrix.
    pub fn dimensions(&self) -> (r: (usize, usize))
        ensures
            rectangular(self@),
            (r.0 as nat, r.1 as nat) == self.spec_dimensions(),
    {
        proof {
            use_type_invariant(self);
        }
        (self.m.len(), self.m[0].len())
    }

    /// Returns the entry in the given row and column, if the matrix has
    /// one.
    pub fn element(&self, row: usize, col: usize) -> (r: Option<&G>)
        ensures
            rectangular(self@),
            r == if row < self.spec_dimensions().0 && col < self.spec_dimensions().1 {
                Some(&self.rows()[row as int]@[col as int])
            } else {
                None
            },
    {
        proof {
            use_type_invariant(self);
        }
        if row < self.m.len() {
            proof {
                assert(self@[row as int].len() == self.m@[row as int]@.len());
            }
            if col < self.m[row].len() {
                return Some(&self.m[row][col]);
            }
        }
        None
    }

    /// Returns true if and only if the first entry is the neutral element
    /// of the group.
    pub fn is_zero_hole(&self) -> (r: bool)
        ensures
            r == self.spec_is_zero_hole(),
    {
        proof {
            use_type_invariant(self);
        }
        self.m[0][0].is_identity()
    }

    /// Adds two verification matrices of the same dimensions, entry by
    /// entry.
    pub fn add(&self, rhs: &Self) -> (r: Self)
        requires
            self.spec_dimensions() == rhs.spec_dimensions(),
        ensures
            r@ == entry_sums(self@, rhs@, G::Scalar::modulus()),
    {
        proof {
            use_type_invariant(self);
            use_type_invariant(rhs);
        }
        let ghost q = G::Scalar::modulus();
        let ghost expected = entry_sums(self@, rhs@, q);
        let rows: usize = self.m.len();
        let mut m: Vec<Vec<G>> = Vec::new();
        let mut i: usize = 0;
        while i < rows
            invariant
                i <= rows,
                rows == self.m.len(),
                rows == rhs.m.len(),
                rectangular(self@),
                rectangular(rhs@),
                self@[0].len() == rhs@[0].len(),
                q == G::Scalar::modulus(),
                expected == entry_sums(self@, rhs@, q),
                m.len() == i,
                forall|k: int| 0 <= k < i ==> row_dlogs((#[trigger] m@[k])@) == expected[k],
            decreases rows - i,
        {
            let cols: usize = self.m[i].len();
            proof {
                assert(self@[i as int].len() == cols);
                assert(rhs@[i as int].len() == rhs.m@[i as int]@.len());
            }
            let mut row: Vec<G> = Vec::new();
            let mut j: usize = 0;
            while j < cols
                invariant
                    j <= cols,
                    i < rows,
                    rows == self.m.len(),
                    rows == rhs.m.len(),
                    cols == self.m@[i as int]@.len(),
                    cols == rhs.m@[i as int]@.len(),
                    q == G::Scalar::modulus(),
                    expected == entry_sums(self@, rhs@, q),
                    row.len() == j,
                    forall|l: int| 0 <= l < j ==> (#[trigger] row@[l]).dlog() == expected[i as int][l],
                decreases cols - j,
            {
                let g = self.m[i][j].add(&rhs.m[i][j]);
                row.push(g);
                j = j + 1;
            }
            m.push(row);
            i = i + 1;
        }
        VerificationMatrix { m }
    }
}

} // verus!
