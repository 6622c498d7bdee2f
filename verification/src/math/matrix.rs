//! A 2-by-2 linear map over fixed-point scalars, stored by columns.

use vstd::prelude::*;
use crate::math::fixed::{Fx, fx_mul, FX_SCALE};
use crate::math::point::{Pt2, pt_dot, pt_add};

verus! {

/// A 2-by-2 matrix. Each column is held as a point, so that a row vector
/// times the matrix is the pair of dot products with the columns.
#[derive(Clone, Copy, PartialEq, Eq, Structural, Debug)]
pub struct Matrix {
    pub col0: Pt2,
    pub col1: Pt2,
}

/// The identity matrix.
pub open spec fn mat_identity() -> Matrix {
    Matrix {
        col0: Pt2 { x: Fx { raw: FX_SCALE }, y: Fx { raw: 0 } },
        col1: Pt2 { x: Fx { raw: 0 }, y: Fx { raw: FX_SCALE } },
    }
}

/// Entry-by-entry sum of two matrices. Transform builders accumulate scale
/// and rotation by adding into the linear map with this operation; it is
/// deliberately not standard matrix composition.
pub open spec fn mat_add(a: Matrix, b: Matrix) -> Matrix {
    Matrix { col0: pt_add(a.col0, b.col0), col1: pt_add(a.col1, b.col1) }
}

/// A row vector times a matrix: the dot products with the two columns.
pub open spec fn mat_apply(p: Pt2, m: Matrix) -> Pt2 {
    Pt2 { x: pt_dot(p, m.col0), y: pt_dot(p, m.col1) }
}

impl Matrix {
    /// The matrix with the given columns.
    pub fn new(col0: Pt2, col1: Pt2) -> (r: Self)
        ensures
            r.col0 == col0 && r.col1 == col1,
    {
        Self { col0, col1 }
    }

    /// The matrix with the given rows (entries transposed into columns).
    pub fn from_rows(row0: Pt2, row1: Pt2) -> (r: Self)
        ensures
            r.col0 == (Pt2 { x: row0.x, y: row1.x }),
            r.col1 == (Pt2 { x: row0.y, y: row1.y }),
    {
        Self {
            col0: Pt2 { x: row0.x, y: row1.x },
            col1: Pt2 { x: row0.y, y: row1.y },
        }
    }

    /// The identity matrix.
    pub fn identity() -> (r: Self)
        ensures
            r == mat_identity(),
    {
        Self {
            col0: Pt2 { x: Fx::one(), y: Fx::zero() },
            col1: Pt2 { x: Fx::zero(), y: Fx::one() },
        }
    }

    /// The diagonal matrix with the given entries.
    pub fn diagonal(sx: Fx, sy: Fx) -> (r: Self)
        ensures
            r.col0 == (Pt2 { x: sx, y: Fx { raw: 0 } }),
            r.col1 == (Pt2 { x: Fx { raw: 0 }, y: sy }),
    {
        Self {
            col0: Pt2 { x: sx, y: Fx::zero() },
            col1: Pt2 { x: Fx::zero(), y: sy },
        }
    }

    /// The column with the given index (zero or one).
    pub fn column(&self, index: usize) -> (r: Pt2)
        requires
            index < 2,
        ensures
            r == (if index == 0 { self.col0 } else { self.col1 }),
    {
        if index == 0 {
            self.col0
        } else {
            self.col1
        }
    }

    /// Entry-by-entry sum with another matrix; see [`mat_add`] for the
    /// accumulation convention.
    pub fn add(self, rhs: Self) -> (r: Self)
        ensures
            r == mat_add(self, rhs),
    {
        Self { col0: self.col0.add(rhs.col0), col1: self.col1.add(rhs.col1) }
    }
}

impl Pt2 {
    /// This point as a row vector times a matrix.
    pub fn mul_mat(self, m: &Matrix) -> (r: Pt2)
        ensures
            r == mat_apply(self, *m),
    {
        Pt2 { x: self.dot(m.col0), y: self.dot(m.col1) }
    }
}

/// Multiplying a fixed-point number by one is exact.
pub proof fn lemma_fx_mul_one(a: Fx)
    ensures
        fx_mul(a, Fx { raw: FX_SCALE }) == a,
{
    assert((a.raw * (FX_SCALE as int)) / (FX_SCALE as int) == a.raw) by (nonlinear_arith)
        requires
            FX_SCALE == 65536,
    ;
}

/// Multiplying a fixed-point number by zero gives zero.
pub proof fn lemma_fx_mul_zero(a: Fx)
    ensures
        fx_mul(a, Fx { raw: 0 }) == (Fx { raw: 0 }),
{
    assert((a.raw * 0) / (FX_SCALE as int) == 0);
}

/// A row vector times the identity matrix is the vector itself.
pub proof fn lemma_mat_apply_identity(p: Pt2)
    ensures
        mat_apply(p, mat_identity()) == p,
{
    lemma_fx_mul_one(p.x);
    lemma_fx_mul_one(p.y);
    lemma_fx_mul_zero(p.x);
    lemma_fx_mul_zero(p.y);
}

} // verus!
