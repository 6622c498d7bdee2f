//! A 2D affine transform: linear map, offset and pivot.

use vstd::prelude::*;
use crate::math::fixed::Fx;
use crate::math::matrix::{Matrix, mat_identity, mat_add, mat_apply, lemma_mat_apply_identity};
use crate::math::point::{Pt2, pt_add, pt_sub};

verus! {

/// An affine transform. Applying it to a point always computes
/// pivot-subtract, then the linear map, then offset-add, in that order.
#[derive(Clone, Copy, PartialEq, Eq, Structural, Debug)]
pub struct Transform {
    pub mat: Matrix,
    pub offset: Pt2,
    pub pivot: Pt2,
}

/// The identity transform: identity matrix, zero offset, zero pivot.
pub open spec fn transform_identity() -> Transform {
    Transform {
        mat: mat_identity(),
        offset: Pt2 { x: Fx { raw: 0 }, y: Fx { raw: 0 } },
        pivot: Pt2 { x: Fx { raw: 0 }, y: Fx { raw: 0 } },
    }
}

/// What applying a transform to a point yields:
/// `(point - pivot) * linear + offset`.
pub open spec fn transform_apply(t: Transform, p: Pt2) -> Pt2 {
    pt_add(mat_apply(pt_sub(p, t.pivot), t.mat), t.offset)
}

impl Transform {
    /// The transform with the given parts.
    pub fn new(mat: Matrix, offset: Pt2, pivot: Pt2) -> (r: Self)
        ensures
            r.mat == mat && r.offset == offset && r.pivot == pivot,
    {
        Self { mat, offset, pivot }
    }

    /// The identity transform.
    pub fn identity() -> (r: Self)
        ensures
            r == transform_identity(),
    {
        Self { mat: Matrix::identity(), offset: Pt2::zero(), pivot: Pt2::zero() }
    }

    /// This transform with a uniform scale added into its linear map.
    /// Repeated calls accumulate; the scale does not replace the old one.
    pub fn scaled_uniform(self, scale: Fx) -> (r: Self)
        ensures
            r.mat == mat_add(self.mat, (Matrix {
                col0: Pt2 { x: scale, y: Fx { raw: 0 } },
                col1: Pt2 { x: Fx { raw: 0 }, y: scale },
            })),
            r.offset == self.offset,
            r.pivot == self.pivot,
    {
        Self { mat: self.mat.add(Matrix::diagonal(scale, scale)), ..self }
    }

    /// This transform with a per-axis scale added into its linear map.
    /// Repeated calls accumulate; the scale does not replace the old one.
    pub fn scaled(self, scale: Pt2) -> (r: Self)
        ensures
            r.mat == mat_add(self.mat, (Matrix {
                col0: Pt2 { x: scale.x, y: Fx { raw: 0 } },
                col1: Pt2 { x: Fx { raw: 0 }, y: scale.y },
            })),
            r.offset == self.offset,
            r.pivot == self.pivot,
    {
        Self { mat: self.mat.add(Matrix::diagonal(scale.x, scale.y)), ..self }
    }

    /// This transform with the given offset added into its offset.
    /// Repeated calls accumulate.
    pub fn with_offset(self, offset: Pt2) -> (r: Self)
        ensures
            r.offset == pt_add(self.offset, offset),
            r.mat == self.mat,
            r.pivot == self.pivot,
    {
        Self { offset: self.offset.add(offset), ..self }
    }

    /// This transform with the given pivot added into its pivot.
    /// Repeated calls accumulate.
    pub fn with_pivot(self, pivot: Pt2) -> (r: Self)
        ensures
            r.pivot == pt_add(self.pivot, pivot),
            r.mat == self.mat,
            r.offset == self.offset,
    {
        Self { pivot: self.pivot.add(pivot), ..self }
    }
}

impl Pt2 {
    /// This point taken through a transform: pivot-subtract, linear map,
    /// offset-add, in that order.
    pub fn apply(self, t: &Transform) -> (r: Pt2)
        ensures
            r == transform_apply(*t, self),
    {
        self.sub(t.pivot).mul_mat(&t.mat).add(t.offset)
    }

    /// In-place version of [`Pt2::apply`].
    pub fn apply_assign(&mut self, t: &Transform)
        ensures
            *final(self) == transform_apply(*t, *old(self)),
    {
        *self = self.sub(t.pivot);
        *self = self.mul_mat(&t.mat);
        *self = self.add(t.offset);
    }
}

/// Applying the identity transform to any point gives the point back.
pub proof fn lemma_apply_identity(p: Pt2)
    ensures
        transform_apply(transform_identity(), p) == p,
{
    let q = pt_sub(p, transform_identity().pivot);
    assert(q == p);
    lemma_mat_apply_identity(p);
}

/// Applying any transform performs exactly pivot-subtract, linear map,
/// offset-add, in that order, for every point and every transform.
pub proof fn lemma_apply_unfolds(t: Transform, p: Pt2)
    ensures
        transform_apply(t, p) == pt_add(mat_apply(pt_sub(p, t.pivot), t.mat), t.offset),
{
}

} // verus!
