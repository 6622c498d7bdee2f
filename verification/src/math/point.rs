//! Integer and fixed-point points in the plane.

use vstd::prelude::*;
use crate::math::fixed::{
    Fx, fx_of, fx_add, fx_sub, fx_mul, fx_div, fx_floor, fx_ceil, fx_round, sqrt_floor,
    lemma_fx_mul_self_nonneg, lemma_sqrt_floor, lemma_sqrt_floor_pos, FX_SCALE,
};

verus! {

/// Clamp an unbounded integer into the `i32` range.
pub open spec fn sat32(x: int) -> int {
    if x > i32::MAX {
        i32::MAX as int
    } else if x < i32::MIN {
        i32::MIN as int
    } else {
        x
    }
}

/// Clamp an `i64` into the `i32` range.
fn clamp32(x: i64) -> (r: i32)
    ensures
        r as int == sat32(x as int),
{
    if x > i32::MAX as i64 {
        i32::MAX
    } else if x < i32::MIN as i64 {
        i32::MIN
    } else {
        x as i32
    }
}

/// A pixel-exact point with signed integer coordinates.
#[derive(Clone, Copy, PartialEq, Eq, Structural, Debug)]
pub struct Pt2i {
    pub x: i32,
    pub y: i32,
}

/// Shorthand constructor for `Pt2i`.
pub fn pt2i(x: i32, y: i32) -> (r: Pt2i)
    ensures
        r.x == x && r.y == y,
{
    Pt2i { x, y }
}

impl Pt2i {
    /// The point with the given coordinates.
    pub fn new(x: i32, y: i32) -> (r: Self)
        ensures
            r.x == x && r.y == y,
    {
        Self { x, y }
    }

    /// The origin.
    pub fn zero() -> (r: Self)
        ensures
            r.x == 0 && r.y == 0,
    {
        Self { x: 0, y: 0 }
    }

    /// Squared Euclidean length.
    pub fn length_squared(self) -> (r: i32)
        requires
            self.x * self.x + self.y * self.y <= i32::MAX,
        ensures
            r == self.x * self.x + self.y * self.y,
    {
        proof {
            assert(0 <= self.x * self.x <= i32::MAX && 0 <= self.y * self.y <= i32::MAX)
                by (nonlinear_arith)
                requires
                    self.x * self.x + self.y * self.y <= i32::MAX,
                    i32::MIN <= self.x <= i32::MAX,
                    i32::MIN <= self.y <= i32::MAX,
            ;
        }
        self.x * self.x + self.y * self.y
    }

    /// Euclidean length, in fixed-point precision, rounded down to the
    /// fixed-point grid.
    pub fn length(self) -> (r: Fx)
        ensures
            r == pt_length(Pt2::from_pt2i(self)),
    {
        Pt2::from_pt2i(self).length()
    }

    /// The unit-length direction of this point, in fixed-point
    /// precision.
    pub fn normalized(self) -> (r: Pt2)
        ensures
            r == pt_normalized(Pt2::from_pt2i(self)),
    {
        let pt: Pt2 = Pt2::from_pt2i(self);
        pt.normalized()
    }

    /// Component-wise sum.
    pub fn add(self, rhs: Self) -> (r: Self)
        requires
            i32::MIN <= self.x + rhs.x <= i32::MAX,
            i32::MIN <= self.y + rhs.y <= i32::MAX,
        ensures
            r.x == self.x + rhs.x && r.y == self.y + rhs.y,
    {
        Self { x: self.x + rhs.x, y: self.y + rhs.y }
    }

    /// Component-wise difference.
    pub fn sub(self, rhs: Self) -> (r: Self)
        requires
            i32::MIN <= self.x - rhs.x <= i32::MAX,
            i32::MIN <= self.y - rhs.y <= i32::MAX,
        ensures
            r.x == self.x - rhs.x && r.y == self.y - rhs.y,
    {
        Self { x: self.x - rhs.x, y: self.y - rhs.y }
    }

    /// Component-wise product.
    pub fn mul(self, rhs: Self) -> (r: Self)
        requires
            i32::MIN <= self.x * rhs.x <= i32::MAX,
            i32::MIN <= self.y * rhs.y <= i32::MAX,
        ensures
            r.x == self.x * rhs.x && r.y == self.y * rhs.y,
    {
        Self { x: self.x * rhs.x, y: self.y * rhs.y }
    }

    /// Both components scaled by an integer.
    pub fn mul_scalar(self, rhs: i32) -> (r: Self)
        requires
            i32::MIN <= self.x * rhs <= i32::MAX,
            i32::MIN <= self.y * rhs <= i32::MAX,
        ensures
            r.x == self.x * rhs && r.y == self.y * rhs,
    {
        Self { x: self.x * rhs, y: self.y * rhs }
    }

    /// Component-wise quotient, truncated toward zero.
    pub fn div(self, rhs: Self) -> (r: Self)
        requires
            rhs.x != 0,
            rhs.y != 0,
            !(self.x == i32::MIN && rhs.x == -1),
            !(self.y == i32::MIN && rhs.y == -1),
        ensures
            r.x == trunc_div(self.x as int, rhs.x as int),
            r.y == trunc_div(self.y as int, rhs.y as int),
    {
        Self {
            x: i32_trunc_div(self.x, rhs.x),
            y: i32_trunc_div(self.y, rhs.y),
        }
    }

    /// Both components divided by an integer, truncated toward zero.
    pub fn div_scalar(self, rhs: i32) -> (r: Self)
        requires
            rhs != 0,
            !(self.x == i32::MIN && rhs == -1),
            !(self.y == i32::MIN && rhs == -1),
        ensures
            r.x == trunc_div(self.x as int, rhs as int),
            r.y == trunc_div(self.y as int, rhs as int),
    {
        Self { x: i32_trunc_div(self.x, rhs), y: i32_trunc_div(self.y, rhs) }
    }

    /// In-place component-wise sum.
    pub fn add_assign(&mut self, rhs: Self)
        requires
            i32::MIN <= old(self).x + rhs.x <= i32::MAX,
            i32::MIN <= old(self).y + rhs.y <= i32::MAX,
        ensures
            final(self).x == old(self).x + rhs.x,
            final(self).y == old(self).y + rhs.y,
    {
        *self = self.add(rhs);
    }

    /// In-place component-wise difference.
    pub fn sub_assign(&mut self, rhs: Self)
        requires
            i32::MIN <= old(self).x - rhs.x <= i32::MAX,
            i32::MIN <= old(self).y - rhs.y <= i32::MAX,
        ensures
            final(self).x == old(self).x - rhs.x,
            final(self).y == old(self).y - rhs.y,
    {
        *self = self.sub(rhs);
    }

    /// In-place component-wise product.
    pub fn mul_assign(&mut self, rhs: Self)
        requires
            i32::MIN <= old(self).x * rhs.x <= i32::MAX,
            i32::MIN <= old(self).y * rhs.y <= i32::MAX,
        ensures
            final(self).x == old(self).x * rhs.x,
            final(self).y == old(self).y * rhs.y,
    {
        *self = self.mul(rhs);
    }

    /// In-place scaling by an integer.
    pub fn mul_assign_scalar(&mut self, rhs: i32)
        requires
            i32::MIN <= old(self).x * rhs <= i32::MAX,
            i32::MIN <= old(self).y * rhs <= i32::MAX,
        ensures
            final(self).x == old(self).x * rhs,
            final(self).y == old(self).y * rhs,
    {
        *self = self.mul_scalar(rhs);
    }

    /// In-place component-wise quotient, truncated toward zero.
    pub fn div_assign(&mut self, rhs: Self)
        requires
            rhs.x != 0,
            rhs.y != 0,
            !(old(self).x == i32::MIN && rhs.x == -1),
            !(old(self).y == i32::MIN && rhs.y == -1),
        ensures
            final(self).x == trunc_div(old(self).x as int, rhs.x as int),
            final(self).y == trunc_div(old(self).y as int, rhs.y as int),
    {
        *self = self.div(rhs);
    }

    /// In-place division by an integer, truncated toward zero.
    pub fn div_assign_scalar(&mut self, rhs: i32)
        requires
            rhs != 0,
            !(old(self).x == i32::MIN && rhs == -1),
            !(old(self).y == i32::MIN && rhs == -1),
        ensures
            final(self).x == trunc_div(old(self).x as int, rhs as int),
            final(self).y == trunc_div(old(self).y as int, rhs as int),
    {
        *self = self.div_scalar(rhs);
    }
}

/// Integer division truncated toward zero, as the machine division
/// computes it: the magnitudes divided, under the quotient's sign.
pub open spec fn trunc_div(a: int, b: int) -> int {
    if a >= 0 && b > 0 {
        a / b
    } else if a < 0 && b < 0 {
        (-a) / (-b)
    } else if a < 0 {
        -((-a) / b)
    } else {
        -(a / (-b))
    }
}

/// Machine division of signed integers: the magnitudes divided, negated
/// back when the signs differ.
fn i32_trunc_div(a: i32, b: i32) -> (r: i32)
    requires
        b != 0,
        !(a == i32::MIN && b == -1),
    ensures
        r == trunc_div(a as int, b as int),
{
    let an: u64 = if a < 0 {
        (-(a as i64)) as u64
    } else {
        a as u64
    };
    let bn: u64 = if b < 0 {
        (-(b as i64)) as u64
    } else {
        b as u64
    };
    let q: u64 = an / bn;
    proof {
        vstd::arithmetic::div_mod::lemma_fundamental_div_mod(an as int, bn as int);
        assert(0 <= q <= an) by (nonlinear_arith)
            requires
                an as int == (bn as int) * (q as int) + (an as int) % (bn as int),
                0 <= (an as int) % (bn as int) < bn,
                bn >= 1,
                an >= 0,
                q == (an as int) / (bn as int),
        ;
        if q > i32::MAX as u64 {
            assert(bn == 1 && q == an) by (nonlinear_arith)
                requires
                    an as int == (bn as int) * (q as int) + (an as int) % (bn as int),
                    0 <= (an as int) % (bn as int) < bn,
                    bn >= 1,
                    q <= an <= 0x8000_0000u64,
                    q > 0x7fff_ffffu64,
            ;
        }
    }
    let neg: bool = (a < 0) != (b < 0);
    if neg {
        (-(q as i64)) as i32
    } else {
        q as i32
    }
}

/// A point in the library's fixed-point precision.
#[derive(Clone, Copy, PartialEq, Eq, Structural, Debug)]
pub struct Pt2 {
    pub x: Fx,
    pub y: Fx,
}

/// Shorthand constructor for `Pt2`.
pub fn pt2(x: Fx, y: Fx) -> (r: Pt2)
    ensures
        r.x == x && r.y == y,
{
    Pt2 { x, y }
}

/// Component-wise sum of two points.
pub open spec fn pt_add(a: Pt2, b: Pt2) -> Pt2 {
    Pt2 { x: fx_add(a.x, b.x), y: fx_add(a.y, b.y) }
}

/// Component-wise difference of two points.
pub open spec fn pt_sub(a: Pt2, b: Pt2) -> Pt2 {
    Pt2 { x: fx_sub(a.x, b.x), y: fx_sub(a.y, b.y) }
}

/// Component-wise product of two points.
pub open spec fn pt_mul(a: Pt2, b: Pt2) -> Pt2 {
    Pt2 { x: fx_mul(a.x, b.x), y: fx_mul(a.y, b.y) }
}

/// A point with both components scaled by a factor.
pub open spec fn pt_scale(a: Pt2, s: Fx) -> Pt2 {
    Pt2 { x: fx_mul(a.x, s), y: fx_mul(a.y, s) }
}

/// Component-wise quotient of two points.
pub open spec fn pt_div(a: Pt2, b: Pt2) -> Pt2 {
    Pt2 { x: fx_div(a.x, b.x), y: fx_div(a.y, b.y) }
}

/// Dot product of two points.
pub open spec fn pt_dot(a: Pt2, b: Pt2) -> Fx {
    fx_add(fx_mul(a.x, b.x), fx_mul(a.y, b.y))
}

/// Euclidean length of a point, rounded down to the fixed-point grid.
pub open spec fn pt_length(p: Pt2) -> Fx {
    Fx { raw: sqrt_floor(pt_dot(p, p).raw * (FX_SCALE as int)) as i64 }
}

/// The unit-length direction of a point: the point divided by its
/// length. A point of zero squared length is left as it is.
pub open spec fn pt_normalized(p: Pt2) -> Pt2 {
    if pt_dot(p, p).raw == 0 {
        p
    } else {
        Pt2 { x: fx_div(p.x, pt_length(p)), y: fx_div(p.y, pt_length(p)) }
    }
}

impl Pt2 {
    /// The point with the given coordinates.
    pub fn new(x: Fx, y: Fx) -> (r: Self)
        ensures
            r.x == x && r.y == y,
    {
        Self { x, y }
    }

    /// The origin.
    pub fn zero() -> (r: Self)
        ensures
            r.x.raw == 0 && r.y.raw == 0,
    {
        Self { x: Fx::zero(), y: Fx::zero() }
    }

    /// The fixed-point point over integer coordinates.
    pub open spec fn from_pt2i_spec(v: Pt2i) -> Pt2 {
        Pt2 { x: fx_of(v.x * (FX_SCALE as int)), y: fx_of(v.y * (FX_SCALE as int)) }
    }

    /// Conversion from a pixel-exact point.
    #[verifier::when_used_as_spec(from_pt2i_spec)]
    pub fn from_pt2i(v: Pt2i) -> (r: Self)
        ensures
            r == Self::from_pt2i_spec(v),
    {
        Self { x: Fx::from_int(v.x as i64), y: Fx::from_int(v.y as i64) }
    }

    /// Component-wise sum.
    pub fn add(self, rhs: Self) -> (r: Self)
        ensures
            r == pt_add(self, rhs),
    {
        Self { x: self.x.add(rhs.x), y: self.y.add(rhs.y) }
    }

    /// Component-wise difference.
    pub fn sub(self, rhs: Self) -> (r: Self)
        ensures
            r == pt_sub(self, rhs),
    {
        Self { x: self.x.sub(rhs.x), y: self.y.sub(rhs.y) }
    }

    /// Component-wise product.
    pub fn mul(self, rhs: Self) -> (r: Self)
        ensures
            r == pt_mul(self, rhs),
    {
        Self { x: self.x.mul(rhs.x), y: self.y.mul(rhs.y) }
    }

    /// Both components scaled by a fixed-point factor.
    pub fn mul_scalar(self, rhs: Fx) -> (r: Self)
        ensures
            r == pt_scale(self, rhs),
    {
        Self { x: self.x.mul(rhs), y: self.y.mul(rhs) }
    }

    /// Component-wise quotient.
    pub fn div(self, rhs: Self) -> (r: Self)
        requires
            rhs.x.raw != 0,
            rhs.y.raw != 0,
        ensures
            r == pt_div(self, rhs),
    {
        Self { x: self.x.div(rhs.x), y: self.y.div(rhs.y) }
    }

    /// Both components divided by a fixed-point factor.
    pub fn div_scalar(self, rhs: Fx) -> (r: Self)
        requires
            rhs.raw != 0,
        ensures
            r.x == fx_div(self.x, rhs),
            r.y == fx_div(self.y, rhs),
    {
        Self { x: self.x.div(rhs), y: self.y.div(rhs) }
    }

    /// Dot product.
    pub fn dot(self, other: Self) -> (r: Fx)
        ensures
            r == pt_dot(self, other),
    {
        self.x.mul(other.x).add(self.y.mul(other.y))
    }

    /// Squared Euclidean length.
    pub fn length_squared(self) -> (r: Fx)
        ensures
            r == pt_dot(self, self),
    {
        self.dot(self)
    }

    /// Euclidean length, rounded down to the fixed-point grid.
    pub fn length(self) -> (r: Fx)
        ensures
            r == pt_length(self),
    {
        let ls = self.length_squared();
        proof {
            lemma_fx_mul_self_nonneg(self.x);
            lemma_fx_mul_self_nonneg(self.y);
            lemma_sqrt_floor(ls.raw * (FX_SCALE as int));
            assert(sqrt_floor(ls.raw * (FX_SCALE as int)) <= i64::MAX) by (nonlinear_arith)
                requires
                    sqrt_floor(ls.raw * (FX_SCALE as int)) >= 0,
                    sqrt_floor(ls.raw * (FX_SCALE as int)) * sqrt_floor(
                        ls.raw * (FX_SCALE as int),
                    ) <= ls.raw * (FX_SCALE as int),
                    0 <= ls.raw <= i64::MAX,
                    FX_SCALE == 65536,
            ;
        }
        ls.sqrt()
    }

    /// Scale this point to unit length in place; a point of zero squared
    /// length stays as it is.
    pub fn normalize(&mut self)
        ensures
            *final(self) == pt_normalized(*old(self)),
    {
        let ls = self.length_squared();
        proof {
            lemma_fx_mul_self_nonneg(self.x);
            lemma_fx_mul_self_nonneg(self.y);
        }
        if ls.raw != 0 {
            let len = self.length();
            proof {
                assert(ls.raw * (FX_SCALE as int) >= 1) by (nonlinear_arith)
                    requires
                        ls.raw >= 1,
                        FX_SCALE == 65536,
                ;
                lemma_sqrt_floor_pos(ls.raw * (FX_SCALE as int));
                lemma_sqrt_floor(ls.raw * (FX_SCALE as int));
                assert(sqrt_floor(ls.raw * (FX_SCALE as int)) <= i64::MAX) by (nonlinear_arith)
                    requires
                        sqrt_floor(ls.raw * (FX_SCALE as int)) >= 0,
                        sqrt_floor(ls.raw * (FX_SCALE as int)) * sqrt_floor(
                            ls.raw * (FX_SCALE as int),
                        ) <= ls.raw * (FX_SCALE as int),
                        0 <= ls.raw <= i64::MAX,
                        FX_SCALE == 65536,
                ;
                assert(len.raw >= 1);
            }
            *self = self.div_scalar(len);
        }
    }

    /// The unit-length direction of this point.
    pub fn normalized(self) -> (r: Self)
        ensures
            r == pt_normalized(self),
    {
        let mut p = self;
        p.normalize();
        p
    }

    /// The nearest integer point at or below both coordinates, saturated
    /// at the integer range.
    pub fn floor(self) -> (r: Pt2i)
        ensures
            r.x == sat32(fx_floor(self.x)),
            r.y == sat32(fx_floor(self.y)),
    {
        Pt2i { x: clamp32(self.x.floor()), y: clamp32(self.y.floor()) }
    }

    /// The nearest integer point at or above both coordinates, saturated
    /// at the integer range.
    pub fn ceil(self) -> (r: Pt2i)
        ensures
            r.x == sat32(fx_ceil(self.x)),
            r.y == sat32(fx_ceil(self.y)),
    {
        Pt2i { x: clamp32(self.x.ceil()), y: clamp32(self.y.ceil()) }
    }

    /// The nearest integer point, halves rounded away from zero,
    /// saturated at the integer range.
    pub fn round(self) -> (r: Pt2i)
        ensures
            r.x == sat32(fx_round(self.x)),
            r.y == sat32(fx_round(self.y)),
    {
        Pt2i { x: clamp32(self.x.round()), y: clamp32(self.y.round()) }
    }

    /// In-place component-wise sum.
    pub fn add_assign(&mut self, rhs: Self)
        ensures
            *final(self) == pt_add(*old(self), rhs),
    {
        *self = self.add(rhs);
    }

    /// In-place component-wise difference.
    pub fn sub_assign(&mut self, rhs: Self)
        ensures
            *final(self) == pt_sub(*old(self), rhs),
    {
        *self = self.sub(rhs);
    }

    /// In-place component-wise product.
    pub fn mul_assign(&mut self, rhs: Self)
        ensures
            *final(self) == pt_mul(*old(self), rhs),
    {
        *self = self.mul(rhs);
    }

    /// In-place scaling by a fixed-point factor.
    pub fn mul_assign_scalar(&mut self, rhs: Fx)
        ensures
            *final(self) == pt_scale(*old(self), rhs),
    {
        *self = self.mul_scalar(rhs);
    }

    /// In-place component-wise quotient.
    pub fn div_assign(&mut self, rhs: Self)
        requires
            rhs.x.raw != 0,
            rhs.y.raw != 0,
        ensures
            *final(self) == pt_div(*old(self), rhs),
    {
        *self = self.div(rhs);
    }

    /// In-place division by a fixed-point factor.
    pub fn div_assign_scalar(&mut self, rhs: Fx)
        requires
            rhs.raw != 0,
        ensures
            final(self).x == fx_div(old(self).x, rhs),
            final(self).y == fx_div(old(self).y, rhs),
    {
        *self = self.div_scalar(rhs);
    }

    /// The planar cross product: `x * y' - y * x'`.
    pub fn cross(self, other: Self) -> (r: Fx)
        ensures
            r == fx_sub(fx_mul(self.x, other.y), fx_mul(self.y, other.x)),
    {
        self.x.mul(other.y).sub(self.y.mul(other.x))
    }

    /// The component-wise sign, each slot one or minus one. Zero counts
    /// as positive, as the sign of a floating-point positive zero would.
    pub fn sign(self) -> (r: Pt2i)
        ensures
            r.x == (if self.x.raw >= 0 { 1int } else { -1int }),
            r.y == (if self.y.raw >= 0 { 1int } else { -1int }),
    {
        Pt2i {
            x: if self.x.raw >= 0 { 1 } else { -1 },
            y: if self.y.raw >= 0 { 1 } else { -1 },
        }
    }
}

} // verus!
