//! Fixed-point scalar: the numeric precision used throughout the library.
//!
//! A `Fx` holds a signed value in units of `1 / FX_SCALE`. All operations
//! saturate at the representable range instead of wrapping, so every
//! operation is total and exactly specified.

use vstd::prelude::*;
use vstd::arithmetic::div_mod::lemma_fundamental_div_mod;

verus! {

/// Half of `FX_SCALE`; the rounding threshold.
pub const FX_HALF: i64 = 32768;

/// Number of raw units per one. A power of two, so that multiplication by
/// whole numbers stays exact.
pub const FX_SCALE: i64 = 65536;

/// Clamp an unbounded integer into the `i64` range.
pub open spec fn sat64(x: int) -> int {
    if x > i64::MAX {
        i64::MAX as int
    } else if x < i64::MIN {
        i64::MIN as int
    } else {
        x
    }
}

/// A fixed-point number: `raw / FX_SCALE`.
#[derive(Clone, Copy, PartialEq, Eq, Structural, Debug)]
pub struct Fx {
    pub raw: i64,
}

/// The fixed-point number whose raw value is `x`, saturated.
pub open spec fn fx_of(x: int) -> Fx {
    Fx { raw: sat64(x) as i64 }
}

/// Sum of two fixed-point numbers.
pub open spec fn fx_add(a: Fx, b: Fx) -> Fx {
    fx_of(a.raw + b.raw)
}

/// Difference of two fixed-point numbers.
pub open spec fn fx_sub(a: Fx, b: Fx) -> Fx {
    fx_of(a.raw - b.raw)
}

/// Negation of a fixed-point number.
pub open spec fn fx_neg(a: Fx) -> Fx {
    fx_of(-a.raw)
}

/// Product of two fixed-point numbers: the exact product scaled back down,
/// rounded toward negative infinity.
pub open spec fn fx_mul(a: Fx, b: Fx) -> Fx {
    fx_of((a.raw * b.raw) / (FX_SCALE as int))
}

/// Quotient of two fixed-point numbers: the rescaled dividend divided by
/// the divisor's magnitude, rounded toward negative infinity, carrying the
/// divisor's sign. Defined as zero when the divisor is zero, a case `div`
/// rules out.
pub open spec fn fx_div(a: Fx, b: Fx) -> Fx {
    if b.raw == 0 {
        fx_of(0)
    } else if b.raw > 0 {
        fx_of((a.raw * (FX_SCALE as int)) / (b.raw as int))
    } else {
        fx_of(-((a.raw * (FX_SCALE as int)) / (-(b.raw as int))))
    }
}

/// The whole number just below (or at) a fixed-point number.
pub open spec fn fx_floor(a: Fx) -> int {
    (a.raw as int) / (FX_SCALE as int)
}

/// The whole number just above (or at) a fixed-point number.
pub open spec fn fx_ceil(a: Fx) -> int {
    -((-(a.raw as int)) / (FX_SCALE as int))
}

/// The nearest whole number, halves rounded away from zero.
pub open spec fn fx_round(a: Fx) -> int {
    if a.raw >= 0 {
        (a.raw + FX_HALF as int) / (FX_SCALE as int)
    } else {
        (-((-(a.raw as int) + FX_HALF) / (FX_SCALE as int)))
    }
}

/// The largest whole number whose square does not exceed `n` (zero for
/// negative `n`).
pub open spec fn sqrt_floor(n: int) -> int
    decreases n,
{
    if n < 1 {
        0
    } else {
        proof {
            lemma_fundamental_div_mod(n, 4);
            assert(0 <= n / 4 < n) by (nonlinear_arith)
                requires
                    n == 4 * (n / 4) + n % 4,
                    0 <= n % 4 < 4,
                    n >= 1,
            ;
        }
        let r = 2 * sqrt_floor(n / 4);
        if (r + 1) * (r + 1) <= n {
            r + 1
        } else {
            r
        }
    }
}

/// `sqrt_floor` is exactly the rounded-down square root: its square is
/// at most `n`, and the next square is beyond `n`.
pub proof fn lemma_sqrt_floor(n: int)
    requires
        n >= 0,
    ensures
        sqrt_floor(n) >= 0,
        sqrt_floor(n) * sqrt_floor(n) <= n,
        n < (sqrt_floor(n) + 1) * (sqrt_floor(n) + 1),
    decreases n,
{
    if n < 1 {
        assert(sqrt_floor(n) == 0);
        assert(n < (sqrt_floor(n) + 1) * (sqrt_floor(n) + 1)) by (nonlinear_arith)
            requires
                sqrt_floor(n) == 0,
                0 <= n < 1,
        ;
    } else {
        let q = n / 4;
        lemma_fundamental_div_mod(n, 4);
        assert(0 <= q < n) by (nonlinear_arith)
            requires
                n == 4 * q + n % 4,
                0 <= n % 4 < 4,
                n >= 1,
        ;
        lemma_sqrt_floor(q);
        let s = sqrt_floor(q);
        let r = 2 * s;
        assert(r * r <= n && n < (r + 2) * (r + 2)) by (nonlinear_arith)
            requires
                s >= 0,
                s * s <= q,
                q < (s + 1) * (s + 1),
                n == 4 * q + n % 4,
                0 <= n % 4 < 4,
                r == 2 * s,
        ;
        if (r + 1) * (r + 1) <= n {
            assert(sqrt_floor(n) == r + 1);
            assert(n < (sqrt_floor(n) + 1) * (sqrt_floor(n) + 1)) by (nonlinear_arith)
                requires
                    sqrt_floor(n) == r + 1,
                    n < (r + 2) * (r + 2),
            ;
        } else {
            assert(sqrt_floor(n) == r);
            assert(n < (sqrt_floor(n) + 1) * (sqrt_floor(n) + 1)) by (nonlinear_arith)
                requires
                    sqrt_floor(n) == r,
                    !((r + 1) * (r + 1) <= n),
            ;
        }
    }
}

/// The rounded-down square root is unique: any `r` bracketing `n`
/// between consecutive squares is it.
pub proof fn lemma_sqrt_floor_unique(n: int, r: int)
    requires
        n >= 0,
        r >= 0,
        r * r <= n,
        n < (r + 1) * (r + 1),
    ensures
        r == sqrt_floor(n),
{
    lemma_sqrt_floor(n);
    let s = sqrt_floor(n);
    assert(r == s) by (nonlinear_arith)
        requires
            r >= 0,
            s >= 0,
            r * r <= n,
            n < (r + 1) * (r + 1),
            s * s <= n,
            n < (s + 1) * (s + 1),
    ;
}

/// A fixed-point number multiplied by itself is never negative.
pub proof fn lemma_fx_mul_self_nonneg(a: Fx)
    ensures
        fx_mul(a, a).raw >= 0,
{
    assert(a.raw * a.raw >= 0) by (nonlinear_arith);
    lemma_div_stays_in_range(a.raw * a.raw, FX_SCALE as int);
}

/// The rounded-down square root of a positive number is positive.
pub proof fn lemma_sqrt_floor_pos(n: int)
    requires
        n >= 1,
    ensures
        sqrt_floor(n) >= 1,
{
    lemma_sqrt_floor(n);
    let r = sqrt_floor(n);
    assert(r >= 1) by (nonlinear_arith)
        requires
            r >= 0,
            n < (r + 1) * (r + 1),
            n >= 1,
    ;
}

/// The rounded-down square root of `n`, computed by bisection.
fn isqrt_u128(n: u128) -> (r: u128)
    ensures
        r == sqrt_floor(n as int),
{
    let mut lo: u128 = 0;
    let mut hi: u128 = 0x1_0000_0000_0000_0000;
    proof {
        assert(n < (0x1_0000_0000_0000_0000 as int) * (0x1_0000_0000_0000_0000 as int))
            by (nonlinear_arith)
            requires
                n <= u128::MAX,
        ;
    }
    while hi - lo > 1
        invariant
            lo < hi <= 0x1_0000_0000_0000_0000u128,
            lo * lo <= n,
            n < hi * hi,
        decreases hi - lo,
    {
        let mid: u128 = lo + (hi - lo) / 2;
        proof {
            assert(mid * mid <= u128::MAX) by (nonlinear_arith)
                requires
                    mid < 0x1_0000_0000_0000_0000u128,
            ;
        }
        if mid * mid <= n {
            lo = mid;
        } else {
            hi = mid;
        }
    }
    proof {
        assert(n < (lo + 1) * (lo + 1)) by (nonlinear_arith)
            requires
                hi == lo + 1,
                n < hi * hi,
        ;
        lemma_sqrt_floor_unique(n as int, lo as int);
    }
    lo
}

impl Fx {
    /// The rounded-down square root of a nonnegative fixed-point number.
    pub fn sqrt(self) -> (r: Fx)
        requires
            self.raw >= 0,
        ensures
            r.raw == sqrt_floor(self.raw * (FX_SCALE as int)),
    {
        proof {
            assert((self.raw as int) * (FX_SCALE as int) <= u128::MAX) by (nonlinear_arith)
                requires
                    0 <= self.raw <= i64::MAX,
                    FX_SCALE == 65536,
            ;
        }
        let n: u128 = (self.raw as u128) * (FX_SCALE as u128);
        let s = isqrt_u128(n);
        proof {
            lemma_sqrt_floor(n as int);
            assert(s < 0x1_0000_0000_0000 as u128) by (nonlinear_arith)
                requires
                    s >= 0,
                    (s as int) * (s as int) <= n as int,
                    n as int <= (i64::MAX as int) * (FX_SCALE as int),
            ;
        }
        Fx { raw: s as i64 }
    }

    /// The whole number just below (or at) this number.
    pub fn floor(self) -> (r: i64)
        ensures
            r == fx_floor(self),
    {
        proof {
            lemma_div_stays_in_range(self.raw as int, FX_SCALE as int);
        }
        self.raw.checked_div_euclid(FX_SCALE).unwrap()
    }

    /// The whole number just above (or at) this number.
    pub fn ceil(self) -> (r: i64)
        ensures
            r == fx_ceil(self),
    {
        let m: i128 = -(self.raw as i128);
        proof {
            lemma_div_stays_in_range(m as int, FX_SCALE as int);
        }
        let q: i128 = m.checked_div_euclid(FX_SCALE as i128).unwrap();
        (-q) as i64
    }

    /// The nearest whole number, halves rounded away from zero.
    pub fn round(self) -> (r: i64)
        ensures
            r == fx_round(self),
    {
        if self.raw >= 0 {
            let s: i128 = self.raw as i128 + FX_HALF as i128;
            proof {
                lemma_div_stays_in_range(s as int, FX_SCALE as int);
                lemma_fundamental_div_mod(s as int, FX_SCALE as int);
                assert((s as int) / (FX_SCALE as int) < 0x1_0000_0000_0000) by (nonlinear_arith)
                    requires
                        s as int == (FX_SCALE as int) * ((s as int) / (FX_SCALE as int)) + (
                        s as int) % (FX_SCALE as int),
                        0 <= (s as int) % (FX_SCALE as int) < FX_SCALE,
                        FX_SCALE == 65536,
                        0 <= s <= 0x8000_0000_0000_8000,
                ;
            }
            s.checked_div_euclid(FX_SCALE as i128).unwrap() as i64
        } else {
            let s: i128 = -(self.raw as i128) + FX_HALF as i128;
            proof {
                lemma_div_stays_in_range(s as int, FX_SCALE as int);
                lemma_fundamental_div_mod(s as int, FX_SCALE as int);
                assert((s as int) / (FX_SCALE as int) < 0x1_0000_0000_0000) by (nonlinear_arith)
                    requires
                        s as int == (FX_SCALE as int) * ((s as int) / (FX_SCALE as int)) + (
                        s as int) % (FX_SCALE as int),
                        0 <= (s as int) % (FX_SCALE as int) < FX_SCALE,
                        FX_SCALE == 65536,
                        0 <= s <= 0x8000_0000_0000_8000,
                ;
            }
            let q: i128 = s.checked_div_euclid(FX_SCALE as i128).unwrap();
            (-q) as i64
        }
    }
}

/// The quotient of a division by a positive divisor lies between the
/// dividend and zero.
proof fn lemma_div_stays_in_range(p: int, d: int)
    requires
        d >= 1,
    ensures
        p >= 0 ==> 0 <= p / d <= p,
        p < 0 ==> p <= p / d <= 0,
{
    lemma_fundamental_div_mod(p, d);
    let q = p / d;
    let r = p % d;
    assert(p >= 0 ==> 0 <= q <= p) by (nonlinear_arith)
        requires
            p == d * q + r,
            0 <= r < d,
            d >= 1,
    ;
    assert(p < 0 ==> p <= q <= 0) by (nonlinear_arith)
        requires
            p == d * q + r,
            0 <= r < d,
            d >= 1,
    ;
}

/// Clamp an `i128` into the `i64` range.
fn clamp64(x: i128) -> (r: i64)
    ensures
        r as int == sat64(x as int),
{
    if x > i64::MAX as i128 {
        i64::MAX
    } else if x < i64::MIN as i128 {
        i64::MIN
    } else {
        x as i64
    }
}

impl Fx {
    /// The fixed-point number with the given raw value.
    pub fn from_raw(raw: i64) -> (r: Fx)
        ensures
            r.raw == raw,
    {
        Fx { raw }
    }

    /// The fixed-point representation of a whole number, saturated at the
    /// representable range.
    pub fn from_int(v: i64) -> (r: Fx)
        ensures
            r == fx_of(v * (FX_SCALE as int)),
    {
        proof {
            assert(i128::MIN <= (v as int) * (FX_SCALE as int) <= i128::MAX) by (nonlinear_arith)
                requires
                    i64::MIN <= v <= i64::MAX,
            ;
        }
        Fx { raw: clamp64((v as i128) * (FX_SCALE as i128)) }
    }

    /// Zero.
    pub fn zero() -> (r: Fx)
        ensures
            r.raw == 0,
    {
        Fx { raw: 0 }
    }

    /// One.
    pub fn one() -> (r: Fx)
        ensures
            r.raw == FX_SCALE,
    {
        Fx { raw: FX_SCALE }
    }

    /// Saturating addition.
    pub fn add(self, other: Fx) -> (r: Fx)
        ensures
            r == fx_add(self, other),
    {
        Fx { raw: clamp64(self.raw as i128 + other.raw as i128) }
    }

    /// Saturating subtraction.
    pub fn sub(self, other: Fx) -> (r: Fx)
        ensures
            r == fx_sub(self, other),
    {
        Fx { raw: clamp64(self.raw as i128 - other.raw as i128) }
    }

    /// Saturating negation.
    pub fn neg(self) -> (r: Fx)
        ensures
            r == fx_neg(self),
    {
        Fx { raw: clamp64(-(self.raw as i128)) }
    }

    /// Saturating fixed-point multiplication.
    pub fn mul(self, other: Fx) -> (r: Fx)
        ensures
            r == fx_mul(self, other),
    {
        proof {
            assert(i128::MIN <= (self.raw as int) * (other.raw as int) <= i128::MAX)
                by (nonlinear_arith)
                requires
                    i64::MIN <= self.raw <= i64::MAX,
                    i64::MIN <= other.raw <= i64::MAX,
            ;
        }
        let p: i128 = (self.raw as i128) * (other.raw as i128);
        proof {
            lemma_div_stays_in_range(p as int, FX_SCALE as int);
        }
        let q: i128 = p.checked_div_euclid(FX_SCALE as i128).unwrap();
        Fx { raw: clamp64(q) }
    }

    /// Saturating fixed-point division.
    pub fn div(self, other: Fx) -> (r: Fx)
        requires
            other.raw != 0,
        ensures
            r == fx_div(self, other),
    {
        proof {
            assert(i128::MIN <= (self.raw as int) * (FX_SCALE as int) <= i128::MAX)
                by (nonlinear_arith)
                requires
                    i64::MIN <= self.raw <= i64::MAX,
            ;
        }
        let p: i128 = (self.raw as i128) * (FX_SCALE as i128);
        let q: i128 = if other.raw > 0 {
            proof {
                lemma_div_stays_in_range(p as int, other.raw as int);
            }
            p.checked_div_euclid(other.raw as i128).unwrap()
        } else {
            let m: i128 = -(other.raw as i128);
            proof {
                lemma_div_stays_in_range(p as int, m as int);
            }
            let d: i128 = p.checked_div_euclid(m).unwrap();
            -d
        };
        Fx { raw: clamp64(q) }
    }
}

} // verus!
