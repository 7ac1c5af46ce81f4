//! Exact fixed-point scalars.
//!
//! A `Fx` holds a real quantity as `bits / 2^32` (32 fractional bits in a
//! signed 64-bit word). Every operation is total: results outside the
//! representable range saturate at the extremes, and products are divided
//! by `2^32` with Euclidean (floor-toward-negative-infinity) rounding.
//! The spec functions below state the exact value of each operation, so
//! contracts built on them pin results down to the bit.

use vstd::prelude::*;

verus! {

/// The representation of `1`: one whole step of the 32 fractional bits.
pub const FX_ONE_BITS: i64 = 0x1_0000_0000;

/// Saturate an unbounded integer into the signed 64-bit range.
pub open spec fn fx_clip(x: int) -> int {
    if x > i64::MAX {
        i64::MAX as int
    } else if x < i64::MIN {
        i64::MIN as int
    } else {
        x
    }
}

/// Exact value of fixed-point addition.
pub open spec fn fx_add_v(a: int, b: int) -> int {
    fx_clip(a + b)
}

/// Exact value of fixed-point subtraction.
pub open spec fn fx_sub_v(a: int, b: int) -> int {
    fx_clip(a - b)
}

/// Exact value of fixed-point negation.
pub open spec fn fx_neg_v(a: int) -> int {
    fx_clip(-a)
}

/// Exact value of fixed-point multiplication: the double-width product,
/// scaled back down with Euclidean rounding, then saturated.
pub open spec fn fx_mul_v(a: int, b: int) -> int {
    fx_clip((a * b) / (FX_ONE_BITS as int))
}

/// Exact value of fixed-point division (for a nonzero divisor): the
/// scaled-up dividend over the magnitude of the divisor, rounded toward
/// negative infinity, with the divisor's sign applied, then saturated.
pub open spec fn fx_div_v(a: int, b: int) -> int {
    if b >= 0 {
        fx_clip((a * (FX_ONE_BITS as int)) / b)
    } else {
        fx_clip(-((a * (FX_ONE_BITS as int)) / (-b)))
    }
}

/// The integer square root: the unique `r >= 0` with
/// `r * r <= n < (r + 1) * (r + 1)` (and `0` where no such root exists,
/// which never happens for nonnegative arguments).
pub open spec fn sqrt_v(n: int) -> int {
    if exists|r: int| r >= 0 && #[trigger] (r * r) <= n && n < (r + 1) * (r + 1) {
        choose|r: int| r >= 0 && #[trigger] (r * r) <= n && n < (r + 1) * (r + 1)
    } else {
        0
    }
}

/// The square root is never negative.
pub proof fn lemma_sqrt_nonneg(n: int)
    ensures
        sqrt_v(n) >= 0,
{
}

/// A fixed-point number worth `bits / 2^32`.
#[derive(Clone, Copy, Debug, PartialEq, Eq, Structural)]
pub struct Fx {
    pub bits: i64,
}

impl Fx {
    /// The number zero.
    pub fn zero() -> (r: Fx)
        ensures
            r.bits == 0,
    {
        Fx { bits: 0 }
    }

    /// The number one.
    pub fn one() -> (r: Fx)
        ensures
            r.bits == FX_ONE_BITS,
    {
        Fx { bits: FX_ONE_BITS }
    }

    /// Build a number directly from its raw bit pattern.
    pub fn from_bits(bits: i64) -> (r: Fx)
        ensures
            r.bits == bits,
    {
        Fx { bits }
    }

    /// Saturating addition.
    pub fn add(self, other: Fx) -> (r: Fx)
        ensures
            r.bits == fx_add_v(self.bits as int, other.bits as int),
    {
        match self.bits.checked_add(other.bits) {
            Some(v) => Fx { bits: v },
            None => {
                if self.bits >= 0 {
                    Fx { bits: i64::MAX }
                } else {
                    Fx { bits: i64::MIN }
                }
            },
        }
    }

    /// Saturating subtraction.
    pub fn sub(self, other: Fx) -> (r: Fx)
        ensures
            r.bits == fx_sub_v(self.bits as int, other.bits as int),
    {
        match self.bits.checked_sub(other.bits) {
            Some(v) => Fx { bits: v },
            None => {
                if self.bits >= 0 {
                    Fx { bits: i64::MAX }
                } else {
                    Fx { bits: i64::MIN }
                }
            },
        }
    }

    /// Saturating negation.
    pub fn neg(self) -> (r: Fx)
        ensures
            r.bits == fx_neg_v(self.bits as int),
    {
        if self.bits == i64::MIN {
            Fx { bits: i64::MAX }
        } else {
            Fx { bits: -self.bits }
        }
    }

    /// Saturating fixed-point multiplication.
    pub fn mul(self, other: Fx) -> (r: Fx)
        ensures
            r.bits == fx_mul_v(self.bits as int, other.bits as int),
    {
        proof {
            lemma_i64_product_fits(self.bits as int, other.bits as int);
        }
        let p: i128 = (self.bits as i128) * (other.bits as i128);
        proof {
            lemma_div_quotient_fits(p as int, FX_ONE_BITS as int);
        }
        let q: i128 = p.checked_div_euclid(FX_ONE_BITS as i128).unwrap();
        clip_i128(q)
    }

    /// Saturating fixed-point division by a nonzero divisor.
    pub fn div(self, other: Fx) -> (r: Fx)
        requires
            other.bits != 0,
        ensures
            r.bits == fx_div_v(self.bits as int, other.bits as int),
    {
        proof {
            lemma_i64_product_fits(self.bits as int, FX_ONE_BITS as int);
        }
        let n: i128 = (self.bits as i128) * (FX_ONE_BITS as i128);
        let m: i128 = if other.bits < 0 {
            -(other.bits as i128)
        } else {
            other.bits as i128
        };
        proof {
            lemma_div_quotient_fits(n as int, m as int);
        }
        let q: i128 = n.checked_div_euclid(m).unwrap();
        if other.bits < 0 {
            clip_i128(-q)
        } else {
            clip_i128(q)
        }
    }

    /// Fixed-point square root of a nonnegative number: the bit pattern is
    /// the integer square root of the bit pattern scaled up by `2^32`.
    pub fn sqrt(self) -> (r: Fx)
        requires
            self.bits >= 0,
        ensures
            r.bits == sqrt_v(self.bits * (FX_ONE_BITS as int)),
            r.bits >= 0,
    {
        let n: u128 = (self.bits as u128) * (FX_ONE_BITS as u128);
        let r: u128 = isqrt_u128(n);
        proof {
            assert(r * r <= n < (r + 1) * (r + 1));
            assert(r < 0x1_0000_0000_0000u128) by (nonlinear_arith)
                requires
                    r * r <= n,
                    n < 0x1_0000_0000_0000_0000_0000_0000u128,
            {}
            lemma_sqrt_unique(n as int, r as int);
        }
        Fx { bits: r as i64 }
    }

    /// The magnitude, saturated.
    pub fn abs(self) -> (r: Fx)
        ensures
            r.bits == fx_abs_v(self.bits as int),
    {
        if self.bits < 0 {
            self.neg()
        } else {
            self
        }
    }

    /// Clamp into the inclusive range `[lo, hi]`.
    pub fn clamp(self, lo: Fx, hi: Fx) -> (r: Fx)
        requires
            lo.bits <= hi.bits,
        ensures
            r.bits == fx_clamp_v(self.bits as int, lo.bits as int, hi.bits as int),
    {
        if self.bits < lo.bits {
            lo
        } else if self.bits > hi.bits {
            hi
        } else {
            self
        }
    }
}

/// Exact value of the saturated magnitude.
pub open spec fn fx_abs_v(a: int) -> int {
    if a < 0 {
        fx_neg_v(a)
    } else {
        a
    }
}

/// Exact value of clamping into `[lo, hi]`.
pub open spec fn fx_clamp_v(x: int, lo: int, hi: int) -> int {
    if x < lo {
        lo
    } else if x > hi {
        hi
    } else {
        x
    }
}

/// Zero times anything is zero under the fixed-point product.
pub proof fn lemma_fx_mul_zero_left(b: int)
    ensures
        fx_mul_v(0, b) == 0,
{
    assert(0 * b == 0);
    vstd::arithmetic::div_mod::lemma_div_of0(FX_ONE_BITS as int);
}

/// Anything times zero is zero under the fixed-point product.
pub proof fn lemma_fx_mul_zero_right(a: int)
    ensures
        fx_mul_v(a, 0) == 0,
{
    assert(a * 0 == 0);
    vstd::arithmetic::div_mod::lemma_div_of0(FX_ONE_BITS as int);
}

/// The square root of zero is zero.
pub proof fn lemma_sqrt_zero()
    ensures
        sqrt_v(0) == 0,
{
    lemma_sqrt_unique(0, 0);
}

/// A product of a nonpositive and a nonnegative number scales down to a
/// nonpositive fixed-point product.
pub proof fn lemma_fx_mul_nonpos(a: int, b: int)
    requires
        a <= 0,
        b >= 0,
    ensures
        fx_mul_v(a, b) <= 0,
{
    let p = a * b;
    assert(p <= 0) by (nonlinear_arith)
        requires
            a <= 0,
            b >= 0,
            p == a * b,
    {}
    let d = FX_ONE_BITS as int;
    vstd::arithmetic::div_mod::lemma_fundamental_div_mod(p, d);
    vstd::arithmetic::div_mod::lemma_mod_bound(p, d);
    let q = p / d;
    let r = p % d;
    assert(q <= 0) by (nonlinear_arith)
        requires
            p == d * q + r,
            0 <= r < d,
            d == 0x1_0000_0000,
            p <= 0,
    {}
}

/// A product of two nonnegative numbers scales down to a nonnegative
/// fixed-point product.
pub proof fn lemma_fx_mul_nonneg(a: int, b: int)
    requires
        a >= 0,
        b >= 0,
    ensures
        fx_mul_v(a, b) >= 0,
{
    let p = a * b;
    assert(p >= 0) by (nonlinear_arith)
        requires
            a >= 0,
            b >= 0,
            p == a * b,
    {}
    let d = FX_ONE_BITS as int;
    if p == 0 {
        vstd::arithmetic::div_mod::lemma_div_of0(d);
    } else {
        vstd::arithmetic::div_mod::lemma_div_pos_is_pos(p, d);
    }
}

/// The product of two signed 64-bit values fits in a signed 128-bit word.
proof fn lemma_i64_product_fits(a: int, b: int)
    requires
        i64::MIN <= a <= i64::MAX,
        i64::MIN <= b <= i64::MAX,
    ensures
        -0x4000_0000_0000_0000_0000_0000_0000_0000 <= a * b
            <= 0x4000_0000_0000_0000_0000_0000_0000_0000,
{
    assert(-0x4000_0000_0000_0000_0000_0000_0000_0000 <= a * b
        <= 0x4000_0000_0000_0000_0000_0000_0000_0000) by (nonlinear_arith)
        requires
            -0x8000_0000_0000_0000 <= a <= 0x7FFF_FFFF_FFFF_FFFF,
            -0x8000_0000_0000_0000 <= b <= 0x7FFF_FFFF_FFFF_FFFF,
    {}
}

/// A Euclidean quotient by a positive divisor stays comfortably inside
/// the signed 128-bit range.
proof fn lemma_div_quotient_fits(p: int, d: int)
    requires
        1 <= d,
        -0x4000_0000_0000_0000_0000_0000_0000_0000 <= p
            <= 0x4000_0000_0000_0000_0000_0000_0000_0000,
    ensures
        -0x4000_0000_0000_0000_0000_0000_0000_0000 - 1 <= p / d
            <= 0x4000_0000_0000_0000_0000_0000_0000_0000,
{
    vstd::arithmetic::div_mod::lemma_fundamental_div_mod(p, d);
    vstd::arithmetic::div_mod::lemma_mod_bound(p, d);
    let q = p / d;
    let r = p % d;
    assert(-0x4000_0000_0000_0000_0000_0000_0000_0000 - 1 <= q
        <= 0x4000_0000_0000_0000_0000_0000_0000_0000) by (nonlinear_arith)
        requires
            p == d * q + r,
            0 <= r < d,
            1 <= d,
            -0x4000_0000_0000_0000_0000_0000_0000_0000 <= p
                <= 0x4000_0000_0000_0000_0000_0000_0000_0000,
    {}
}

/// Saturate a signed 128-bit quotient into the 64-bit range.
fn clip_i128(q: i128) -> (r: Fx)
    ensures
        r.bits == fx_clip(q as int),
{
    if q > i64::MAX as i128 {
        Fx { bits: i64::MAX }
    } else if q < i64::MIN as i128 {
        Fx { bits: i64::MIN }
    } else {
        Fx { bits: q as i64 }
    }
}

/// The integer square root is unique.
proof fn lemma_sqrt_unique(n: int, r: int)
    requires
        n >= 0,
        r >= 0,
        r * r <= n,
        n < (r + 1) * (r + 1),
    ensures
        sqrt_v(n) == r,
{
    assert(exists|s: int| s >= 0 && #[trigger] (s * s) <= n && n < (s + 1) * (s + 1)) by {
        assert(r >= 0 && r * r <= n && n < (r + 1) * (r + 1));
    }
    let s = sqrt_v(n);
    assert(s >= 0 && s * s <= n && n < (s + 1) * (s + 1));
    if s < r {
        assert((s + 1) * (s + 1) <= r * r) by (nonlinear_arith)
            requires
                0 <= s < r,
        {}
    } else if r < s {
        assert((r + 1) * (r + 1) <= s * s) by (nonlinear_arith)
            requires
                0 <= r < s,
        {}
    }
}

/// Integer square root of an unsigned 128-bit number below `2^96`, by
/// binary search on the root.
fn isqrt_u128(n: u128) -> (r: u128)
    requires
        n < 0x1_0000_0000_0000_0000_0000_0000u128,
    ensures
        r * r <= n < (r + 1) * (r + 1),
        r < 0x1_0000_0000_0000_0000u128,
{
    let mut lo: u128 = 0;
    let mut hi: u128 = 0x1_0000_0000_0000_0000u128;
    proof {
        assert(hi * hi > n) by (nonlinear_arith)
            requires
                hi == 0x1_0000_0000_0000_0000u128,
                n < 0x1_0000_0000_0000_0000_0000_0000u128,
        {}
    }
    while lo + 1 < hi
        invariant
            lo < hi <= 0x1_0000_0000_0000_0000u128,
            lo * lo <= n,
            hi * hi > n,
        decreases hi - lo,
    {
        let mid: u128 = lo + (hi - lo) / 2;
        proof {
            assert(lo < mid < hi) by (nonlinear_arith)
                requires
                    lo + 2 <= hi,
                    mid == lo + (hi - lo) / 2,
            {}
            assert(mid * mid <= u128::MAX) by (nonlinear_arith)
                requires
                    mid < 0x1_0000_0000_0000_0000u128,
            {}
        }
        if mid * mid <= n {
            lo = mid;
        } else {
            hi = mid;
        }
    }
    proof {
        r_holds(lo, hi, n);
    }
    lo
}

/// After the search closes, the lower bound is the root.
proof fn r_holds(lo: u128, hi: u128, n: u128)
    requires
        lo < hi,
        lo + 1 >= hi,
        lo * lo <= n,
        hi * hi > n,
    ensures
        lo * lo <= n < (lo + 1) * (lo + 1),
{
    assert(hi == lo + 1);
}

} // verus!
