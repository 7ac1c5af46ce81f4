//! Complex numbers over the fixed-point scalars.
//!
//! A point of the parameter plane, a velocity, or a unit phase is a pair
//! of `Fx` components. The spec functions mirror each operation exactly,
//! component by component, so contracts can state whole-value equations.

use vstd::prelude::*;

use crate::fx::Fx;
use crate::fx::fx_add_v;
use crate::fx::fx_mul_v;
use crate::fx::fx_neg_v;
use crate::fx::fx_sub_v;

verus! {

/// A complex number with fixed-point real and imaginary parts.
#[derive(Clone, Copy, Debug, PartialEq, Eq, Structural)]
pub struct Cpx {
    pub re: Fx,
    pub im: Fx,
}

/// The complex zero.
pub open spec fn sc_zero() -> Cpx {
    Cpx { re: Fx { bits: 0 }, im: Fx { bits: 0 } }
}

/// Exact value of complex addition.
pub open spec fn sc_add(a: Cpx, b: Cpx) -> Cpx {
    Cpx {
        re: Fx { bits: fx_add_v(a.re.bits as int, b.re.bits as int) as i64 },
        im: Fx { bits: fx_add_v(a.im.bits as int, b.im.bits as int) as i64 },
    }
}

/// Exact value of complex subtraction.
pub open spec fn sc_sub(a: Cpx, b: Cpx) -> Cpx {
    Cpx {
        re: Fx { bits: fx_sub_v(a.re.bits as int, b.re.bits as int) as i64 },
        im: Fx { bits: fx_sub_v(a.im.bits as int, b.im.bits as int) as i64 },
    }
}

/// Exact value of complex negation.
pub open spec fn sc_neg(a: Cpx) -> Cpx {
    Cpx {
        re: Fx { bits: fx_neg_v(a.re.bits as int) as i64 },
        im: Fx { bits: fx_neg_v(a.im.bits as int) as i64 },
    }
}

/// Exact value of scaling by a fixed-point factor.
pub open spec fn sc_scale(a: Cpx, s: int) -> Cpx {
    Cpx {
        re: Fx { bits: fx_mul_v(a.re.bits as int, s) as i64 },
        im: Fx { bits: fx_mul_v(a.im.bits as int, s) as i64 },
    }
}

/// Exact value of complex multiplication: each of the four partial
/// products is scaled down on its own before the sums are taken.
pub open spec fn sc_mul(a: Cpx, b: Cpx) -> Cpx {
    Cpx {
        re: Fx {
            bits: fx_sub_v(
                fx_mul_v(a.re.bits as int, b.re.bits as int),
                fx_mul_v(a.im.bits as int, b.im.bits as int),
            ) as i64,
        },
        im: Fx {
            bits: fx_add_v(
                fx_mul_v(a.re.bits as int, b.im.bits as int),
                fx_mul_v(a.im.bits as int, b.re.bits as int),
            ) as i64,
        },
    }
}

/// Exact value of the quarter-turn clockwise rotation (multiplication by
/// the negative imaginary unit).
pub open spec fn sc_rot270(a: Cpx) -> Cpx {
    Cpx { re: a.im, im: Fx { bits: fx_neg_v(a.re.bits as int) as i64 } }
}

impl Cpx {
    /// The complex zero.
    pub fn zero() -> (r: Cpx)
        ensures
            r == sc_zero(),
    {
        Cpx { re: Fx::zero(), im: Fx::zero() }
    }

    /// Build a complex number from its two components.
    pub fn new(re: Fx, im: Fx) -> (r: Cpx)
        ensures
            r == (Cpx { re, im }),
    {
        Cpx { re, im }
    }

    /// Saturating componentwise addition.
    pub fn add(self, other: Cpx) -> (r: Cpx)
        ensures
            r == sc_add(self, other),
    {
        Cpx { re: self.re.add(other.re), im: self.im.add(other.im) }
    }

    /// Saturating componentwise subtraction.
    pub fn sub(self, other: Cpx) -> (r: Cpx)
        ensures
            r == sc_sub(self, other),
    {
        Cpx { re: self.re.sub(other.re), im: self.im.sub(other.im) }
    }

    /// Saturating componentwise negation.
    pub fn neg(self) -> (r: Cpx)
        ensures
            r == sc_neg(self),
    {
        Cpx { re: self.re.neg(), im: self.im.neg() }
    }

    /// Saturating scaling by a fixed-point factor.
    pub fn scale(self, s: Fx) -> (r: Cpx)
        ensures
            r == sc_scale(self, s.bits as int),
    {
        Cpx { re: self.re.mul(s), im: self.im.mul(s) }
    }

    /// Saturating complex multiplication.
    pub fn mul(self, other: Cpx) -> (r: Cpx)
        ensures
            r == sc_mul(self, other),
    {
        let re = self.re.mul(other.re).sub(self.im.mul(other.im));
        let im = self.re.mul(other.im).add(self.im.mul(other.re));
        Cpx { re, im }
    }

    /// Rotate a quarter turn clockwise: `(re, im)` becomes `(im, -re)`.
    pub fn rot270(self) -> (r: Cpx)
        ensures
            r == sc_rot270(self),
    {
        Cpx { re: self.im, im: self.re.neg() }
    }
}

} // verus!
