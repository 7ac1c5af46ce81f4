//! Transcendental functions on the fixed-point scalars.
//!
//! The sine, cosine, arc tangent and exponential come from the `cordic`
//! crate, computed on `fixed` 64-bit numbers with the same 32 fractional
//! bits as `Fx`. Each result is a pure function of the argument's bits;
//! the names below stand for those results, and the wrappers' contracts
//! say no more than that. The tangent is built here, verified, from the
//! sine and cosine.

use vstd::prelude::*;

use crate::fx::Fx;
use crate::fx::fx_div_v;

verus! {

/// What `cordic::sin` returns on the given bit pattern.
pub uninterp spec fn sin_of(x: int) -> int;

/// What `cordic::cos` returns on the given bit pattern.
pub uninterp spec fn cos_of(x: int) -> int;

/// What `cordic::atan` returns on the given bit pattern.
pub uninterp spec fn atan_of(x: int) -> int;

/// What `cordic::exp` returns on the given bit pattern.
pub uninterp spec fn exp_of(x: int) -> int;

/// Arguments this far from zero keep every intermediate of the cordic
/// routines well inside the 64-bit fixed-point range.
pub const TRIG_ARG_LIMIT_BITS: i64 = 0x1_0000_0000_0000;

/// Arguments beyond roughly `21` would overflow the exponential's range,
/// so exponential arguments are clamped to this magnitude first.
pub const EXP_ARG_LIMIT_BITS: i64 = 0x15_0000_0000;

/// Relies on `cordic::sin`: the result depends on the argument's bits
/// alone. The bound keeps the argument reduction inside the range where
/// the crate's fixed-point arithmetic cannot overflow.
#[verifier::external_body]
pub(crate) fn sin_fx(x: Fx) -> (r: Fx)
    requires
        -TRIG_ARG_LIMIT_BITS <= x.bits <= TRIG_ARG_LIMIT_BITS,
    ensures
        r.bits == sin_of(x.bits as int),
{
    Fx { bits: cordic::sin(fixed::types::I32F32::from_bits(x.bits)).to_bits() }
}

/// Relies on `cordic::cos`: the result depends on the argument's bits
/// alone, within the same safe argument range as the sine.
#[verifier::external_body]
pub(crate) fn cos_fx(x: Fx) -> (r: Fx)
    requires
        -TRIG_ARG_LIMIT_BITS <= x.bits <= TRIG_ARG_LIMIT_BITS,
    ensures
        r.bits == cos_of(x.bits as int),
{
    Fx { bits: cordic::cos(fixed::types::I32F32::from_bits(x.bits)).to_bits() }
}

/// Relies on `cordic::atan`: the result depends on the argument's bits
/// alone, within a range where the rotation iteration cannot overflow.
#[verifier::external_body]
pub(crate) fn atan_fx(x: Fx) -> (r: Fx)
    requires
        -TRIG_ARG_LIMIT_BITS <= x.bits <= TRIG_ARG_LIMIT_BITS,
    ensures
        r.bits == atan_of(x.bits as int),
{
    Fx { bits: cordic::atan(fixed::types::I32F32::from_bits(x.bits)).to_bits() }
}

/// Relies on `cordic::exp`: the result depends on the argument's bits
/// alone, and it is nonnegative, since the routine only multiplies and
/// divides nonnegative fixed-point values. The bound keeps the result
/// and every partial product inside the 64-bit fixed-point range.
#[verifier::external_body]
fn exp_raw(x: Fx) -> (r: Fx)
    requires
        -EXP_ARG_LIMIT_BITS <= x.bits <= EXP_ARG_LIMIT_BITS,
    ensures
        r.bits == exp_of(x.bits as int),
        r.bits >= 0,
{
    Fx { bits: cordic::exp(fixed::types::I32F32::from_bits(x.bits)).to_bits() }
}

/// The exponential's effective argument: clamped into the range the
/// fixed-point representation can bear.
pub open spec fn exp_arg_v(x: int) -> int {
    crate::fx::fx_clamp_v(x, -EXP_ARG_LIMIT_BITS as int, EXP_ARG_LIMIT_BITS as int)
}

/// The exponential, with the argument clamped into range first.
pub(crate) fn exp_fx(x: Fx) -> (r: Fx)
    ensures
        r.bits == exp_of(exp_arg_v(x.bits as int)),
        r.bits >= 0,
{
    let c = x.clamp(Fx { bits: -EXP_ARG_LIMIT_BITS }, Fx { bits: EXP_ARG_LIMIT_BITS });
    exp_raw(c)
}

/// Exact value of the tangent as computed here: the sine over the cosine
/// when the cosine is nonzero, and the saturated value carrying the
/// sine's sign when the cosine rounds to zero.
pub open spec fn tan_v(x: int) -> int {
    if cos_of(x) == 0 {
        if sin_of(x) >= 0 {
            i64::MAX as int
        } else {
            i64::MIN as int
        }
    } else {
        fx_div_v(sin_of(x), cos_of(x))
    }
}

/// The tangent of an angle within the safe argument range.
pub(crate) fn tan_fx(x: Fx) -> (r: Fx)
    requires
        -TRIG_ARG_LIMIT_BITS <= x.bits <= TRIG_ARG_LIMIT_BITS,
    ensures
        r.bits == tan_v(x.bits as int),
{
    let s = sin_fx(x);
    let c = cos_fx(x);
    if c.bits == 0 {
        if s.bits >= 0 {
            Fx { bits: i64::MAX }
        } else {
            Fx { bits: i64::MIN }
        }
    } else {
        s.div(c)
    }
}

} // verus!
