//! Complex numbers over Q16.16 scalars.
//!
//! A complex value is a phasor: the amplitude and phase of a steady-state
//! sinusoidal field at a fixed frequency.

use vstd::prelude::*;
use crate::fx::{
    fx_add, fx_add_spec, fx_cos, fx_cos_spec, fx_mul, fx_mul_spec, fx_sin, fx_sin_spec,
    fx_sqrt, fx_sqrt_spec, fx_sub, fx_sub_spec, FX_ONE,
};

verus! {

/// A complex number with Q16.16 real and imaginary parts.
#[derive(Clone, Copy, Debug, PartialEq, Eq, Structural)]
pub struct Complex {
    pub re: i64,
    pub im: i64,
}

/// Componentwise sum.
pub open spec fn c_add_spec(a: Complex, b: Complex) -> Complex {
    Complex {
        re: fx_add_spec(a.re as int, b.re as int) as i64,
        im: fx_add_spec(a.im as int, b.im as int) as i64,
    }
}

/// Componentwise difference.
pub open spec fn c_sub_spec(a: Complex, b: Complex) -> Complex {
    Complex {
        re: fx_sub_spec(a.re as int, b.re as int) as i64,
        im: fx_sub_spec(a.im as int, b.im as int) as i64,
    }
}

/// The complex product.
pub open spec fn c_mul_spec(a: Complex, b: Complex) -> Complex {
    Complex {
        re: fx_sub_spec(
            fx_mul_spec(a.re as int, b.re as int),
            fx_mul_spec(a.im as int, b.im as int),
        ) as i64,
        im: fx_add_spec(
            fx_mul_spec(a.re as int, b.im as int),
            fx_mul_spec(a.im as int, b.re as int),
        ) as i64,
    }
}

/// The value scaled by a Q16.16 scalar.
pub open spec fn c_scale_spec(a: Complex, s: int) -> Complex {
    Complex {
        re: fx_mul_spec(a.re as int, s) as i64,
        im: fx_mul_spec(a.im as int, s) as i64,
    }
}

/// The magnitude, `sqrt(re^2 + im^2)`.
pub open spec fn c_norm_spec(a: Complex) -> int {
    fx_sqrt_spec(
        fx_add_spec(
            fx_mul_spec(a.re as int, a.re as int),
            fx_mul_spec(a.im as int, a.im as int),
        ),
    )
}

/// `exp(i * t)` for a Q16.16 angle `t` in radians.
pub open spec fn exp_i_spec(t: int) -> Complex {
    Complex { re: fx_cos_spec(t) as i64, im: fx_sin_spec(t) as i64 }
}

impl Complex {
    /// Build a complex number from its parts.
    pub fn new(re: i64, im: i64) -> (r: Complex)
        ensures
            r.re == re && r.im == im,
    {
        Complex { re, im }
    }

    /// The zero value.
    pub fn zero() -> (r: Complex)
        ensures
            r.re == 0 && r.im == 0,
    {
        Complex { re: 0, im: 0 }
    }

    /// Return `exp(i * t)`: a phasor of the given phase.  At a phase of
    /// zero the result is exactly one.
    pub fn exp_i(t: i64) -> (r: Complex)
        ensures
            r == exp_i_spec(t as int),
    {
        Complex { re: fx_cos(t), im: fx_sin(t) }
    }

    /// The real part.
    pub fn re(&self) -> (r: i64)
        ensures
            r == self.re,
    {
        self.re
    }

    /// The imaginary part.
    pub fn imag(&self) -> (r: i64)
        ensures
            r == self.im,
    {
        self.im
    }

    /// The magnitude.
    pub fn norm(&self) -> (r: i64)
        ensures
            r as int == c_norm_spec(*self),
            0 <= r,
    {
        fx_sqrt(fx_add(fx_mul(self.re, self.re), fx_mul(self.im, self.im)))
    }

    /// Componentwise saturating sum.
    pub fn add(self, other: Complex) -> (r: Complex)
        ensures
            r == c_add_spec(self, other),
    {
        Complex { re: fx_add(self.re, other.re), im: fx_add(self.im, other.im) }
    }

    /// Componentwise saturating difference.
    pub fn sub(self, other: Complex) -> (r: Complex)
        ensures
            r == c_sub_spec(self, other),
    {
        Complex { re: fx_sub(self.re, other.re), im: fx_sub(self.im, other.im) }
    }

    /// The complex product.
    pub fn mul(self, other: Complex) -> (r: Complex)
        ensures
            r == c_mul_spec(self, other),
    {
        Complex {
            re: fx_sub(fx_mul(self.re, other.re), fx_mul(self.im, other.im)),
            im: fx_add(fx_mul(self.re, other.im), fx_mul(self.im, other.re)),
        }
    }

    /// The value scaled by a Q16.16 scalar.
    pub fn scale(self, s: i64) -> (r: Complex)
        ensures
            r == c_scale_spec(self, s as int),
    {
        Complex { re: fx_mul(self.re, s), im: fx_mul(self.im, s) }
    }
}

/// At phase zero the phasor is exactly one: `exp_i(0) == (1, 0)`.
pub proof fn lemma_exp_i_zero()
    ensures
        exp_i_spec(0) == (Complex { re: FX_ONE, im: 0 }),
{
    // The sine is exactly zero at phase zero, and the cosine goes through
    // the quarter-wave parabola at its exact upper endpoint, where the
    // normalized phase is exactly one and one times one is exact.
    assert(crate::fx::angle_reduce_spec(0) == 0);
    assert(crate::fx::fx_div_spec(0, crate::fx::FX_HALF_PI as int) == 0);
    assert(crate::fx::sin_q_spec(0) == 0);
    assert(crate::fx::fx_sin_spec(0) == 0);
    assert(crate::fx::angle_reduce_spec(crate::fx::FX_HALF_PI as int)
        == crate::fx::FX_HALF_PI as int);
    assert(crate::fx::fx_div_spec(crate::fx::FX_HALF_PI as int, crate::fx::FX_HALF_PI as int)
        == FX_ONE as int);
    crate::fx::lemma_fx_mul_by_one(FX_ONE as int);
    assert(crate::fx::sin_q_spec(crate::fx::FX_PI as int - crate::fx::FX_HALF_PI as int)
        == FX_ONE as int);
    assert(crate::fx::fx_cos_spec(0) == FX_ONE as int);
}

/// The phasor `exp_i(t)` stays in the unit box for every phase: each
/// component is bounded by one in magnitude.  (Its norm is one only up to
/// the error of the quarter-wave parabola, so the exact unit-norm claim is
/// checked by tests with a tolerance, not proved.)
pub proof fn lemma_exp_i_unit_box(t: int)
    ensures
        -(FX_ONE as int) <= exp_i_spec(t).re as int <= FX_ONE as int,
        -(FX_ONE as int) <= exp_i_spec(t).im as int <= FX_ONE as int,
{
    crate::fx::lemma_fx_sin_bounded(t);
    crate::fx::lemma_fx_sin_bounded(
        crate::fx::angle_reduce_spec(t) + crate::fx::FX_HALF_PI as int,
    );
}

/// Complex addition is associative whenever no intermediate sum saturates.
/// (At the saturation bound associativity is lost, as it is at the range
/// boundary of any finite number format.)
pub proof fn lemma_c_add_assoc(a: Complex, b: Complex, c: Complex)
    requires
        crate::fx::fx_in_range(a.re as int + b.re as int),
        crate::fx::fx_in_range(b.re as int + c.re as int),
        crate::fx::fx_in_range(a.re as int + b.re as int + c.re as int),
        crate::fx::fx_in_range(a.im as int + b.im as int),
        crate::fx::fx_in_range(b.im as int + c.im as int),
        crate::fx::fx_in_range(a.im as int + b.im as int + c.im as int),
    ensures
        c_add_spec(c_add_spec(a, b), c) == c_add_spec(a, c_add_spec(b, c)),
{
}

/// Complex addition is commutative, with no condition: saturation treats
/// the two operands alike.
pub proof fn lemma_c_add_comm(a: Complex, b: Complex)
    ensures
        c_add_spec(a, b) == c_add_spec(b, a),
{
}

/// Complex multiplication is commutative, with no condition: both the
/// products and the roundings are symmetric in the operands.
pub proof fn lemma_c_mul_comm(a: Complex, b: Complex)
    ensures
        c_mul_spec(a, b) == c_mul_spec(b, a),
{
    assert((a.re as int) * (b.re as int) == (b.re as int) * (a.re as int));
    assert((a.im as int) * (b.im as int) == (b.im as int) * (a.im as int));
    assert((a.re as int) * (b.im as int) == (b.im as int) * (a.re as int));
    assert((a.im as int) * (b.re as int) == (b.re as int) * (a.im as int));
}

} // verus!
