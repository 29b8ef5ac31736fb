//! Q16.16 fixed-point scalar arithmetic.
//!
//! A scalar is an `i64` holding the represented value times [`FX_ONE`].
//! Every operation computes the mathematically exact result in wide
//! integers and then saturates it into `[FX_MIN, FX_MAX]`; saturation and
//! the division-by-zero convention (quotient zero) stand in for the
//! floating-point infinities of a conventional implementation.  Each
//! executable operation is specified exactly against its mathematical twin.

use vstd::prelude::*;
use vstd::math::abs;
use vstd::arithmetic::power2::pow2;

verus! {

/// One in Q16.16: represented values are `v / 65536`.
pub const FX_ONE: i64 = 65536;

/// Saturation bound, two to the sixtieth.
pub const FX_MAX: i64 = 0x1000_0000_0000_0000;

/// Negative saturation bound.
pub const FX_MIN: i64 = -0x1000_0000_0000_0000;

/// Saturate a mathematical integer into the representable range.
pub open spec fn fx_clamp(v: int) -> int {
    if v > FX_MAX as int {
        FX_MAX as int
    } else if v < FX_MIN as int {
        FX_MIN as int
    } else {
        v
    }
}

/// Whether a mathematical integer lies within the saturation range.
pub open spec fn fx_in_range(v: int) -> bool {
    FX_MIN as int <= v <= FX_MAX as int
}

/// Saturating addition: `fx_clamp(a + b)`.
pub open spec fn fx_add_spec(a: int, b: int) -> int {
    fx_clamp(a + b)
}

/// Saturating subtraction: `fx_clamp(a - b)`.
pub open spec fn fx_sub_spec(a: int, b: int) -> int {
    fx_clamp(a - b)
}

/// Saturating negation: `fx_clamp(-a)`.
pub open spec fn fx_neg_spec(a: int) -> int {
    fx_clamp(-a)
}

/// Saturating Q16.16 product: the exact product scaled down by `FX_ONE`,
/// rounded toward zero, then saturated.
pub open spec fn fx_mul_spec(a: int, b: int) -> int {
    let m = ((abs(a) * abs(b)) as int) / (FX_ONE as int);
    if (a < 0) != (b < 0) {
        fx_clamp(-m)
    } else {
        fx_clamp(m)
    }
}

/// Saturating Q16.16 quotient, rounded toward zero.  Division by zero
/// yields zero by convention.
pub open spec fn fx_div_spec(a: int, b: int) -> int {
    if b == 0 {
        0
    } else {
        let m = ((abs(a) * (FX_ONE as nat)) as int) / (abs(b) as int);
        if (a < 0) != (b < 0) {
            fx_clamp(-m)
        } else {
            fx_clamp(m)
        }
    }
}

/// A plain integer converted to Q16.16, saturated.
pub open spec fn fx_of_int_spec(n: int) -> int {
    fx_clamp(n * (FX_ONE as int))
}

/// The magnitude of a scalar as an unsigned 64-bit value.
fn abs_u64(a: i64) -> (r: u64)
    ensures
        r as int == abs(a as int),
{
    if a >= 0 {
        a as u64
    } else {
        (-(a as i128)) as u64
    }
}

/// Saturate a wide intermediate into an `i64` scalar.
fn clamp_i128(v: i128) -> (r: i64)
    ensures
        r as int == fx_clamp(v as int),
{
    if v > FX_MAX as i128 {
        FX_MAX
    } else if v < FX_MIN as i128 {
        FX_MIN
    } else {
        v as i64
    }
}

/// Apply a sign to an unsigned magnitude and saturate.
fn signed_clamp(q: u128, neg: bool) -> (r: i64)
    ensures
        neg ==> r as int == fx_clamp(-(q as int)),
        !neg ==> r as int == fx_clamp(q as int),
{
    if neg {
        if q > FX_MAX as u128 {
            FX_MIN
        } else {
            -(q as i64)
        }
    } else {
        if q > FX_MAX as u128 {
            FX_MAX
        } else {
            q as i64
        }
    }
}

/// Saturating addition.
pub fn fx_add(a: i64, b: i64) -> (r: i64)
    ensures
        r as int == fx_add_spec(a as int, b as int),
{
    clamp_i128(a as i128 + b as i128)
}

/// Saturating subtraction.
pub fn fx_sub(a: i64, b: i64) -> (r: i64)
    ensures
        r as int == fx_sub_spec(a as int, b as int),
{
    clamp_i128(a as i128 - b as i128)
}

/// Saturating negation.
pub fn fx_neg(a: i64) -> (r: i64)
    ensures
        r as int == fx_neg_spec(a as int),
{
    clamp_i128(-(a as i128))
}

/// Saturating Q16.16 multiplication.
pub fn fx_mul(a: i64, b: i64) -> (r: i64)
    ensures
        r as int == fx_mul_spec(a as int, b as int),
{
    let neg = (a < 0) != (b < 0);
    let ma = abs_u64(a);
    let mb = abs_u64(b);
    proof {
        assert((ma as int) * (mb as int) <= u128::MAX as int) by (nonlinear_arith)
            requires
                ma as int <= u64::MAX as int,
                mb as int <= u64::MAX as int,
        ;
    }
    let prod: u128 = (ma as u128) * (mb as u128);
    let q: u128 = prod / (FX_ONE as u128);
    signed_clamp(q, neg)
}

/// Saturating Q16.16 division; zero divisor yields zero.
pub fn fx_div(a: i64, b: i64) -> (r: i64)
    ensures
        r as int == fx_div_spec(a as int, b as int),
{
    if b == 0 {
        return 0;
    }
    let neg = (a < 0) != (b < 0);
    let ma = abs_u64(a);
    let mb = abs_u64(b);
    proof {
        assert((ma as int) * (FX_ONE as int) <= u128::MAX as int) by (nonlinear_arith)
            requires
                ma as int <= u64::MAX as int,
                FX_ONE as int == 65536,
        ;
    }
    let num: u128 = (ma as u128) * (FX_ONE as u128);
    let q: u128 = num / (mb as u128);
    signed_clamp(q, neg)
}

/// A plain integer converted to Q16.16, saturated.
pub fn fx_of_int(n: i64) -> (r: i64)
    ensures
        r as int == fx_of_int_spec(n as int),
{
    proof {
        assert(i128::MIN as int <= (n as int) * (FX_ONE as int) <= i128::MAX as int)
            by (nonlinear_arith)
            requires
                i64::MIN as int <= n as int <= i64::MAX as int,
                FX_ONE as int == 65536,
        ;
    }
    clamp_i128(n as i128 * FX_ONE as i128)
}

/// Multiplying an in-range scalar by one is the identity: the scaling by
/// `FX_ONE` cancels the format's scale exactly.
pub proof fn lemma_fx_mul_by_one(a: int)
    requires
        fx_in_range(a),
    ensures
        fx_mul_spec(a, FX_ONE as int) == a,
{
    let m = abs(a) as int;
    assert((m * (FX_ONE as int)) / (FX_ONE as int) == m) by {
        vstd::arithmetic::div_mod::lemma_div_by_multiple(m, FX_ONE as int);
    }
    assert((abs(a) * abs(FX_ONE as int)) as int == m * (FX_ONE as int));
}

/// Multiplying an in-range scalar by plus or minus one is exact: the
/// format's scale cancels, and only the sign can change.
pub proof fn lemma_fx_mul_unit(s: int, a: int)
    requires
        s == FX_ONE as int || s == -(FX_ONE as int),
        fx_in_range(a),
    ensures
        fx_mul_spec(s, a) == (if s > 0 { a } else { -a }),
        fx_mul_spec(a, s) == (if s > 0 { a } else { -a }),
{
    let m = abs(a) as int;
    assert(abs(s) == FX_ONE as nat);
    assert(((FX_ONE as int) * m) / (FX_ONE as int) == m) by {
        vstd::arithmetic::div_mod::lemma_div_multiples_vanish(m, FX_ONE as int);
    }
    assert((abs(s) * abs(a)) as int == (FX_ONE as int) * m);
    assert((abs(a) * abs(s)) as int == (FX_ONE as int) * m) by (nonlinear_arith)
        requires
            abs(s) == FX_ONE as nat,
            m == abs(a) as int,
    ;
}

/// Multiplying by zero gives zero, whatever the other operand.
pub proof fn lemma_fx_mul_zero(a: int)
    ensures
        fx_mul_spec(a, 0) == 0,
        fx_mul_spec(0, a) == 0,
{
    assert(abs(a) * abs(0) == 0) by (nonlinear_arith);
    assert(abs(0) * abs(a) == 0) by (nonlinear_arith);
}

/// Whether `r` is the floor square root of `n`.
pub open spec fn is_sqrt(n: nat, r: nat) -> bool {
    r * r <= n < (r + 1) * (r + 1)
}

/// The floor square root of a natural number.
pub open spec fn sqrt_spec(n: nat) -> nat {
    choose|r: nat| is_sqrt(n, r)
}

/// The floor square root is unique.
pub proof fn lemma_sqrt_unique(n: nat, r1: nat, r2: nat)
    requires
        is_sqrt(n, r1),
        is_sqrt(n, r2),
    ensures
        r1 == r2,
{
    if r1 < r2 {
        assert((r1 + 1) * (r1 + 1) <= r2 * r2) by (nonlinear_arith)
            requires
                r1 + 1 <= r2,
        ;
    }
    if r2 < r1 {
        assert((r2 + 1) * (r2 + 1) <= r1 * r1) by (nonlinear_arith)
            requires
                r2 + 1 <= r1,
        ;
    }
}

/// Floor square root of a wide natural, by bisection.
fn isqrt_u128(n: u128) -> (r: u64)
    requires
        n < 0x1_0000_0000_0000_0000_0000u128,
    ensures
        r as nat == sqrt_spec(n as nat),
        is_sqrt(n as nat, r as nat),
{
    let mut lo: u64 = 0;
    let mut hi: u64 = 0x100_0000_0000;
    proof {
        assert((hi as nat) * (hi as nat) > n as nat) by (nonlinear_arith)
            requires
                hi as nat == 0x100_0000_0000,
                (n as nat) < 0x1_0000_0000_0000_0000_0000,
        ;
    }
    while hi - lo > 1
        invariant
            lo < hi,
            hi <= 0x100_0000_0000,
            (lo as nat) * (lo as nat) <= n as nat,
            (hi as nat) * (hi as nat) > n as nat,
        decreases hi - lo,
    {
        let mid: u64 = lo + (hi - lo) / 2;
        proof {
            assert((mid as int) * (mid as int) <= u128::MAX as int) by (nonlinear_arith)
                requires
                    mid as int <= 0x100_0000_0000,
            ;
        }
        let sq: u128 = (mid as u128) * (mid as u128);
        if sq <= n {
            lo = mid;
        } else {
            hi = mid;
        }
    }
    proof {
        assert(is_sqrt(n as nat, lo as nat));
        let w = sqrt_spec(n as nat);
        assert(is_sqrt(n as nat, w)) by {
            assert(is_sqrt(n as nat, lo as nat));
        }
        lemma_sqrt_unique(n as nat, w, lo as nat);
    }
    lo
}

/// The square root of a Q16.16 scalar; zero for non-positive input.
pub open spec fn fx_sqrt_spec(x: int) -> int {
    if x <= 0 {
        0
    } else {
        sqrt_spec((x * (FX_ONE as int)) as nat) as int
    }
}

/// The square root of a Q16.16 scalar; zero for non-positive input.
pub fn fx_sqrt(x: i64) -> (r: i64)
    ensures
        r as int == fx_sqrt_spec(x as int),
        0 <= r,
{
    if x <= 0 {
        return 0;
    }
    proof {
        assert((x as int) * (FX_ONE as int) < 0x1_0000_0000_0000_0000_0000)
            by (nonlinear_arith)
            requires
                0 < x as int <= i64::MAX as int,
                FX_ONE as int == 65536,
        ;
    }
    let n: u128 = (x as u128) * (FX_ONE as u128);
    let r = isqrt_u128(n);
    proof {
        assert(r as nat <= 0x100_0000_0000) by (nonlinear_arith)
            requires
                (r as nat) * (r as nat) <= n as nat,
                (n as nat) < 0x1_0000_0000_0000_0000_0000,
        ;
    }
    r as i64
}

/// The integer part of a scalar, rounded toward zero.
pub open spec fn fx_to_int_spec(x: int) -> int {
    let m = (abs(x) / (FX_ONE as nat)) as int;
    if x < 0 {
        -m
    } else {
        m
    }
}

/// The integer part of a scalar, rounded toward zero.
pub fn fx_to_int(x: i64) -> (r: i64)
    ensures
        r as int == fx_to_int_spec(x as int),
{
    let ma = abs_u64(x);
    let m = ma / (FX_ONE as u64);
    proof {
        assert(((ma as int) / (FX_ONE as int)) * (FX_ONE as int) <= ma as int) by {
            vstd::arithmetic::div_mod::lemma_fundamental_div_mod(ma as int, FX_ONE as int);
        }
        assert(m as int <= 0x8000_0000_0000) by (nonlinear_arith)
            requires
                (m as int) * 65536 <= ma as int,
                ma as int <= 0x8000_0000_0000_0000,
                FX_ONE as int == 65536,
                m as int == (ma as int) / (FX_ONE as int),
                m as int >= 0,
        ;
    }
    if x < 0 {
        -(m as i64)
    } else {
        m as i64
    }
}

/// Whether `b` is the floor base-two logarithm of `n`.
pub open spec fn is_log2_floor(n: nat, b: nat) -> bool {
    pow2(b) <= n < pow2(b + 1)
}

/// The floor base-two logarithm of a positive natural.
pub open spec fn log2_floor_spec(n: nat) -> nat {
    choose|b: nat| is_log2_floor(n, b)
}

/// The floor base-two logarithm is unique.
pub proof fn lemma_log2_floor_unique(n: nat, b1: nat, b2: nat)
    requires
        is_log2_floor(n, b1),
        is_log2_floor(n, b2),
    ensures
        b1 == b2,
{
    if b1 + 1 < b2 {
        vstd::arithmetic::power2::lemma_pow2_strictly_increases(b1 + 1, b2);
    }
    if b2 + 1 < b1 {
        vstd::arithmetic::power2::lemma_pow2_strictly_increases(b2 + 1, b1);
    }
}

/// The floor base-two logarithm of a positive word, with the matching
/// power of two, found by doubling.
fn log2_floor(m: u64) -> (r: (u64, u64))
    requires
        m >= 1,
    ensures
        r.1 as nat == pow2(r.0 as nat),
        is_log2_floor(m as nat, r.0 as nat),
        r.0 as nat == log2_floor_spec(m as nat),
        r.0 < 64,
        r.1 >= 1,
{
    let mut b: u64 = 0;
    let mut p: u64 = 1;
    proof {
        vstd::arithmetic::power2::lemma2_to64();
        vstd::arithmetic::power2::lemma2_to64_rest();
    }
    while p <= m / 2
        invariant
            m >= 1,
            p >= 1,
            p as nat == pow2(b as nat),
            p as nat <= m as nat,
            b < 64,
        decreases m - p,
    {
        proof {
            vstd::arithmetic::power2::lemma_pow2_unfold((b + 1) as nat);
            if b + 1 >= 64 {
                vstd::arithmetic::power2::lemma2_to64_rest();
                if b + 1 > 64 {
                    vstd::arithmetic::power2::lemma_pow2_strictly_increases(64, (b + 1) as nat);
                }
                assert(false);
            }
        }
        p = p * 2;
        b = b + 1;
    }
    proof {
        vstd::arithmetic::power2::lemma_pow2_unfold((b + 1) as nat);
        assert(is_log2_floor(m as nat, b as nat));
        let w = log2_floor_spec(m as nat);
        assert(is_log2_floor(m as nat, w)) by {
            assert(is_log2_floor(m as nat, b as nat));
        }
        lemma_log2_floor_unique(m as nat, w, b as nat);
    }
    (b, p)
}

/// The base-ten logarithm of two in Q16.16, about 0.30103.
pub const FX_LOG10_TWO: i64 = 19728;

/// Approximate base-ten logarithm of a positive scalar: the floor of the
/// base-two logarithm refined by linear interpolation between neighboring
/// powers of two, rescaled by `log10(2)`.  Non-positive input, whose
/// logarithm a float implementation would take to minus infinity, yields
/// the negative saturation bound.
pub open spec fn fx_log10_spec(x: int) -> int {
    if x <= 0 {
        FX_MIN as int
    } else {
        let b = log2_floor_spec(x as nat);
        let q = (((x as nat) * (FX_ONE as nat)) / pow2(b)) as int;
        let l2 = (b as int) * (FX_ONE as int) - 16 * (FX_ONE as int) + (q - FX_ONE as int);
        fx_mul_spec(l2, FX_LOG10_TWO as int)
    }
}

/// Approximate base-ten logarithm of a Q16.16 scalar.
pub fn fx_log10(x: i64) -> (r: i64)
    ensures
        r as int == fx_log10_spec(x as int),
{
    if x <= 0 {
        return FX_MIN;
    }
    let m = x as u64;
    let bp = log2_floor(m);
    let b = bp.0;
    let p = bp.1;
    proof {
        assert((m as int) * (FX_ONE as int) <= u128::MAX as int) by (nonlinear_arith)
            requires
                m as int <= u64::MAX as int,
                FX_ONE as int == 65536,
        ;
    }
    let num: u128 = (m as u128) * (FX_ONE as u128);
    let q128: u128 = num / (p as u128);
    proof {
        let mi = m as int;
        let pi = p as int;
        let one = FX_ONE as int;
        vstd::arithmetic::power2::lemma_pow2_unfold((b + 1) as nat);
        assert(mi < 2 * pi);
        assert(mi * one < pi * (2 * one)) by (nonlinear_arith)
            requires
                mi < 2 * pi,
                one == 65536,
        ;
        assert(num as int / pi < 2 * one) by {
            vstd::arithmetic::div_mod::lemma_multiply_divide_lt(mi * one, pi, 2 * one);
        }
        assert(pi * one <= mi * one) by (nonlinear_arith)
            requires
                pi <= mi,
                one == 65536,
        ;
        assert((pi * one) / pi == one) by {
            vstd::arithmetic::div_mod::lemma_div_multiples_vanish(one, pi);
        }
        assert(one <= num as int / pi) by {
            vstd::arithmetic::div_mod::lemma_div_is_ordered(pi * one, mi * one, pi);
        }
    }
    let q = q128 as i64;
    let l2 = (b as i64) * FX_ONE - 16 * FX_ONE + (q - FX_ONE);
    fx_mul(l2, FX_LOG10_TWO)
}

/// A quarter turn, `pi / 2` in Q16.16.  The circle constants are chosen so
/// that a full turn is exactly four quarter turns, letting the quadrants of
/// the sine approximation meet exactly.
pub const FX_HALF_PI: i64 = 102944;

/// Half a turn, `pi` in Q16.16.
pub const FX_PI: i64 = 205888;

/// A full turn, `2 * pi` in Q16.16.
pub const FX_TWO_PI: i64 = 411776;

/// Two in Q16.16.
pub const FX_TWO: i64 = 131072;

/// An angle reduced into `[0, 2 pi)`, preserving its direction.
pub open spec fn angle_reduce_spec(t: int) -> int {
    let m = (abs(t) as int) % (FX_TWO_PI as int);
    if t >= 0 {
        m
    } else if m == 0 {
        0
    } else {
        FX_TWO_PI as int - m
    }
}

/// Reduce an angle into `[0, 2 pi)`.
pub fn angle_reduce(t: i64) -> (r: i64)
    ensures
        r as int == angle_reduce_spec(t as int),
        0 <= r < FX_TWO_PI,
{
    let m = abs_u64(t);
    let rem: u64 = m % (FX_TWO_PI as u64);
    if t >= 0 {
        rem as i64
    } else if rem == 0 {
        0
    } else {
        FX_TWO_PI - rem as i64
    }
}

/// Quarter-wave sine: a parabola in the normalized phase `u = x / (pi/2)`,
/// `u * (2 - u)`, which is exactly zero at `x == 0` and exactly one at
/// `x == pi/2`.
pub open spec fn sin_q_spec(x: int) -> int {
    let u = fx_div_spec(x, FX_HALF_PI as int);
    fx_mul_spec(u, fx_sub_spec(FX_TWO as int, u))
}

/// Quarter-wave sine.
fn sin_q(x: i64) -> (r: i64)
    ensures
        r as int == sin_q_spec(x as int),
{
    let u = fx_div(x, FX_HALF_PI);
    fx_mul(u, fx_sub(FX_TWO, u))
}

/// Approximate sine of a Q16.16 angle in radians, by quadrant reflection
/// of the quarter-wave parabola.
pub open spec fn fx_sin_spec(t: int) -> int {
    let x = angle_reduce_spec(t);
    if x < FX_HALF_PI as int {
        sin_q_spec(x)
    } else if x < FX_PI as int {
        sin_q_spec(FX_PI as int - x)
    } else if x < FX_PI as int + FX_HALF_PI as int {
        fx_neg_spec(sin_q_spec(x - FX_PI as int))
    } else {
        fx_neg_spec(sin_q_spec(FX_TWO_PI as int - x))
    }
}

/// Approximate sine of a Q16.16 angle in radians.
pub fn fx_sin(t: i64) -> (r: i64)
    ensures
        r as int == fx_sin_spec(t as int),
{
    let x = angle_reduce(t);
    if x < FX_HALF_PI {
        sin_q(x)
    } else if x < FX_PI {
        sin_q(FX_PI - x)
    } else if x < FX_PI + FX_HALF_PI {
        fx_neg(sin_q(x - FX_PI))
    } else {
        fx_neg(sin_q(FX_TWO_PI - x))
    }
}

/// On the quarter wave the parabola stays within `[0, 1]`.
pub proof fn lemma_sin_q_bounded(x: int)
    requires
        0 <= x <= FX_HALF_PI as int,
    ensures
        0 <= sin_q_spec(x) <= FX_ONE as int,
{
    let one = FX_ONE as int;
    let h = FX_HALF_PI as int;
    let num = (abs(x) * (FX_ONE as nat)) as int;
    let u = num / h;
    assert(num <= h * one) by (nonlinear_arith)
        requires
            0 <= x <= h,
            num == x * one,
            one == 65536,
            h == 102944,
    ;
    assert((h * one) / h == one) by {
        vstd::arithmetic::div_mod::lemma_div_multiples_vanish(one, h);
    }
    assert(u <= one) by {
        vstd::arithmetic::div_mod::lemma_div_is_ordered(num, h * one, h);
    }
    assert(0 <= u) by {
        vstd::arithmetic::div_mod::lemma_div_pos_is_pos(num, h);
    }
    assert(fx_div_spec(x, h) == u);
    let v = fx_sub_spec(FX_TWO as int, u);
    assert(v == 2 * one - u);
    let prod = (abs(u) * abs(v)) as int;
    assert(0 <= prod <= one * one) by (nonlinear_arith)
        requires
            0 <= u <= one,
            prod == u * (2 * one - u),
            v == 2 * one - u,
    ;
    assert((one * one) / one == one) by {
        vstd::arithmetic::div_mod::lemma_div_multiples_vanish(one, one);
    }
    assert(prod / one <= one) by {
        vstd::arithmetic::div_mod::lemma_div_is_ordered(prod, one * one, one);
    }
    assert(0 <= prod / one) by {
        vstd::arithmetic::div_mod::lemma_div_pos_is_pos(prod, one);
    }
    assert(sin_q_spec(x) == fx_clamp(prod / one));
}

/// The sine approximation never leaves `[-1, 1]`: the quadrant arguments
/// all lie on the quarter wave, where the parabola is bounded.
pub proof fn lemma_fx_sin_bounded(t: int)
    ensures
        -(FX_ONE as int) <= fx_sin_spec(t) <= FX_ONE as int,
{
    let x = angle_reduce_spec(t);
    assert(0 <= x < FX_TWO_PI as int);
    if x < FX_HALF_PI as int {
        lemma_sin_q_bounded(x);
    } else if x < FX_PI as int {
        lemma_sin_q_bounded(FX_PI as int - x);
    } else if x < FX_PI as int + FX_HALF_PI as int {
        lemma_sin_q_bounded(x - FX_PI as int);
    } else {
        lemma_sin_q_bounded(FX_TWO_PI as int - x);
    }
}

/// Approximate cosine: the sine advanced by a quarter turn.
pub open spec fn fx_cos_spec(t: int) -> int {
    fx_sin_spec(angle_reduce_spec(t) + FX_HALF_PI as int)
}

/// Approximate cosine of a Q16.16 angle in radians.
pub fn fx_cos(t: i64) -> (r: i64)
    ensures
        r as int == fx_cos_spec(t as int),
{
    let x = angle_reduce(t);
    fx_sin(x + FX_HALF_PI)
}

} // verus!
