//! Tests for the fixed-point scalars and the complex arithmetic.

use basstrace::complex::Complex;
use basstrace::fx::{
    fx_add, fx_div, fx_log10, fx_mul, fx_neg, fx_of_int, fx_sqrt, fx_sub, fx_to_int, FX_MAX,
    FX_MIN, FX_ONE, FX_PI, FX_TWO_PI,
};

#[test]
fn fx_mul_exact_values() {
    // 1.5 * 2.0 == 3.0
    assert_eq!(fx_mul(98304, 131072), 196608);
    // -0.5 * 0.5 == -0.25
    assert_eq!(fx_mul(-32768, 32768), -16384);
    assert_eq!(fx_mul(0, 12345), 0);
}

#[test]
fn fx_div_exact_values() {
    // 1.0 / 2.0 == 0.5
    assert_eq!(fx_div(FX_ONE, 131072), 32768);
    // -3.0 / 2.0 == -1.5
    assert_eq!(fx_div(-196608, 131072), -98304);
    // Division by zero yields zero by convention.
    assert_eq!(fx_div(FX_ONE, 0), 0);
}

#[test]
fn fx_saturation() {
    assert_eq!(fx_add(FX_MAX, FX_MAX), FX_MAX);
    assert_eq!(fx_sub(FX_MIN, FX_MAX), FX_MIN);
    assert_eq!(fx_neg(FX_MIN), FX_MAX);
    assert_eq!(fx_mul(FX_MAX, FX_MAX), FX_MAX);
    assert_eq!(fx_of_int(i64::MAX), FX_MAX);
}

#[test]
fn fx_sqrt_exact_values() {
    // sqrt(4.0) == 2.0
    assert_eq!(fx_sqrt(262144), 131072);
    // sqrt(1.0) == 1.0
    assert_eq!(fx_sqrt(FX_ONE), FX_ONE);
    // Non-positive input yields zero.
    assert_eq!(fx_sqrt(0), 0);
    assert_eq!(fx_sqrt(-65536), 0);
}

#[test]
fn fx_to_int_truncates_toward_zero() {
    assert_eq!(fx_to_int(98304), 1); // 1.5
    assert_eq!(fx_to_int(-98304), -1); // -1.5
    assert_eq!(fx_to_int(65535), 0);
    assert_eq!(fx_to_int(-65536), -1);
}

#[test]
fn fx_log10_exact_at_powers_of_two() {
    // log10(1.0) == 0 exactly.
    assert_eq!(fx_log10(FX_ONE), 0);
    // log10(2.0) == log10(2) exactly at a power of two.
    assert_eq!(fx_log10(131072), 19728);
    // Non-positive input saturates to the negative bound.
    assert_eq!(fx_log10(0), FX_MIN);
    assert_eq!(fx_log10(-5), FX_MIN);
}

#[test]
fn exp_i_zero_is_exactly_one() {
    let z = Complex::exp_i(0);
    assert_eq!(z.re(), FX_ONE);
    assert_eq!(z.imag(), 0);
}

#[test]
fn exp_i_quadrant_boundaries() {
    // exp_i(pi/2) == i and exp_i(pi) == -1, exactly at the boundaries of
    // the quarter-wave approximation.
    let q = Complex::exp_i(FX_PI / 2);
    assert_eq!(q.re(), 0);
    assert_eq!(q.imag(), FX_ONE);
    let h = Complex::exp_i(FX_PI);
    assert_eq!(h.re(), -FX_ONE);
    assert_eq!(h.imag(), 0);
}

#[test]
fn exp_i_norm_close_to_one_everywhere() {
    // |exp_i(t)| == 1 up to the error of the quarter-wave parabola
    // (about six percent at worst, mid-quadrant).
    let samples: Vec<i64> = vec![
        0,
        1,
        25736,
        51472,
        102944,
        150000,
        205888,
        300000,
        411776,
        1000000,
        -1,
        -411776,
        -98765432,
        i64::MAX,
        i64::MIN + 1,
    ];
    for t in samples {
        let n = Complex::exp_i(t).norm();
        assert!(n >= 63000, "norm {} too small at t = {}", n, t);
        assert!(n <= 70000, "norm {} too large at t = {}", n, t);
    }
}

#[test]
fn complex_mul_exact_value() {
    // (1 + 2i) * (3 + 4i) == -5 + 10i
    let a = Complex::new(FX_ONE, 2 * FX_ONE);
    let b = Complex::new(3 * FX_ONE, 4 * FX_ONE);
    let p = a.mul(b);
    assert_eq!(p.re(), -5 * FX_ONE);
    assert_eq!(p.imag(), 10 * FX_ONE);
}

#[test]
fn complex_add_commutes_and_associates() {
    let a = Complex::new(123456, -789);
    let b = Complex::new(-654321, 42);
    let c = Complex::new(777, 888999);
    assert_eq!(a.add(b), b.add(a));
    assert_eq!(a.add(b).add(c), a.add(b.add(c)));
}

#[test]
fn complex_mul_commutes() {
    let a = Complex::new(123456, -789);
    let b = Complex::new(-654321, 42);
    assert_eq!(a.mul(b), b.mul(a));
    let c = Complex::new(FX_MAX, FX_MIN);
    let d = Complex::new(-3, 99999);
    assert_eq!(c.mul(d), d.mul(c));
}

#[test]
fn complex_norm_exact_value() {
    // |3 + 4i| == 5
    let z = Complex::new(3 * FX_ONE, 4 * FX_ONE);
    assert_eq!(z.norm(), 5 * FX_ONE);
}

#[test]
fn angle_constants_consistent() {
    assert_eq!(FX_TWO_PI, 2 * FX_PI);
    assert_eq!(Complex::exp_i(FX_TWO_PI), Complex::exp_i(0));
}
