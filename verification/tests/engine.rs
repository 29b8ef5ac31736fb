//! Tests for the rendering engine: passes, accumulation, and painting.

use basstrace::complex::Complex;
use basstrace::fx::{FX_MIN, FX_ONE};
use basstrace::rand::Rng;
use basstrace::renderer::{render_one, RenderParams, Renderer, FX_DEFAULT_FREQUENCY};
use basstrace::scene::Scene;

fn zeros(n: usize) -> Vec<Complex> {
    let mut v = Vec::new();
    while v.len() < n {
        v.push(Complex::zero());
    }
    v
}

#[test]
fn renderer_new_has_fixed_resolution_and_default_params() {
    let r = Renderer::new();
    assert_eq!(r.width, 1280);
    assert_eq!(r.height, 720);
    assert_eq!(r.buffer.len(), 1280 * 720);
    assert_eq!(r.params.frequency_hz, FX_DEFAULT_FREQUENCY);
    assert!(r.buffer.iter().all(|z| *z == Complex::zero()));
}

#[test]
fn render_one_is_deterministic() {
    // One pass of the render loop is a pure function of scene, parameters
    // and seed: two runs agree bit for bit.
    let scene = Scene::new_example();
    let params = RenderParams { frequency_hz: FX_DEFAULT_FREQUENCY };
    // A grid wide enough that part of it falls inside the example room
    // (the grid origin sits half a meter outside the room corner).
    let (w, h) = (80usize, 70usize);

    let mut rng1 = Rng::new(7);
    let mut buf1 = zeros(w * h);
    render_one(&scene, &params, &mut rng1, &mut buf1, w, h);

    let mut rng2 = Rng::new(7);
    let mut buf2 = zeros(w * h);
    render_one(&scene, &params, &mut rng2, &mut buf2, w, h);

    assert_eq!(buf1, buf2);
    assert_eq!(rng1.next(), rng2.next());
    // A different seed gives a different frame.
    let mut rng3 = Rng::new(8);
    let mut buf3 = zeros(w * h);
    render_one(&scene, &params, &mut rng3, &mut buf3, w, h);
    assert_ne!(buf1, buf3);
}

#[test]
fn run_render_loop_first_pass_matches_render_one() {
    // Starting from a cleared buffer, one pass of the loop accumulates
    // exactly one rendered frame.
    let mut r = Renderer::with_size(80, 70);
    r.run_render_loop(9, 1);

    let scene = Scene::new_example();
    let params = RenderParams { frequency_hz: FX_DEFAULT_FREQUENCY };
    let mut rng = Rng::new(9);
    let mut frame = zeros(80 * 70);
    render_one(&scene, &params, &mut rng, &mut frame, 80, 70);

    assert!(frame.iter().any(|z| *z != Complex::zero()));
    assert_eq!(r.buffer, frame);
}

#[test]
fn run_render_loop_reproducible() {
    let mut a = Renderer::with_size(80, 70);
    let mut b = Renderer::with_size(80, 70);
    a.run_render_loop(11, 2);
    b.run_render_loop(11, 2);
    assert_eq!(a.buffer, b.buffer);
}

#[test]
fn accumulate_move_merges_matching_params() {
    let mut r = Renderer::with_size(4, 2);
    let params = r.params;
    let mut local = Vec::new();
    for i in 0..8i64 {
        local.push(Complex::new(i + 1, -(i + 1)));
    }
    r.accumulate_move(&params, &mut local);
    for i in 0..8usize {
        let k = i as i64 + 1;
        assert_eq!(r.buffer[i], Complex::new(k, -k));
        assert_eq!(local[i], Complex::zero());
    }
    // A second merge adds on top.
    let mut local2 = Vec::new();
    for _ in 0..8 {
        local2.push(Complex::new(10, 20));
    }
    r.accumulate_move(&params, &mut local2);
    assert_eq!(r.buffer[0], Complex::new(11, 19));
}

#[test]
fn accumulate_move_discards_stale_pass_without_touching_either_buffer() {
    // A merge under mismatched parameters leaves the shared buffer
    // unchanged and does not zero the caller's local buffer: the discard
    // happens before any sample moves, so retried work stays recoverable.
    let mut r = Renderer::with_size(4, 2);
    let stale = RenderParams { frequency_hz: r.params.frequency_hz + 1 };
    let mut local = Vec::new();
    for i in 0..8i64 {
        local.push(Complex::new(i + 1, -(i + 1)));
    }
    let before = local.clone();
    r.accumulate_move(&stale, &mut local);
    assert!(r.buffer.iter().all(|z| *z == Complex::zero()));
    assert_eq!(local, before);
}

#[test]
fn set_frequency_clears_accumulated_state() {
    let mut r = Renderer::with_size(4, 2);
    let params = r.params;
    let mut local = vec![Complex::new(5, 5); 8];
    r.accumulate_move(&params, &mut local);
    assert!(r.buffer.iter().any(|z| *z != Complex::zero()));

    r.set_frequency(1000 * FX_ONE);
    assert_eq!(r.params.frequency_hz, 1000 * FX_ONE);
    assert!(r.buffer.iter().all(|z| *z == Complex::zero()));
}

#[test]
fn get_exposure_of_uniform_unit_buffer_is_zero() {
    // With every sample at magnitude one, every reference cell's
    // log-magnitude is zero, so the mean is zero.
    let r = Renderer::new();
    let buffer = vec![Complex::new(FX_ONE, 0); 1280 * 720];
    assert_eq!(r.get_exposure(&buffer, 1280), 0);
}

#[test]
fn paint_shades_unit_magnitude_to_mid_gray() {
    let mut r = Renderer::new();
    for z in r.buffer.iter_mut() {
        *z = Complex::new(FX_ONE, 0);
    }
    let image = r.paint();
    assert_eq!(image.len(), 4 * 1280 * 720);
    // Exposure is zero, so magnitude zero maps to 0.5, which scales to 127.
    assert_eq!(image[0], 127);
    assert_eq!(image[1], 127);
    assert_eq!(image[2], 127);
    assert_eq!(image[3], 255);
}

#[test]
fn paint_clamps_silence_to_black() {
    // A zero sample has log-magnitude at the negative bound, far below any
    // exposure: the affine map clamps it to black, alpha opaque.
    let r = Renderer::with_size(4, 2);
    let image = r.paint();
    assert_eq!(image.len(), 32);
    for px in 0..8 {
        assert_eq!(image[4 * px], 0);
        assert_eq!(image[4 * px + 1], 0);
        assert_eq!(image[4 * px + 2], 0);
        assert_eq!(image[4 * px + 3], 255);
    }
    // The saturated log-magnitude of silence really is the bound.
    assert_eq!(basstrace::fx::fx_log10(Complex::zero().norm()), FX_MIN);
}
