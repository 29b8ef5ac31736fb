//! Tests for the scene model: sources, faces, and the field estimator.

use basstrace::complex::Complex;
use basstrace::fx::FX_ONE;
use basstrace::rand::Rng;
use basstrace::scene::{Face, Scene, Source};
use basstrace::vec3::Vec3;

/// 440 Hz in Q16.16.
const FREQ_440: i64 = 28835840;

fn exact_wall() -> Face {
    // A hand-built face with an exactly axis-aligned unit normal.
    Face {
        origin: Vec3::new(131072, 196608, 0),
        normal: Vec3::new(0, -FX_ONE, 0),
        tangent: Vec3::new(FX_ONE, 0, 0),
        width: 545260,
    }
}

#[test]
fn reflect_involution_exact_for_axis_normal() {
    let f = exact_wall();
    let p = Vec3::new(39322, 19661, 65536);
    assert_eq!(f.reflect(f.reflect(p)), p);
    let q = Vec3::new(-123456, 654321, -777777);
    assert_eq!(f.reflect(f.reflect(q)), q);
}

#[test]
fn reflect_involution_within_tolerance_for_constructed_face() {
    // A face built through two points carries rounding in its normalized
    // normal; the double reflection comes back within a few units.
    let up = Vec3::new(0, 0, FX_ONE);
    let f = Face::new(Vec3::new(0, 0, 0), Vec3::new(545260, 0, 0), up);
    let p = Vec3::new(91750, 196608, 65536);
    let r = f.reflect(f.reflect(p));
    assert!((r.x - p.x).abs() <= 8, "x drifted: {} vs {}", r.x, p.x);
    assert!((r.y - p.y).abs() <= 8, "y drifted: {} vs {}", r.y, p.y);
    assert!((r.z - p.z).abs() <= 8, "z drifted: {} vs {}", r.z, p.z);
}

#[test]
fn reflect_mirrors_across_plane() {
    let f = exact_wall();
    // The plane is y == 3.0; the point y == 0.3 mirrors to y == 5.7.
    let p = Vec3::new(39322, 19661, 65536);
    let r = f.reflect(p);
    assert_eq!(r.x, p.x);
    assert_eq!(r.z, p.z);
    assert_eq!(r.y, 2 * 196608 - 19661);
}

#[test]
fn point_on_plane_is_not_facing() {
    let f = exact_wall();
    assert!(!f.is_facing(f.origin));
    // A constructed face excludes its own origin too.
    let up = Vec3::new(0, 0, FX_ONE);
    let g = Face::new(Vec3::new(0, 0, 0), Vec3::new(545260, 0, 0), up);
    assert!(!g.is_facing(Vec3::new(0, 0, 0)));
}

#[test]
fn point_just_in_front_is_facing() {
    let f = exact_wall();
    // One fixed-point unit along the normal is already strictly inside.
    let eps: i64 = 1;
    let p = f.origin.add(f.normal.scale(eps));
    assert!(f.is_facing(p));
    assert!(!f.is_facing(f.origin.add(f.normal.scale(-eps))));
}

#[test]
fn source_direction_is_normalized() {
    // Aimed 2 m along the x axis: the direction is exactly unit x.
    let s = Source::new(Vec3::new(0, 0, 0), Vec3::new(131072, 0, 0));
    assert_eq!(s.direction, Vec3::new(FX_ONE, 0, 0));
    assert_eq!(s.position, Vec3::new(0, 0, 0));
}

#[test]
fn direct_field_decays_with_distance() {
    // Along the emission axis with no boundary in between, the direct
    // field magnitude falls off monotonically with distance.
    let s = Source::new(Vec3::new(0, 0, 0), Vec3::new(131072, 0, 0));
    let near = s.sample_at(FREQ_440, Vec3::new(32768, 0, 0)).norm(); // 0.5 m
    let mid = s.sample_at(FREQ_440, Vec3::new(98304, 0, 0)).norm(); // 1.5 m
    let far = s.sample_at(FREQ_440, Vec3::new(196608, 0, 0)).norm(); // 3.0 m
    assert!(near > mid, "near {} mid {}", near, mid);
    assert!(mid > far, "mid {} far {}", mid, far);
    assert!(far > 0);
}

#[test]
fn example_scene_shape() {
    let scene = Scene::new_example();
    assert_eq!(scene.sources.len(), 2);
    assert_eq!(scene.faces.len(), 6);
}

#[test]
fn sample_outside_room_is_zero_and_leaves_stream_untouched() {
    let scene = Scene::new_example();
    let mut rng = Rng::new(5);
    // Ten meters outside the room on the negative x side.
    let outside = Vec3::new(-655360, 65536, 65536);
    let z = scene.sample_at(&mut rng, FREQ_440, outside);
    assert_eq!(z, Complex::zero());
    // The short-circuit consumed no draws.
    let mut fresh = Rng::new(5);
    assert_eq!(rng.next(), fresh.next());
}

#[test]
fn sample_at_listener_finite_nonzero_and_reproducible() {
    // The end-to-end room: sampling at the listener with a fixed seed
    // yields a nonzero phasor, and the same seed state gives bit-identical
    // results on every run.
    let scene = Scene::new_example();
    let listener = Vec3::new(91750, 196608, 65536);

    let mut rng1 = Rng::new(1);
    let z1 = scene.sample_at(&mut rng1, FREQ_440, listener);
    let mut rng2 = Rng::new(1);
    let z2 = scene.sample_at(&mut rng2, FREQ_440, listener);
    assert_eq!(z1, z2);
    assert!(z1.re() != 0 || z1.imag() != 0);
    // The streams advanced identically as well.
    assert_eq!(rng1.next(), rng2.next());
}
