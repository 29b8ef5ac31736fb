//! The scene model: directional sources, reflecting planes, and the
//! randomized path-tracing field estimator.
//!
//! The field at a point is, in principle, a sum over every reflection path
//! from every source.  The paths are partitioned by bounce count; since the
//! number of paths of a given order grows geometrically with the face
//! count, the estimator walks one random path per call and reweights each
//! bounce by the size of the sibling set it stands for, so that averaging
//! many independent calls recovers the full sum in expectation.

use vstd::prelude::*;
use crate::complex::{c_add_spec, c_scale_spec, exp_i_spec, Complex};
use crate::fx::{
    fx_add, fx_add_spec, fx_div_spec, fx_mul, fx_mul_spec, fx_of_int, fx_of_int_spec,
    fx_sqrt_spec, fx_sub_spec, FX_ONE, FX_TWO_PI,
};
use crate::rand::{rng_index_spec, Rng};
use crate::vec3::{
    v3_dot_spec, v3_norm_squared_spec, v3_normalized_spec, v3_scale_spec, v3_sub_spec, Vec3,
};

verus! {

/// The speed of sound in m/s in air at 25 degrees Celsius and 1 atm,
/// in Q16.16 (approximately 346.3).
pub const FX_SPEED_OF_SOUND: i64 = 22697574;

/// Energy kept per bounce, with the 180-degree phase flip of rigid-wall
/// reflection, in Q16.16 (approximately -0.95).  An engine constant, not a
/// physical derivation.
pub const FX_REFLECTIVITY: i64 = -62259;

/// The fixed initial path weight, 1/4096 in Q16.16 (exactly 16).  The true
/// field total is recovered in expectation over many accumulated calls.
pub const FX_INITIAL_AMPLITUDE: i64 = 16;

/// The fixed bounce cap; deeper contributions are taken as negligible
/// under the decaying reflectivity envelope.
pub const MAX_BOUNCES: usize = 30;

/// How many draws the face picker spends looking for a face that differs
/// from the previous one before falling back to a deterministic choice.
pub const PICK_RETRIES: usize = 64;

/// A speaker: a directional point emitter at `position`, radiating
/// strongest along `direction`.
#[derive(Clone, Copy, Debug, PartialEq, Eq, Structural)]
pub struct Source {
    pub position: Vec3,
    pub direction: Vec3,
}

/// The source built from a position and a point it is aimed at.
pub open spec fn source_new_spec(position: Vec3, aimed_at: Vec3) -> Source {
    Source { position, direction: v3_normalized_spec(v3_sub_spec(aimed_at, position)) }
}

/// One source's contribution to the field at `position`: a phasor whose
/// phase grows with the distance travelled and whose amplitude falls off
/// with the square of the distance and with the off-axis angle.
pub open spec fn source_sample_spec(s: Source, frequency: i64, position: Vec3) -> Complex {
    let diff = v3_sub_spec(position, s.position);
    let distance_squared = v3_norm_squared_spec(diff);
    let attenuation_distance = fx_div_spec(FX_ONE as int, distance_squared);
    let distance = fx_sqrt_spec(distance_squared);
    let n_waves = fx_div_spec(
        fx_mul_spec(frequency as int, distance),
        FX_SPEED_OF_SOUND as int,
    );
    let d = v3_dot_spec(diff, s.direction);
    let attenuation_phase = fx_div_spec(d, distance);
    c_scale_spec(
        c_scale_spec(
            exp_i_spec(fx_mul_spec(FX_TWO_PI as int, n_waves)),
            attenuation_distance,
        ),
        attenuation_phase,
    )
}

impl Source {
    /// Build a source aimed from `position` at `aimed_at`.  Aiming a
    /// source at its own position leaves it with a zero direction, the
    /// documented degenerate case of normalization.
    pub fn new(position: Vec3, aimed_at: Vec3) -> (r: Source)
        ensures
            r == source_new_spec(position, aimed_at),
    {
        Source { position, direction: aimed_at.sub(position).normalized() }
    }

    /// Sample the field produced by the source at the given position.
    ///
    /// * `frequency` is the source frequency in Hz, Q16.16.
    /// * `position` is measured in meters from the room origin, Q16.16.
    ///
    /// A sample point coinciding with the source position divides by a
    /// zero distance; by the fixed-point convention the quotient is zero,
    /// the analogue of the unguarded infinity of a float implementation.
    pub fn sample_at(&self, frequency: i64, position: Vec3) -> (r: Complex)
        ensures
            r == source_sample_spec(*self, frequency, position),
    {
        // The energy falls off with radius squared.
        let diff = position.sub(self.position);
        let distance_squared = diff.norm_squared();
        let attenuation_distance = crate::fx::fx_div(FX_ONE, distance_squared);

        // The phase is proportional to the distance.
        let distance = crate::fx::fx_sqrt(distance_squared);
        let n_waves = crate::fx::fx_div(fx_mul(frequency, distance), FX_SPEED_OF_SOUND);

        // Behind the speaker the phase is inverted, and no sound is
        // emitted sideways: a gain proportional to the dot product of the
        // direction to the target with the speaker output direction.
        let d = diff.dot(self.direction);
        let attenuation_phase = crate::fx::fx_div(d, distance);

        Complex::exp_i(fx_mul(FX_TWO_PI, n_waves))
            .scale(attenuation_distance)
            .scale(attenuation_phase)
    }
}

/// An unbounded reflecting plane through `origin` with unit `normal`,
/// carrying a tangent and a width for potential bounded-face logic.
#[derive(Clone, Copy, Debug, PartialEq, Eq, Structural)]
pub struct Face {
    pub origin: Vec3,
    pub normal: Vec3,
    pub tangent: Vec3,
    pub width: i64,
}

/// The face built through `p1` and `p2` with its normal and tangent
/// perpendicular to `forward`, the tangent pointing from `p1` to `p2`.
pub open spec fn face_new_spec(p1: Vec3, p2: Vec3, forward: Vec3) -> Face {
    let edge = v3_sub_spec(p2, p1);
    Face {
        origin: p1,
        normal: v3_normalized_spec(crate::vec3::v3_cross_spec(forward, edge)),
        tangent: v3_normalized_spec(edge),
        width: crate::vec3::v3_norm_spec(edge) as i64,
    }
}

/// The mirror image of `p` across the face's plane.
pub open spec fn reflect_spec(f: Face, p: Vec3) -> Vec3 {
    let d = v3_dot_spec(f.normal, v3_sub_spec(p, f.origin));
    v3_sub_spec(p, v3_scale_spec(f.normal, fx_add_spec(d, d)))
}

/// Whether `p` lies strictly on the side the normal points to.  A point on
/// the plane itself is not facing: the boundary is excluded.
pub open spec fn is_facing_spec(f: Face, p: Vec3) -> bool {
    v3_dot_spec(f.normal, v3_sub_spec(p, f.origin)) > 0
}

impl Face {
    /// Construct a face through `p1` and `p2`.
    ///
    /// * The normal and tangent will be perpendicular to `forward`.
    /// * The tangent will point from `p1` to `p2`.
    pub fn new(p1: Vec3, p2: Vec3, forward: Vec3) -> (r: Face)
        ensures
            r == face_new_spec(p1, p2, forward),
    {
        let edge = p2.sub(p1);
        Face {
            origin: p1,
            normal: forward.cross(edge).normalized(),
            tangent: edge.normalized(),
            width: edge.norm(),
        }
    }

    /// Reflect the point `p` in the plane.
    pub fn reflect(&self, p: Vec3) -> (r: Vec3)
        ensures
            r == reflect_spec(*self, p),
    {
        let d = self.normal.dot(p.sub(self.origin));
        p.sub(self.normal.scale(fx_add(d, d)))
    }

    /// Return whether the point is on the front side of the face.
    ///
    /// The front side of the face is the side where the normal points.
    pub fn is_facing(&self, p: Vec3) -> (r: bool)
        ensures
            r == is_facing_spec(*self, p),
    {
        self.normal.dot(p.sub(self.origin)) > 0
    }
}

/// A point on the plane of a face is never strictly facing it: the
/// difference to the origin is the zero vector, whose projection on the
/// normal is zero, and the facing test excludes the boundary.
pub proof fn lemma_on_plane_not_facing(f: Face)
    ensures
        !is_facing_spec(f, f.origin),
{
    let diff = v3_sub_spec(f.origin, f.origin);
    assert(diff.x == 0 && diff.y == 0 && diff.z == 0);
    crate::fx::lemma_fx_mul_zero(f.normal.x as int);
    crate::fx::lemma_fx_mul_zero(f.normal.y as int);
    crate::fx::lemma_fx_mul_zero(f.normal.z as int);
    assert(v3_dot_spec(f.normal, diff) == 0);
}

/// Whether a vector is an exact signed unit axis vector: the normals of
/// axis-aligned faces, for which the fixed-point products are exact.
pub open spec fn is_unit_axis(v: Vec3) -> bool {
    ||| ((v.x == crate::fx::FX_ONE || v.x == -crate::fx::FX_ONE) && v.y == 0 && v.z == 0)
    ||| (v.x == 0 && (v.y == crate::fx::FX_ONE || v.y == -crate::fx::FX_ONE) && v.z == 0)
    ||| (v.x == 0 && v.y == 0 && (v.z == crate::fx::FX_ONE || v.z == -crate::fx::FX_ONE))
}

/// Whether every component of a vector is bounded by `b` in magnitude.
pub open spec fn v3_bounded(v: Vec3, b: int) -> bool {
    -b <= v.x <= b && -b <= v.y <= b && -b <= v.z <= b
}

/// A comfortable bound on room geometry, far below the saturation bound:
/// about seventeen million meters in Q16.16.
pub const FX_GEOM_BOUND: i64 = 0x100_0000_0000;

/// Reflection is an involution: mirroring a point across a face twice
/// gives the point back exactly, for any face whose normal is an exact
/// signed unit axis vector and any geometry comfortably within range.  (A
/// normal that carries rounding from its normalization reflects back only
/// to within that rounding; that inexactness is checked by tests with a
/// tolerance.)
pub proof fn lemma_reflect_involution(f: Face, p: Vec3)
    requires
        is_unit_axis(f.normal),
        v3_bounded(p, FX_GEOM_BOUND as int),
        v3_bounded(f.origin, FX_GEOM_BOUND as int),
    ensures
        reflect_spec(f, reflect_spec(f, p)) == p,
{
    let n = f.normal;
    let o = f.origin;
    let p1 = reflect_spec(f, p);
    if n.y == 0 && n.z == 0 {
        lemma_axis_reflect_parts(n.x as int, p.x as int, o.x as int);
        crate::fx::lemma_fx_mul_zero(fx_sub_spec(p.y as int, o.y as int));
        crate::fx::lemma_fx_mul_zero(fx_sub_spec(p.z as int, o.z as int));
        let d = v3_dot_spec(n, v3_sub_spec(p, o));
        crate::fx::lemma_fx_mul_zero(fx_add_spec(d, d));
        assert(p1.y == p.y && p1.z == p.z && p1.x as int == 2 * (o.x as int) - p.x as int);
        lemma_axis_reflect_parts(n.x as int, p1.x as int, o.x as int);
        crate::fx::lemma_fx_mul_zero(fx_sub_spec(p1.y as int, o.y as int));
        crate::fx::lemma_fx_mul_zero(fx_sub_spec(p1.z as int, o.z as int));
        let d1 = v3_dot_spec(n, v3_sub_spec(p1, o));
        crate::fx::lemma_fx_mul_zero(fx_add_spec(d1, d1));
    } else if n.x == 0 && n.z == 0 {
        lemma_axis_reflect_parts(n.y as int, p.y as int, o.y as int);
        crate::fx::lemma_fx_mul_zero(fx_sub_spec(p.x as int, o.x as int));
        crate::fx::lemma_fx_mul_zero(fx_sub_spec(p.z as int, o.z as int));
        let d = v3_dot_spec(n, v3_sub_spec(p, o));
        crate::fx::lemma_fx_mul_zero(fx_add_spec(d, d));
        assert(p1.x == p.x && p1.z == p.z && p1.y as int == 2 * (o.y as int) - p.y as int);
        lemma_axis_reflect_parts(n.y as int, p1.y as int, o.y as int);
        crate::fx::lemma_fx_mul_zero(fx_sub_spec(p1.x as int, o.x as int));
        crate::fx::lemma_fx_mul_zero(fx_sub_spec(p1.z as int, o.z as int));
        let d1 = v3_dot_spec(n, v3_sub_spec(p1, o));
        crate::fx::lemma_fx_mul_zero(fx_add_spec(d1, d1));
    } else {
        lemma_axis_reflect_parts(n.z as int, p.z as int, o.z as int);
        crate::fx::lemma_fx_mul_zero(fx_sub_spec(p.x as int, o.x as int));
        crate::fx::lemma_fx_mul_zero(fx_sub_spec(p.y as int, o.y as int));
        let d = v3_dot_spec(n, v3_sub_spec(p, o));
        crate::fx::lemma_fx_mul_zero(fx_add_spec(d, d));
        assert(p1.x == p.x && p1.y == p.y && p1.z as int == 2 * (o.z as int) - p.z as int);
        lemma_axis_reflect_parts(n.z as int, p1.z as int, o.z as int);
        crate::fx::lemma_fx_mul_zero(fx_sub_spec(p1.x as int, o.x as int));
        crate::fx::lemma_fx_mul_zero(fx_sub_spec(p1.y as int, o.y as int));
        let d1 = v3_dot_spec(n, v3_sub_spec(p1, o));
        crate::fx::lemma_fx_mul_zero(fx_add_spec(d1, d1));
    }
}

/// The exact fixed-point facts for one reflection along one axis: the
/// signed unit component turns the dot product and the scaling into exact
/// sign changes.
proof fn lemma_axis_reflect_parts(nk: int, pk: int, ok: int)
    requires
        nk == crate::fx::FX_ONE as int || nk == -(crate::fx::FX_ONE as int),
        -(3 * FX_GEOM_BOUND as int) <= pk <= 3 * FX_GEOM_BOUND as int,
        -(FX_GEOM_BOUND as int) <= ok <= FX_GEOM_BOUND as int,
    ensures
        fx_mul_spec(nk, fx_sub_spec(pk, ok)) == (if nk > 0 { pk - ok } else { ok - pk }),
        fx_mul_spec(
            nk,
            fx_add_spec(
                fx_mul_spec(nk, fx_sub_spec(pk, ok)),
                fx_mul_spec(nk, fx_sub_spec(pk, ok)),
            ),
        ) == 2 * (pk - ok),
{
    let dk = fx_sub_spec(pk, ok);
    crate::fx::lemma_fx_mul_unit(nk, dk);
    let d = fx_mul_spec(nk, dk);
    crate::fx::lemma_fx_mul_unit(nk, fx_add_spec(d, d));
}

/// A point strictly in front of a face — the origin moved any positive
/// distance along an exact unit-axis normal — is facing it.
pub proof fn lemma_facing_in_front(f: Face, eps: i64)
    requires
        is_unit_axis(f.normal),
        v3_bounded(f.origin, FX_GEOM_BOUND as int),
        0 < eps <= FX_GEOM_BOUND,
    ensures
        is_facing_spec(f, crate::vec3::v3_add_spec(f.origin, v3_scale_spec(f.normal, eps as int))),
{
    let n = f.normal;
    let o = f.origin;
    crate::fx::lemma_fx_mul_zero(eps as int);
    let p = crate::vec3::v3_add_spec(o, v3_scale_spec(n, eps as int));
    let diff = v3_sub_spec(p, o);
    if n.y == 0 && n.z == 0 {
        crate::fx::lemma_fx_mul_unit(n.x as int, eps as int);
        crate::fx::lemma_fx_mul_unit(n.x as int, diff.x as int);
        crate::fx::lemma_fx_mul_zero(diff.y as int);
        crate::fx::lemma_fx_mul_zero(diff.z as int);
    } else if n.x == 0 && n.z == 0 {
        crate::fx::lemma_fx_mul_unit(n.y as int, eps as int);
        crate::fx::lemma_fx_mul_unit(n.y as int, diff.y as int);
        crate::fx::lemma_fx_mul_zero(diff.x as int);
        crate::fx::lemma_fx_mul_zero(diff.z as int);
    } else {
        crate::fx::lemma_fx_mul_unit(n.z as int, eps as int);
        crate::fx::lemma_fx_mul_unit(n.z as int, diff.z as int);
        crate::fx::lemma_fx_mul_zero(diff.x as int);
        crate::fx::lemma_fx_mul_zero(diff.y as int);
    }
}

/// An immutable description: ordered sources and reflecting faces, fixed
/// for the lifetime of the scene.
pub struct Scene {
    pub sources: Vec<Source>,
    pub faces: Vec<Face>,
}

/// Whether `p` strictly faces every face: the inside of the modeled room.
pub open spec fn all_facing(faces: Seq<Face>, p: Vec3) -> bool {
    forall|i: int| 0 <= i < faces.len() ==> is_facing_spec(faces[i], p)
}

/// One random pick of a face index that must differ from `prev`:
/// rejection-resample up to `fuel` times, then fall back to the next index
/// in order.  The fallback keeps the picker total and deterministic; with
/// at least two faces it is reached with only vanishing probability.
pub open spec fn pick_spec(s: Seq<u64>, len: nat, prev: nat, fuel: nat) -> (Seq<u64>, nat)
    decreases fuel,
{
    if fuel == 0 {
        (s, (prev + 1) % len)
    } else {
        let (s2, idx) = rng_index_spec(s, len);
        if idx != prev {
            (s2, idx)
        } else {
            pick_spec(s2, len, prev, (fuel - 1) as nat)
        }
    }
}

/// One bounce of the path walk: add the source's contribution at the
/// current (mirrored) position with the current weight, pick the next face
/// (never the previous one), mirror the position across it, and reweight
/// by `reflectivity * (face count - 1)` — the size of the sibling path set
/// the single sampled path stands for.
pub open spec fn bounce_step_spec(
    faces: Seq<Face>,
    source: Source,
    frequency: i64,
    st: (Complex, Vec3, i64, nat, Seq<u64>),
) -> (Complex, Vec3, i64, nat, Seq<u64>) {
    let factor = fx_mul_spec(
        FX_REFLECTIVITY as int,
        fx_of_int_spec(faces.len() as int - 1),
    );
    let m = source_sample_spec(source, frequency, st.1);
    let z2 = c_add_spec(st.0, c_scale_spec(m, st.2 as int));
    let picked = pick_spec(st.4, faces.len(), st.3, PICK_RETRIES as nat);
    let p2 = reflect_spec(faces[picked.1 as int], st.1);
    let amp2 = fx_mul_spec(st.2 as int, factor) as i64;
    (z2, p2, amp2, picked.1, picked.0)
}

/// The path walk iterated for `n` bounces.
pub open spec fn bounce_loop_spec(
    faces: Seq<Face>,
    source: Source,
    frequency: i64,
    st: (Complex, Vec3, i64, nat, Seq<u64>),
    n: nat,
) -> (Complex, Vec3, i64, nat, Seq<u64>)
    decreases n,
{
    if n == 0 {
        st
    } else {
        bounce_loop_spec(
            faces,
            source,
            frequency,
            bounce_step_spec(faces, source, frequency, st),
            (n - 1) as nat,
        )
    }
}

/// The whole estimator: zero outside the room, otherwise one random
/// truncated path from one random source, walked for the fixed bounce cap.
pub open spec fn scene_sample_spec(
    sources: Seq<Source>,
    faces: Seq<Face>,
    frequency: i64,
    position: Vec3,
    rs: Seq<u64>,
) -> (Complex, Seq<u64>) {
    if !all_facing(faces, position) {
        ((Complex { re: 0, im: 0 }), rs)
    } else {
        let drawn_source = rng_index_spec(rs, sources.len());
        let source = sources[drawn_source.1 as int];
        let drawn_face = rng_index_spec(drawn_source.0, faces.len());
        let st0 = (
            (Complex { re: 0, im: 0 }),
            position,
            FX_INITIAL_AMPLITUDE,
            drawn_face.1,
            drawn_face.0,
        );
        let stf = bounce_loop_spec(faces, source, frequency, st0, MAX_BOUNCES as nat);
        (stf.0, stf.4)
    }
}

/// Pick a face index differing from `prev`, advancing the stream.
fn pick_different(rng: &mut Rng, faces: &Vec<Face>, prev: usize) -> (r: usize)
    requires
        2 <= faces@.len() < 0x8000_0000,
        prev < faces@.len(),
    ensures
        (final(rng)@, r as nat) == pick_spec(
            old(rng)@,
            faces@.len(),
            prev as nat,
            PICK_RETRIES as nat,
        ),
        r < faces@.len(),
        r != prev,
{
    let len = faces.len();
    let mut fuel: usize = PICK_RETRIES;
    while fuel > 0
        invariant
            2 <= faces@.len() < 0x8000_0000,
            len == faces@.len(),
            prev < len,
            fuel <= PICK_RETRIES,
            pick_spec(old(rng)@, faces@.len(), prev as nat, PICK_RETRIES as nat)
                == pick_spec(rng@, faces@.len(), prev as nat, fuel as nat),
        decreases fuel,
    {
        let idx = rng.index(faces);
        if idx != prev {
            return idx;
        }
        fuel = fuel - 1;
    }
    let r = (prev + 1) % len;
    proof {
        if prev + 1 < len {
            vstd::arithmetic::div_mod::lemma_small_mod((prev + 1) as nat, len as nat);
        } else {
            vstd::arithmetic::div_mod::lemma_mod_self_0(len as int);
        }
    }
    r
}

/// The sources of the example room: two speakers aimed at a common
/// listener point.
pub open spec fn example_sources_spec() -> Seq<Source> {
    let s1 = Vec3 { x: 39322, y: 19661, z: 65536 };
    let s2 = Vec3 { x: 144179, y: 19661, z: 65536 };
    let listener = Vec3 { x: 91750, y: 196608, z: 65536 };
    seq![source_new_spec(s1, listener), source_new_spec(s2, listener)]
}

/// The faces of the example room: four walls, floor and ceiling of a
/// rectangular room about 8.32 m by 3.35 m by 2.8 m.
pub open spec fn example_faces_spec() -> Seq<Face> {
    let up = Vec3 { x: 0, y: 0, z: 65536 };
    let side = Vec3 { x: 0, y: 65536, z: 0 };
    let side_neg = Vec3 { x: 0, y: -65536i64, z: 0 };
    let p0 = Vec3 { x: 0, y: 0, z: 0 };
    let p1 = Vec3 { x: 545260, y: 0, z: 0 };
    let p2 = Vec3 { x: 545260, y: 219546, z: 0 };
    let p3 = Vec3 { x: 0, y: 219546, z: 0 };
    let ceil_off = Vec3 { x: 0, y: 0, z: 183501 };
    seq![
        face_new_spec(p0, p1, up),
        face_new_spec(p1, p2, up),
        face_new_spec(p2, p3, up),
        face_new_spec(p3, p0, up),
        face_new_spec(p0, p1, side_neg),
        face_new_spec(
            crate::vec3::v3_add_spec(p0, ceil_off),
            crate::vec3::v3_add_spec(p1, ceil_off),
            side,
        ),
    ]
}

impl Scene {
    /// Return an example scene with hard-coded data: a rectangular room
    /// with two sources aimed at a listener point.
    pub fn new_example() -> (r: Scene)
        ensures
            r.wf(),
            r.sources@ == example_sources_spec(),
            r.faces@ == example_faces_spec(),
    {
        let up = Vec3::new(0, 0, 65536);
        let side = Vec3::new(0, 65536, 0);
        let side_neg = Vec3::new(0, -65536, 0);

        let p0 = Vec3::new(0, 0, 0);
        let p1 = Vec3::new(545260, 0, 0);
        let p2 = Vec3::new(545260, 219546, 0);
        let p3 = Vec3::new(0, 219546, 0);

        let s1 = Vec3::new(39322, 19661, 65536);
        let s2 = Vec3::new(144179, 19661, 65536);
        let listener = Vec3::new(91750, 196608, 65536);

        let ceil_off = Vec3::new(0, 0, 183501);

        let mut sources: Vec<Source> = Vec::new();
        sources.push(Source::new(s1, listener));
        sources.push(Source::new(s2, listener));

        let mut faces: Vec<Face> = Vec::new();
        // Walls.
        faces.push(Face::new(p0, p1, up));
        faces.push(Face::new(p1, p2, up));
        faces.push(Face::new(p2, p3, up));
        faces.push(Face::new(p3, p0, up));
        // Floor and ceiling.
        faces.push(Face::new(p0, p1, side_neg));
        faces.push(Face::new(p0.add(ceil_off), p1.add(ceil_off), side));

        proof {
            assert(sources@ =~= example_sources_spec());
            assert(faces@ =~= example_faces_spec());
        }

        Scene { sources, faces }
    }

    /// Whether the scene is usable by the estimator: at least one source,
    /// and at least two faces so that a next bounce differing from the
    /// previous one always exists.  The counts are kept well below the
    /// index range.
    pub open spec fn wf(&self) -> bool {
        0 < self.sources@.len() < 0x0100_0000 && 2 <= self.faces@.len() < 0x0100_0000
    }

    /// Estimate the field at `position` for one frequency, walking one
    /// random truncated reflection path.  Outside the room (a position not
    /// strictly facing every face) the field is zero and the stream is
    /// left untouched.
    pub fn sample_at(&self, rng: &mut Rng, frequency: i64, position: Vec3) -> (r: Complex)
        requires
            self.wf(),
        ensures
            (r, final(rng)@) == scene_sample_spec(
                self.sources@,
                self.faces@,
                frequency,
                position,
                old(rng)@,
            ),
            !all_facing(self.faces@, position) ==> r == (Complex { re: 0, im: 0 })
                && final(rng)@ == old(rng)@,
    {
        // The estimator is defined only inside the modeled room.
        let mut k: usize = 0;
        while k < self.faces.len()
            invariant
                k <= self.faces@.len(),
                forall|j: int| 0 <= j < k ==> is_facing_spec(self.faces@[j], position),
            decreases self.faces@.len() - k,
        {
            if !self.faces[k].is_facing(position) {
                return Complex::zero();
            }
            k = k + 1;
        }
        assert(all_facing(self.faces@, position));

        // The set of paths with n+1 bounces that share a prefix of n
        // bounces is faces-1 times as large as the set with n bounces
        // (the next face must differ from the previous one), so each
        // deeper bounce's weight grows by that factor to keep the single
        // sampled path an unbiased estimate of its sibling set.
        let factor = fx_mul(FX_REFLECTIVITY, fx_of_int((self.faces.len() - 1) as i64));

        let si = rng.index(&self.sources);
        let source = self.sources[si];

        let mut z = Complex::zero();
        let mut p = position;
        let mut amplitude: i64 = FX_INITIAL_AMPLITUDE;
        let mut fi = rng.index(&self.faces);

        let ghost st0 = (z, p, amplitude, fi as nat, rng@);
        proof {
            let drawn_source = rng_index_spec(old(rng)@, self.sources@.len());
            let drawn_face = rng_index_spec(drawn_source.0, self.faces@.len());
            assert(st0 == (
                (Complex { re: 0, im: 0 }),
                position,
                FX_INITIAL_AMPLITUDE,
                drawn_face.1,
                drawn_face.0,
            ));
        }

        let mut bounce: usize = 0;
        while bounce < MAX_BOUNCES
            invariant
                self.wf(),
                bounce <= MAX_BOUNCES,
                fi < self.faces@.len(),
                factor as int == fx_mul_spec(
                    FX_REFLECTIVITY as int,
                    fx_of_int_spec(self.faces@.len() as int - 1),
                ),
                source == self.sources@[rng_index_spec(old(rng)@, self.sources@.len()).1 as int],
                bounce_loop_spec(self.faces@, source, frequency, st0, MAX_BOUNCES as nat)
                    == bounce_loop_spec(
                    self.faces@,
                    source,
                    frequency,
                    (z, p, amplitude, fi as nat, rng@),
                    (MAX_BOUNCES - bounce) as nat,
                ),
            decreases MAX_BOUNCES - bounce,
        {
            let ghost pre = (z, p, amplitude, fi as nat, rng@);

            // Directly, from the (mirrored) source to the listener.
            let m = source.sample_at(frequency, p);
            z = z.add(m.scale(amplitude));

            // Pick a face to reflect from, never the face reflected from
            // last time.
            fi = pick_different(rng, &self.faces, fi);

            p = self.faces[fi].reflect(p);
            amplitude = fx_mul(amplitude, factor);
            bounce = bounce + 1;

            proof {
                assert(bounce_step_spec(self.faces@, source, frequency, pre)
                    == (z, p, amplitude, fi as nat, rng@));
            }
        }

        proof {
            assert(bounce_loop_spec(
                self.faces@,
                source,
                frequency,
                (z, p, amplitude, fi as nat, rng@),
                0,
            ) == (z, p, amplitude, fi as nat, rng@));
        }

        z
    }
}

} // verus!
