//! The rendering engine: render parameters, the accumulation buffer, and
//! the worker pass.
//!
//! A worker pass renders a full-frame estimate into a private scratch
//! buffer and then moves it into the shared accumulation buffer, but only
//! if the parameters it rendered for still match the current ones: a stale
//! pass is discarded whole, since the accumulated sum is only meaningful
//! for one consistent parameter set.  The engine here is the sequential
//! core; a shell may run one `run_render_loop` per worker thread under a
//! lock of its own, each worker with a distinct seed.

use vstd::prelude::*;
use vstd::pervasive::VecAdditionalExecFns;
use crate::complex::{c_add_spec, c_norm_spec, Complex};
use crate::fx::{
    fx_add, fx_add_spec, fx_div, fx_div_spec, fx_log10, fx_log10_spec, fx_mul, fx_mul_spec,
    fx_of_int, fx_of_int_spec, fx_sub, fx_sub_spec, fx_to_int, fx_to_int_spec, FX_ONE,
};
use crate::rand::{rng_seed_spec, Rng};
use crate::scene::{scene_sample_spec, Face, Scene, Source};
use crate::vec3::{v3_add_spec, Vec3};

verus! {

/// The distance between neighboring sample points, 0.008 m in Q16.16.
pub const FX_PIXEL_PITCH: i64 = 524;

/// The offset of the sample grid: pixel (0, 0) sits half a meter outside
/// the room origin on both axes.
pub const FX_HALF_METER: i64 = 32768;

/// The height of the rendered slice above the floor, 1 m in Q16.16.
pub const FX_SLICE_HEIGHT: i64 = 65536;

/// The starting carrier frequency, 440 Hz in Q16.16.
pub const FX_DEFAULT_FREQUENCY: i64 = 28835840;

/// The display bias: a sample at the exposure reference maps to
/// mid-gray (0.5 in Q16.16).
pub const FX_SHADE_BIAS: i64 = 32768;

/// The display gain per decade of magnitude (0.2 in Q16.16).
pub const FX_SHADE_GAIN: i64 = 13107;

/// Mutable render parameters: currently just the carrier frequency in Hz,
/// Q16.16.  Copied by value and compared for equality to detect staleness.
#[derive(Clone, Copy, Debug, PartialEq, Eq, Structural)]
pub struct RenderParams {
    pub frequency_hz: i64,
}

/// The position sampled for the pixel at column `x`, row `y`: a point on a
/// fixed grid on the horizontal slice.
pub open spec fn pixel_position_spec(x: int, y: int) -> Vec3 {
    Vec3 {
        x: fx_sub_spec(
            fx_mul_spec(fx_of_int_spec(x), FX_PIXEL_PITCH as int),
            FX_HALF_METER as int,
        ) as i64,
        y: fx_sub_spec(
            fx_mul_spec(fx_of_int_spec(y), FX_PIXEL_PITCH as int),
            FX_HALF_METER as int,
        ) as i64,
        z: FX_SLICE_HEIGHT,
    }
}

/// The first `n` pixels of one full-frame pass, row-major: each pixel is
/// one estimator call, threading the random stream from pixel to pixel.
pub open spec fn render_pixels_spec(
    sources: Seq<Source>,
    faces: Seq<Face>,
    frequency: i64,
    buffer: Seq<Complex>,
    width: nat,
    rs: Seq<u64>,
    n: nat,
) -> (Seq<Complex>, Seq<u64>)
    decreases n,
{
    if n == 0 {
        (buffer, rs)
    } else {
        let prev = render_pixels_spec(sources, faces, frequency, buffer, width, rs, (n - 1) as nat);
        let i = (n - 1) as int;
        let pos = pixel_position_spec(i % width as int, i / width as int);
        let sampled = scene_sample_spec(sources, faces, frequency, pos, prev.1);
        (prev.0.update(i, sampled.0), sampled.1)
    }
}

/// The shared buffer after a merge: the elementwise sum.
pub open spec fn add_buffers_spec(a: Seq<Complex>, b: Seq<Complex>) -> Seq<Complex> {
    Seq::new(a.len(), |i: int| c_add_spec(a[i], b[i]))
}

/// A buffer of zero samples.
pub open spec fn zero_buffer_spec(len: nat) -> Seq<Complex> {
    Seq::new(len, |i: int| (Complex { re: 0, im: 0 }))
}

/// For every pixel, map the pixel coordinates to a sample position on the
/// fixed grid and estimate the field there with the worker's private
/// stream, overwriting the worker's scratch buffer.
pub fn render_one(
    scene: &Scene,
    params: &RenderParams,
    rng: &mut Rng,
    buffer: &mut Vec<Complex>,
    width: usize,
    height: usize,
)
    requires
        scene.wf(),
        old(buffer)@.len() == width * height,
        width < 0x8000_0000,
        height < 0x8000_0000,
    ensures
        final(buffer)@.len() == old(buffer)@.len(),
        (final(buffer)@, final(rng)@) == render_pixels_spec(
            scene.sources@,
            scene.faces@,
            params.frequency_hz,
            old(buffer)@,
            width as nat,
            old(rng)@,
            (width * height) as nat,
        ),
{
    let area = buffer.len();
    let mut i: usize = 0;
    while i < area
        invariant
            scene.wf(),
            area == width * height,
            width < 0x8000_0000,
            height < 0x8000_0000,
            buffer@.len() == area,
            i <= area,
            (buffer@, rng@) == render_pixels_spec(
                scene.sources@,
                scene.faces@,
                params.frequency_hz,
                old(buffer)@,
                width as nat,
                old(rng)@,
                i as nat,
            ),
        decreases area - i,
    {
        proof {
            if width == 0 {
                assert(area == 0) by (nonlinear_arith)
                    requires
                        area == width * height,
                        width == 0,
                ;
            }
            vstd::arithmetic::div_mod::lemma_multiply_divide_lt(
                i as int,
                width as int,
                height as int,
            );
        }
        let x = i % width;
        let y = i / width;
        let xm = fx_mul(fx_of_int(x as i64), FX_PIXEL_PITCH);
        let ym = fx_mul(fx_of_int(y as i64), FX_PIXEL_PITCH);
        let position = Vec3::new(
            fx_sub(xm, FX_HALF_METER),
            fx_sub(ym, FX_HALF_METER),
            FX_SLICE_HEIGHT,
        );
        let z = scene.sample_at(rng, params.frequency_hz, position);
        buffer.set(i, z);
        i = i + 1;
        proof {
            assert(position == pixel_position_spec(
                (i - 1) % width as int,
                (i - 1) / width as int,
            ));
            assert((buffer@, rng@) == render_pixels_spec(
                scene.sources@,
                scene.faces@,
                params.frequency_hz,
                old(buffer)@,
                width as nat,
                old(rng)@,
                i as nat,
            ));
        }
    }
}

/// One worker loop of `passes` full-frame estimates merged into the shared
/// buffer.  With the core run sequentially the parameters cannot change
/// between a pass and its merge, so every pass is accumulated.
pub open spec fn run_loop_spec(
    sources: Seq<Source>,
    faces: Seq<Face>,
    frequency: i64,
    width: nat,
    height: nat,
    shared: Seq<Complex>,
    local: Seq<Complex>,
    rs: Seq<u64>,
    passes: nat,
) -> (Seq<Complex>, Seq<Complex>, Seq<u64>)
    decreases passes,
{
    if passes == 0 {
        (shared, local, rs)
    } else {
        let rendered = render_pixels_spec(sources, faces, frequency, local, width, rs, width * height);
        let merged = add_buffers_spec(shared, rendered.0);
        run_loop_spec(
            sources,
            faces,
            frequency,
            width,
            height,
            merged,
            zero_buffer_spec(local.len()),
            rendered.1,
            (passes - 1) as nat,
        )
    }
}

/// The log-magnitude of the sample in the cell at column `x`, row `y`, or
/// nothing when the cell lies outside the grid.
pub open spec fn cell_log_spec(buffer: Seq<Complex>, width: nat, x: int, y: int) -> Option<i64> {
    if 0 <= x && x < width && 0 <= y && y * (width as int) + x < buffer.len() {
        Some(fx_log10_spec(c_norm_spec(buffer[y * (width as int) + x])) as i64)
    } else {
        None
    }
}

/// Fold one cell into a running (sum of log-magnitudes, cell count) pair;
/// cells outside the grid are skipped.
pub open spec fn acc_cell_spec(acc: (i64, i64), c: Option<i64>) -> (i64, i64) {
    match c {
        Some(v) => (fx_add_spec(acc.0 as int, v as int) as i64, (acc.1 + 1) as i64),
        None => acc,
    }
}

/// Fold the three-by-three neighborhood of a source's reference cell — the
/// grid cell one meter in front of the speaker, whose magnitude defines
/// 0 dB — into the running pair, columns outer, rows inner.
pub open spec fn source_cells_spec(
    buffer: Seq<Complex>,
    width: nat,
    s: Source,
    acc: (i64, i64),
) -> (i64, i64) {
    let p = v3_add_spec(s.position, s.direction);
    let xi = fx_to_int_spec(fx_div_spec(
        fx_add_spec(p.x as int, FX_HALF_METER as int),
        FX_PIXEL_PITCH as int,
    ));
    let yi = fx_to_int_spec(fx_div_spec(
        fx_add_spec(p.y as int, FX_HALF_METER as int),
        FX_PIXEL_PITCH as int,
    ));
    let a1 = acc_cell_spec(acc, cell_log_spec(buffer, width, xi - 1, yi - 1));
    let a2 = acc_cell_spec(a1, cell_log_spec(buffer, width, xi - 1, yi));
    let a3 = acc_cell_spec(a2, cell_log_spec(buffer, width, xi - 1, yi + 1));
    let a4 = acc_cell_spec(a3, cell_log_spec(buffer, width, xi, yi - 1));
    let a5 = acc_cell_spec(a4, cell_log_spec(buffer, width, xi, yi));
    let a6 = acc_cell_spec(a5, cell_log_spec(buffer, width, xi, yi + 1));
    let a7 = acc_cell_spec(a6, cell_log_spec(buffer, width, xi + 1, yi - 1));
    let a8 = acc_cell_spec(a7, cell_log_spec(buffer, width, xi + 1, yi));
    acc_cell_spec(a8, cell_log_spec(buffer, width, xi + 1, yi + 1))
}

/// The fold over the first `n` sources.
pub open spec fn exposure_fold_spec(
    buffer: Seq<Complex>,
    width: nat,
    sources: Seq<Source>,
    n: nat,
) -> (i64, i64)
    decreases n,
{
    if n == 0 {
        (0i64, 0i64)
    } else {
        source_cells_spec(
            buffer,
            width,
            sources[n - 1],
            exposure_fold_spec(buffer, width, sources, (n - 1) as nat),
        )
    }
}

/// The exposure: the mean log-magnitude over every source's reference
/// neighborhood.  With every reference cell off the grid the count is zero
/// and the quotient is zero by the fixed-point convention.
pub open spec fn exposure_spec(buffer: Seq<Complex>, width: nat, sources: Seq<Source>) -> i64 {
    let acc = exposure_fold_spec(buffer, width, sources, sources.len());
    fx_div_spec(acc.0 as int, fx_of_int_spec(acc.1 as int)) as i64
}

/// The log-magnitude of one grid cell, or nothing off the grid.
fn cell_log(buffer: &Vec<Complex>, width: usize, x: i64, y: i64) -> (r: Option<i64>)
    requires
        width < 0x8000_0000,
    ensures
        r == cell_log_spec(buffer@, width as nat, x as int, y as int),
{
    if x < 0 || y < 0 || x >= width as i64 {
        return None;
    }
    proof {
        assert((y as int) * (width as int) <= 0x4000_0000_0000_0000_0000_0000) by (nonlinear_arith)
            requires
                0 <= y as int <= i64::MAX as int,
                0 <= width as int <= 0x8000_0000,
        ;
    }
    let idx128: i128 = (y as i128) * (width as i128) + (x as i128);
    if idx128 >= buffer.len() as i128 {
        return None;
    }
    let idx = idx128 as usize;
    Some(fx_log10(buffer[idx].norm()))
}

/// Fold one cell into the running (sum, count) pair.
fn acc_cell(acc: (i64, i64), c: Option<i64>) -> (r: (i64, i64))
    requires
        acc.1 < 0x7fff_ffff,
    ensures
        r == acc_cell_spec(acc, c),
        r.1 <= acc.1 + 1,
        acc.1 <= r.1,
{
    match c {
        Some(v) => (fx_add(acc.0, v), acc.1 + 1),
        None => acc,
    }
}

/// The gray level for one sample at a given exposure: the log-magnitude
/// relative to the exposure, through a fixed affine clamp to `[0, 1]`,
/// scaled to eight bits.
pub open spec fn shade_spec(sample: Complex, exposure: i64) -> u8 {
    let magnitude = fx_sub_spec(fx_log10_spec(c_norm_spec(sample)), exposure as int);
    let v = fx_add_spec(FX_SHADE_BIAS as int, fx_mul_spec(magnitude, FX_SHADE_GAIN as int));
    let c = if v < 0 {
        0int
    } else if v > FX_ONE as int {
        FX_ONE as int
    } else {
        v
    };
    ((c * 255) / (FX_ONE as int)) as u8
}

/// The byte at offset `j` of the painted image: gray replicated across the
/// three color channels, alpha opaque.
pub open spec fn paint_byte_spec(buffer: Seq<Complex>, exposure: i64, j: int) -> u8 {
    if j % 4 == 3 {
        255u8
    } else {
        shade_spec(buffer[j / 4], exposure)
    }
}

/// The painted image: four bytes per sample, row-major.
pub open spec fn paint_spec(buffer: Seq<Complex>, width: nat, sources: Seq<Source>) -> Seq<u8> {
    Seq::new(
        4 * buffer.len(),
        |j: int| paint_byte_spec(buffer, exposure_spec(buffer, width, sources), j),
    )
}

/// The gray level for one sample at a given exposure.
fn shade(sample: Complex, exposure: i64) -> (r: u8)
    ensures
        r == shade_spec(sample, exposure),
{
    let magnitude = fx_sub(fx_log10(sample.norm()), exposure);
    let v = fx_add(FX_SHADE_BIAS, fx_mul(magnitude, FX_SHADE_GAIN));
    let c: i64 = if v < 0 {
        0
    } else if v > FX_ONE {
        FX_ONE
    } else {
        v
    };
    let q: u64 = (c as u64) * 255 / (FX_ONE as u64);
    proof {
        vstd::arithmetic::div_mod::lemma_div_is_ordered((c as int) * 255, 65536int * 255, 65536int);
        assert((65536int * 255) / 65536 == 255) by {
            vstd::arithmetic::div_mod::lemma_div_multiples_vanish(255, 65536);
        }
    }
    q as u8
}

/// The renderer: one scene, the current parameters, and the accumulation
/// buffer, a dense row-major grid of complex samples.
pub struct Renderer {
    pub scene: Scene,
    pub width: usize,
    pub height: usize,
    pub params: RenderParams,
    pub buffer: Vec<Complex>,
}

impl Renderer {
    /// The buffer always covers the full sample grid of a usable scene.
    pub open spec fn wf(&self) -> bool {
        &&& self.scene.wf()
        &&& self.buffer@.len() == self.width * self.height
        &&& 0 < self.width < 0x8000_0000
        &&& 0 < self.height < 0x8000_0000
    }

    /// Build a renderer over the example scene with a zero-filled buffer
    /// of the given resolution and the default carrier frequency.
    pub fn with_size(width: usize, height: usize) -> (r: Renderer)
        requires
            0 < width < 0x8000_0000,
            0 < height < 0x8000_0000,
            width * height <= usize::MAX,
        ensures
            r.wf(),
            r.width == width,
            r.height == height,
            r.scene.sources@ == crate::scene::example_sources_spec(),
            r.scene.faces@ == crate::scene::example_faces_spec(),
            r.params.frequency_hz == FX_DEFAULT_FREQUENCY,
            r.buffer@ == zero_buffer_spec((width * height) as nat),
    {
        let area = width * height;
        let mut buffer: Vec<Complex> = Vec::new();
        while buffer.len() < area
            invariant
                buffer@.len() <= area,
                forall|j: int| 0 <= j < buffer@.len() ==> buffer@[j] == (Complex { re: 0, im: 0 }),
            decreases area - buffer@.len(),
        {
            buffer.push(Complex::zero());
        }
        proof {
            assert(buffer@ =~= zero_buffer_spec((width * height) as nat));
        }
        Renderer {
            scene: Scene::new_example(),
            width,
            height,
            params: RenderParams { frequency_hz: FX_DEFAULT_FREQUENCY },
            buffer,
        }
    }

    /// Build the renderer at the fixed output resolution.
    pub fn new() -> (r: Renderer)
        ensures
            r.wf(),
            r.width == 1280,
            r.height == 720,
            r.scene.sources@ == crate::scene::example_sources_spec(),
            r.scene.faces@ == crate::scene::example_faces_spec(),
            r.params.frequency_hz == FX_DEFAULT_FREQUENCY,
            r.buffer@ == zero_buffer_spec(1280 * 720),
    {
        Renderer::with_size(1280, 720)
    }

    /// The pixel count of the buffer.
    fn area(&self) -> (r: usize)
        requires
            self.wf(),
        ensures
            r == self.width * self.height,
    {
        self.buffer.len()
    }

    /// Reset every accumulated sample to zero.
    pub fn clear(&mut self)
        ensures
            final(self).buffer@ == zero_buffer_spec(old(self).buffer@.len()),
            final(self).scene == old(self).scene,
            final(self).width == old(self).width,
            final(self).height == old(self).height,
            final(self).params == old(self).params,
    {
        let mut i: usize = 0;
        let len = self.buffer.len();
        while i < len
            invariant
                self.buffer@.len() == old(self).buffer@.len(),
                len == old(self).buffer@.len(),
                i <= len,
                self.scene == old(self).scene,
                self.width == old(self).width,
                self.height == old(self).height,
                self.params == old(self).params,
                forall|j: int| 0 <= j < i ==> self.buffer@[j] == (Complex { re: 0, im: 0 }),
            decreases len - i,
        {
            self.buffer.set(i, Complex::zero());
            i = i + 1;
        }
        proof {
            assert(self.buffer@ =~= zero_buffer_spec(old(self).buffer@.len()));
        }
    }

    /// Change the carrier frequency and clear the accumulated state: a
    /// parameter change invalidates every previously accumulated sample.
    pub fn set_frequency(&mut self, f_hz: i64)
        ensures
            final(self).params.frequency_hz == f_hz,
            final(self).buffer@ == zero_buffer_spec(old(self).buffer@.len()),
            final(self).scene == old(self).scene,
            final(self).width == old(self).width,
            final(self).height == old(self).height,
    {
        self.params = RenderParams { frequency_hz: f_hz };
        self.clear();
    }

    /// Add `buffer` to the internal buffer and zero `buffer` itself — but
    /// only if `params` still equals the current parameters, so that no
    /// stale render is merged.  On a mismatch both buffers are left
    /// exactly as they were: the discard happens before any sample moves,
    /// so the caller's data survives the staleness check.
    pub fn accumulate_move(&mut self, params: &RenderParams, buffer: &mut Vec<Complex>)
        requires
            old(buffer)@.len() == old(self).buffer@.len(),
        ensures
            final(self).scene == old(self).scene,
            final(self).width == old(self).width,
            final(self).height == old(self).height,
            final(self).params == old(self).params,
            old(self).params == *params ==> final(self).buffer@ == add_buffers_spec(
                old(self).buffer@,
                old(buffer)@,
            ) && final(buffer)@ == zero_buffer_spec(old(buffer)@.len()),
            old(self).params != *params ==> final(self).buffer@ == old(self).buffer@
                && final(buffer)@ == old(buffer)@,
    {
        // Only accumulate if the values to add were computed for the same
        // parameters.
        if !(self.params == *params) {
            return;
        }

        let len = self.buffer.len();
        let mut i: usize = 0;
        while i < len
            invariant
                self.buffer@.len() == old(self).buffer@.len(),
                buffer@.len() == old(buffer)@.len(),
                old(buffer)@.len() == old(self).buffer@.len(),
                len == old(self).buffer@.len(),
                i <= len,
                self.scene == old(self).scene,
                self.width == old(self).width,
                self.height == old(self).height,
                self.params == old(self).params,
                forall|j: int| 0 <= j < i ==> self.buffer@[j] == c_add_spec(
                    old(self).buffer@[j],
                    old(buffer)@[j],
                ),
                forall|j: int| 0 <= j < i ==> buffer@[j] == (Complex { re: 0, im: 0 }),
                forall|j: int| i <= j < len ==> self.buffer@[j] == old(self).buffer@[j],
                forall|j: int| i <= j < len ==> buffer@[j] == old(buffer)@[j],
            decreases len - i,
        {
            let sum = self.buffer[i].add(buffer[i]);
            self.buffer.set(i, sum);
            buffer.set(i, Complex::zero());
            i = i + 1;
        }
        proof {
            assert(self.buffer@ =~= add_buffers_spec(old(self).buffer@, old(buffer)@));
            assert(buffer@ =~= zero_buffer_spec(old(buffer)@.len()));
        }
    }

    /// Run `passes` worker passes with a private stream seeded from
    /// `seed`, each pass rendering a full-frame estimate into a private
    /// scratch buffer and merging it into the shared buffer.  Run
    /// sequentially, no pass can be stale, so every pass is merged.
    #[verifier::rlimit(30)]
    pub fn run_render_loop(&mut self, seed: u64, passes: usize)
        requires
            old(self).wf(),
        ensures
            final(self).wf(),
            final(self).scene == old(self).scene,
            final(self).width == old(self).width,
            final(self).height == old(self).height,
            final(self).params == old(self).params,
            final(self).buffer@ == run_loop_spec(
                old(self).scene.sources@,
                old(self).scene.faces@,
                old(self).params.frequency_hz,
                old(self).width as nat,
                old(self).height as nat,
                old(self).buffer@,
                zero_buffer_spec((old(self).width * old(self).height) as nat),
                rng_seed_spec(seed),
                passes as nat,
            ).0,
    {
        let area = self.area();
        let mut buffer: Vec<Complex> = Vec::new();
        while buffer.len() < area
            invariant
                buffer@.len() <= area,
                forall|j: int| 0 <= j < buffer@.len() ==> buffer@[j] == (Complex { re: 0, im: 0 }),
            decreases area - buffer@.len(),
        {
            buffer.push(Complex::zero());
        }
        proof {
            assert(buffer@ =~= zero_buffer_spec((old(self).width * old(self).height) as nat));
        }

        let mut rng = Rng::new(seed);

        let ghost target = run_loop_spec(
            old(self).scene.sources@,
            old(self).scene.faces@,
            old(self).params.frequency_hz,
            old(self).width as nat,
            old(self).height as nat,
            old(self).buffer@,
            zero_buffer_spec((old(self).width * old(self).height) as nat),
            rng_seed_spec(seed),
            passes as nat,
        );

        let mut pass: usize = 0;
        while pass < passes
            invariant
                self.wf(),
                self.scene == old(self).scene,
                self.width == old(self).width,
                self.height == old(self).height,
                self.params == old(self).params,
                buffer@.len() == self.width * self.height,
                pass <= passes,
                target == run_loop_spec(
                    old(self).scene.sources@,
                    old(self).scene.faces@,
                    old(self).params.frequency_hz,
                    old(self).width as nat,
                    old(self).height as nat,
                    self.buffer@,
                    buffer@,
                    rng@,
                    (passes - pass) as nat,
                ),
            decreases passes - pass,
        {
            let ghost pre = (self.buffer@, buffer@, rng@);
            let params = self.params;
            let w = self.width;
            let h = self.height;
            render_one(&self.scene, &params, &mut rng, &mut buffer, w, h);
            self.accumulate_move(&params, &mut buffer);
            pass = pass + 1;
            proof {
                let rendered = render_pixels_spec(
                    old(self).scene.sources@,
                    old(self).scene.faces@,
                    old(self).params.frequency_hz,
                    pre.1,
                    old(self).width as nat,
                    pre.2,
                    (old(self).width * old(self).height) as nat,
                );
                assert(self.buffer@ == add_buffers_spec(pre.0, rendered.0));
                assert(buffer@ == zero_buffer_spec(pre.1.len()));
                assert(target == run_loop_spec(
                    old(self).scene.sources@,
                    old(self).scene.faces@,
                    old(self).params.frequency_hz,
                    old(self).width as nat,
                    old(self).height as nat,
                    self.buffer@,
                    buffer@,
                    rng@,
                    (passes - pass) as nat,
                ));
            }
        }
    }

    /// The exposure for a snapshot of the accumulation buffer: the mean
    /// log-magnitude over the grid cells around every source's reference
    /// point, one meter in front of the speaker, which defines 0 dB.
    /// Reference cells off the grid are skipped.
    pub fn get_exposure(&self, buffer: &Vec<Complex>, width: usize) -> (r: i64)
        requires
            self.scene.wf(),
            width < 0x8000_0000,
        ensures
            r == exposure_spec(buffer@, width as nat, self.scene.sources@),
    {
        let mut acc: (i64, i64) = (0, 0);
        let mut k: usize = 0;
        let n = self.scene.sources.len();
        while k < n
            invariant
                self.scene.wf(),
                width < 0x8000_0000,
                n == self.scene.sources@.len(),
                k <= n,
                acc == exposure_fold_spec(buffer@, width as nat, self.scene.sources@, k as nat),
                acc.1 <= 9 * k,
            decreases n - k,
        {
            let s = self.scene.sources[k];

            // The magnitude one meter in front of the speaker defines 0 dB.
            let p = s.position.add(s.direction);
            let xi = fx_to_int(fx_div(fx_add(p.x, FX_HALF_METER), FX_PIXEL_PITCH));
            let yi = fx_to_int(fx_div(fx_add(p.y, FX_HALF_METER), FX_PIXEL_PITCH));

            acc = acc_cell(acc, cell_log(buffer, width, xi - 1, yi - 1));
            acc = acc_cell(acc, cell_log(buffer, width, xi - 1, yi));
            acc = acc_cell(acc, cell_log(buffer, width, xi - 1, yi + 1));
            acc = acc_cell(acc, cell_log(buffer, width, xi, yi - 1));
            acc = acc_cell(acc, cell_log(buffer, width, xi, yi));
            acc = acc_cell(acc, cell_log(buffer, width, xi, yi + 1));
            acc = acc_cell(acc, cell_log(buffer, width, xi + 1, yi - 1));
            acc = acc_cell(acc, cell_log(buffer, width, xi + 1, yi));
            acc = acc_cell(acc, cell_log(buffer, width, xi + 1, yi + 1));

            k = k + 1;
        }
        fx_div(acc.0, fx_of_int(acc.1))
    }

    /// Render the accumulated buffer into an opaque 8-bit RGBA image, the
    /// gray level replicated across the color channels.  The whole image
    /// is shaded against one exposure; painted mid-accumulation it shows a
    /// partial sum, progressively refined rather than torn.
    pub fn paint(&self) -> (r: Vec<u8>)
        requires
            self.scene.wf(),
            self.width < 0x8000_0000,
    ensures
            r@ == paint_spec(self.buffer@, self.width as nat, self.scene.sources@),
    {
        let exposure = self.get_exposure(&self.buffer, self.width);
        let mut out: Vec<u8> = Vec::new();
        let mut i: usize = 0;
        let len = self.buffer.len();
        while i < len
            invariant
                self.scene.wf(),
                self.width < 0x8000_0000,
                len == self.buffer@.len(),
                i <= len,
                exposure == exposure_spec(self.buffer@, self.width as nat, self.scene.sources@),
                out@.len() == 4 * i,
                forall|j: int| 0 <= j < out@.len() ==> #[trigger] out@[j] == paint_byte_spec(
                    self.buffer@,
                    exposure,
                    j,
                ),
            decreases len - i,
        {
            let s = shade(self.buffer[i], exposure);
            out.push(s);
            out.push(s);
            out.push(s);
            out.push(255);
            i = i + 1;
            proof {
                assert forall|j: int| 4 * i - 4 <= j < 4 * i implies out@[j] == paint_byte_spec(
                    self.buffer@,
                    exposure,
                    j,
                ) by {
                    vstd::arithmetic::div_mod::lemma_div_multiples_vanish_fancy(
                        i - 1,
                        j - (4 * i - 4),
                        4,
                    );
                    vstd::arithmetic::div_mod::lemma_mod_multiples_vanish(i - 1, j - (4 * i - 4), 4);
                    assert(4 * (i - 1) + (j - (4 * i - 4)) == j);
                }
            }
        }
        proof {
            assert(out@ =~= paint_spec(self.buffer@, self.width as nat, self.scene.sources@));
        }
        out
    }
}

} // verus!
