//! A deterministic, seedable pseudorandom stream of 64-bit values.
//!
//! A 256-bit state is filled from a single 64-bit seed with the splitmix64
//! generator and then advanced with xoshiro256++.  Both steps are specified
//! exactly, so the whole stream is a mathematical function of the seed:
//! equal seeds give bit-identical sequences.

use vstd::prelude::*;

verus! {

/// One splitmix64 step: the successor state and the output drawn from it.
pub open spec fn splitmix64_spec(state: u64) -> (u64, u64) {
    let s = state.wrapping_add(0x9e3779b97f4a7c15);
    let z0 = (s ^ (s >> 30)).wrapping_mul(0xbf58476d1ce4e5b9);
    let z1 = (z0 ^ (z0 >> 27)).wrapping_mul(0x94d049bb133111eb);
    (s, z1 ^ (z1 >> 31))
}

/// Rotate a 64-bit value left by `k` bits, `0 < k < 64`.
pub open spec fn rotl64_spec(x: u64, k: u64) -> u64 {
    (x << k) | (x >> (64 - k) as u64)
}

/// One xoshiro256++ step over the four state words: the successor state
/// and the 64-bit output.
pub open spec fn xoshiro256pp_spec(s: Seq<u64>) -> (Seq<u64>, u64) {
    let result = rotl64_spec(s[0].wrapping_add(s[3]), 23).wrapping_add(s[0]);
    let t = s[1] << 17u64;
    let s2a = s[2] ^ s[0];
    let s3a = s[3] ^ s[1];
    let s1b = s[1] ^ s2a;
    let s0b = s[0] ^ s3a;
    let s2b = s2a ^ t;
    let s3b = rotl64_spec(s3a, 45);
    (seq![s0b, s1b, s2b, s3b], result)
}

/// The 256-bit state seeded from one 64-bit seed by four splitmix64 draws.
pub open spec fn rng_seed_spec(seed: u64) -> Seq<u64> {
    let (k1, w1) = splitmix64_spec(seed);
    let (k2, w2) = splitmix64_spec(k1);
    let (k3, w3) = splitmix64_spec(k2);
    let (k4, w4) = splitmix64_spec(k3);
    seq![w1, w2, w3, w4]
}

/// The splitmix64 pseudorandom number generator: advances the state and
/// returns one output word.
pub fn splitmix64_next(state: &mut u64) -> (r: u64)
    ensures
        (*final(state), r) == splitmix64_spec(*old(state)),
{
    *state = state.wrapping_add(0x9e3779b97f4a7c15);
    let z0 = (*state ^ (*state >> 30)).wrapping_mul(0xbf58476d1ce4e5b9);
    let z1 = (z0 ^ (z0 >> 27)).wrapping_mul(0x94d049bb133111eb);
    z1 ^ (z1 >> 31)
}

/// The xoshiro256++ pseudorandom number generator: advances the four state
/// words and returns one output word.
pub fn xoshiro256pp_next(state: &mut [u64; 4]) -> (r: u64)
    ensures
        (final(state)@, r) == xoshiro256pp_spec(old(state)@),
{
    let result = rotl64(state[0].wrapping_add(state[3]), 23).wrapping_add(state[0]);

    let t = state[1] << 17u64;

    let s2a = state[2] ^ state[0];
    let s3a = state[3] ^ state[1];
    let s1b = state[1] ^ s2a;
    let s0b = state[0] ^ s3a;
    let s2b = s2a ^ t;
    let s3b = rotl64(s3a, 45);

    *state = [s0b, s1b, s2b, s3b];

    proof {
        assert(state@ =~= xoshiro256pp_spec(old(state)@).0);
    }

    result
}

/// Rotate a 64-bit value left by `k` bits.
fn rotl64(x: u64, k: u64) -> (r: u64)
    requires
        0 < k < 64,
    ensures
        r == rotl64_spec(x, k),
{
    (x << k) | (x >> 64 - k)
}

/// A pseudorandom number generator powered by xoshiro256++.
pub struct Rng {
    state: [u64; 4],
}

impl View for Rng {
    type V = Seq<u64>;

    closed spec fn view(&self) -> Seq<u64> {
        self.state@
    }
}

impl Rng {
    /// Seed the generator with splitmix64, as the xoshiro authors recommend.
    pub fn new(seed: u64) -> (r: Rng)
        ensures
            r@ == rng_seed_spec(seed),
    {
        let mut sp64_state = seed;
        let w1 = splitmix64_next(&mut sp64_state);
        let w2 = splitmix64_next(&mut sp64_state);
        let w3 = splitmix64_next(&mut sp64_state);
        let w4 = splitmix64_next(&mut sp64_state);
        let r = Rng { state: [w1, w2, w3, w4] };
        proof {
            assert(r@ =~= rng_seed_spec(seed));
        }
        r
    }

    /// Draw the next 64-bit value, advancing the state.
    pub fn next(&mut self) -> (r: u64)
        ensures
            (final(self)@, r) == xoshiro256pp_spec(old(self)@),
    {
        xoshiro256pp_next(&mut self.state)
    }

    /// Derive an index into a non-empty vector from one draw.  The draw is
    /// reduced modulo the length; for small lengths the modulo bias is
    /// negligible and documented as an approximation.
    pub fn index<T>(&mut self, xs: &Vec<T>) -> (r: usize)
        requires
            xs@.len() > 0,
        ensures
            (final(self)@, r as nat) == rng_index_spec(old(self)@, xs@.len()),
            r < xs@.len(),
    {
        let v = self.next();
        (v % (xs.len() as u64)) as usize
    }
}

/// The index derived from one draw: the output word reduced modulo the
/// length, beside the advanced state.
pub open spec fn rng_index_spec(s: Seq<u64>, len: nat) -> (Seq<u64>, nat) {
    let (s2, v) = xoshiro256pp_spec(s);
    (s2, (v as nat) % len)
}

/// Equal states yield equal next outputs and equal successor states: a
/// stream is a function of its seed alone, so two generators built from the
/// same seed produce identical sequences.
pub proof fn lemma_rng_deterministic(a: Seq<u64>, b: Seq<u64>)
    requires
        a == b,
    ensures
        xoshiro256pp_spec(a) == xoshiro256pp_spec(b),
{
}

} // verus!
