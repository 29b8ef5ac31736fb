//! A room-acoustics field simulator.
//!
//! The library computes a steady-state, frequency-domain sound-pressure field
//! inside a room bounded by reflecting planes, for visualization as a 2-D
//! slice.  Sources are directional point emitters; the field at a point is
//! estimated by a randomized truncated path tracer that sums the phasor
//! contributions of direct and reflected paths.
//!
//! All quantities are carried in Q16.16 fixed-point arithmetic (an `i64`
//! holding the value times 65536), with saturation at a wide symmetric bound
//! standing in for floating-point overflow.  Every executable function is
//! specified exactly against a mathematical twin, so renders are provably
//! deterministic for a given seed and parameter set.

pub mod complex;
pub mod fx;
pub mod rand;
pub mod renderer;
pub mod scene;
pub mod vec3;
