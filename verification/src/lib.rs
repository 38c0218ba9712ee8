//! Long-form audio assembly: planning, crossfading and dispatch for stitching
//! bounded-length generated segments into one continuous waveform.
//!
//! A generative backend can only synthesize clips of at most 30 seconds.  This
//! library decomposes a longer request into overlapping segments, blends the
//! segments with a linear crossfade, trims the result to the exact target
//! sample count, and routes short requests directly to the backend.
//!
//! Sample buffers are generic over the sample type; per-sample arithmetic
//! (the interpolation and ramp formulas, floating point in practice) is
//! supplied by the caller as closures, while every structural guarantee —
//! buffer lengths, which samples are blended, which are preserved — is stated
//! and verified here.

pub mod blend;
pub mod dispatch;
pub mod generate;
pub mod plan;
pub mod progress;
