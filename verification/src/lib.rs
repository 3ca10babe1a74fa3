//! A Freeverb-style stereo reverberation engine with delay-line modulation
//! and bit-depth/sample-rate reduction.
//!
//! Samples and coefficients are saturating fixed-point integers (see
//! [`fixed`]), so the whole signal path is total integer arithmetic: every
//! filter step is specified exactly and proved against that specification.
//! The host-facing layer that deals in floating-point samples converts at
//! the boundary and lives outside this crate.

pub mod fixed;
pub mod delay_buffer;
pub mod all_pass_filter;
pub mod comb_filter;
pub mod lfo;
pub mod bitcrusher;
pub mod reverb;
