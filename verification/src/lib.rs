//! Finite impulse response filter design: the exact, integer-valued parts of
//! the windowed-sinc method, verified.
//!
//! The floating-point arithmetic of the method (sinc values, window shapes,
//! convolution, frequency response) lives outside this crate's verified core;
//! what is here is everything the design rules decide on plain values.

pub mod lowpass;
pub mod order;
pub mod sinc;
pub mod window;

