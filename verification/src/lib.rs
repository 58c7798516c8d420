//! A radix-2 Cooley-Tukey discrete Fourier transform.
//!
//! The crate offers a complex-number value type whose components are stored
//! as IEEE-754 binary64 bit patterns, and a recursive transform that pads a
//! signal to the next power of two with zeros, splits it into even- and
//! odd-indexed halves, and recombines the half transforms with twiddle
//! factors.

pub mod complex;
pub mod float_bits;
pub mod transform;

pub use complex::Complex;
pub use transform::fft;

