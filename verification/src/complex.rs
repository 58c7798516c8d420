//! An immutable complex-number value type.
//!
//! Each component is stored as the `u64` bit pattern of an IEEE-754
//! binary64 value. Every operation returns a new value; the contracts pin
//! each component of the result down to a named double-precision operation
//! on the components of the arguments.

use vstd::prelude::*;
use crate::float_bits::{add_bits, sub_bits, mul_bits, sqrt_bits};
use crate::float_bits::{f64_add, f64_sub, f64_mul, f64_sqrt};

verus! {

/// A complex number. `real` and `imag` hold the IEEE-754 binary64 bit
/// patterns of the two components.
#[derive(Clone, Copy, Debug, PartialEq, Eq, Structural)]
pub struct Complex {
    pub real: u64,
    pub imag: u64,
}

/// The componentwise sum of two complex numbers.
pub open spec fn c_add(a: Complex, b: Complex) -> Complex {
    Complex { real: add_bits(a.real, b.real), imag: add_bits(a.imag, b.imag) }
}

/// The componentwise difference of two complex numbers.
pub open spec fn c_sub(a: Complex, b: Complex) -> Complex {
    Complex { real: sub_bits(a.real, b.real), imag: sub_bits(a.imag, b.imag) }
}

/// The complex product: `(a.re*b.re - a.im*b.im, a.re*b.im + a.im*b.re)`.
pub open spec fn c_mul(a: Complex, b: Complex) -> Complex {
    Complex {
        real: sub_bits(mul_bits(a.real, b.real), mul_bits(a.imag, b.imag)),
        imag: add_bits(mul_bits(a.real, b.imag), mul_bits(a.imag, b.real)),
    }
}

/// The magnitude `sqrt(re*re + im*im)`.
pub open spec fn c_abs(a: Complex) -> u64 {
    sqrt_bits(add_bits(mul_bits(a.real, a.real), mul_bits(a.imag, a.imag)))
}

impl Complex {
    /// Constructs a complex number from the bit patterns of its components.
    /// No validation: NaN and infinity encodings are accepted as they are.
    pub fn new(re: u64, im: u64) -> (r: Complex)
        ensures
            r == (Complex { real: re, imag: im }),
    {
        Complex { real: re, imag: im }
    }

    /// The componentwise sum of `self` and `other`.
    pub fn add(&self, other: &Complex) -> (r: Complex)
        ensures
            r == c_add(*self, *other),
    {
        Complex {
            real: f64_add(self.real, other.real),
            imag: f64_add(self.imag, other.imag),
        }
    }

    /// The componentwise difference of `self` and `other`.
    pub fn subtract(&self, other: &Complex) -> (r: Complex)
        ensures
            r == c_sub(*self, *other),
    {
        Complex {
            real: f64_sub(self.real, other.real),
            imag: f64_sub(self.imag, other.imag),
        }
    }

    /// The complex product of `self` and `other`.
    pub fn multiply(&self, other: &Complex) -> (r: Complex)
        ensures
            r == c_mul(*self, *other),
    {
        Complex {
            real: f64_sub(f64_mul(self.real, other.real), f64_mul(self.imag, other.imag)),
            imag: f64_add(f64_mul(self.real, other.imag), f64_mul(self.imag, other.real)),
        }
    }

    /// The magnitude of `self`, as the bit pattern of a binary64 value.
    pub fn abs(&self) -> (r: u64)
        ensures
            r == c_abs(*self),
    {
        f64_sqrt(f64_add(f64_mul(self.real, self.real), f64_mul(self.imag, self.imag)))
    }
}

} // verus!
