//! Double-precision arithmetic on raw IEEE-754 bit patterns.
//!
//! The rest of the crate stores every double-precision component as the
//! `u64` bit pattern that encodes it, so that the surrounding logic can be
//! verified while the numeric work itself is delegated to outside crates.
//! Each operation here is deterministic: its result depends on the argument
//! bit patterns alone, which the uninterpreted functions below name.

use vstd::prelude::*;
use rustc_apfloat::Float;
use rustc_apfloat::ieee::Double;

verus! {

/// The bit pattern of the IEEE-754 binary64 sum of the values `a` and `b` encode.
pub uninterp spec fn add_bits(a: u64, b: u64) -> u64;

/// The bit pattern of the IEEE-754 binary64 difference of the values `a` and `b` encode.
pub uninterp spec fn sub_bits(a: u64, b: u64) -> u64;

/// The bit pattern of the IEEE-754 binary64 product of the values `a` and `b` encode.
pub uninterp spec fn mul_bits(a: u64, b: u64) -> u64;

/// The bit pattern of the IEEE-754 binary64 quotient of the values `a` and `b` encode.
pub uninterp spec fn div_bits(a: u64, b: u64) -> u64;

/// The bit pattern of the square root of the value `a` encodes.
pub uninterp spec fn sqrt_bits(a: u64) -> u64;

/// The bit pattern of the cosine of the value `a` encodes.
pub uninterp spec fn cos_bits(a: u64) -> u64;

/// The bit pattern of the sine of the value `a` encodes.
pub uninterp spec fn sin_bits(a: u64) -> u64;

/// The bit pattern of `n` converted to the nearest binary64 value.
pub uninterp spec fn usize_to_bits(n: usize) -> u64;

/// Relies on rustc_apfloat's binary64 addition (`Double` + `Double`,
/// round to nearest, ties to even): the IEEE-754 sum of the two encoded
/// values, a function of the two bit patterns alone.
#[verifier::external_body]
pub(crate) fn f64_add(a: u64, b: u64) -> (r: u64)
    ensures
        r == add_bits(a, b),
{
    (Double::from_bits(a as u128) + Double::from_bits(b as u128)).value.to_bits() as u64
}

/// Relies on rustc_apfloat's binary64 subtraction (`Double` - `Double`,
/// round to nearest, ties to even): the IEEE-754 difference of the two
/// encoded values, a function of the two bit patterns alone.
#[verifier::external_body]
pub(crate) fn f64_sub(a: u64, b: u64) -> (r: u64)
    ensures
        r == sub_bits(a, b),
{
    (Double::from_bits(a as u128) - Double::from_bits(b as u128)).value.to_bits() as u64
}

/// Relies on rustc_apfloat's binary64 multiplication (`Double` * `Double`,
/// round to nearest, ties to even): the IEEE-754 product of the two encoded
/// values, a function of the two bit patterns alone.
#[verifier::external_body]
pub(crate) fn f64_mul(a: u64, b: u64) -> (r: u64)
    ensures
        r == mul_bits(a, b),
{
    (Double::from_bits(a as u128) * Double::from_bits(b as u128)).value.to_bits() as u64
}

/// Relies on rustc_apfloat's binary64 division (`Double` / `Double`,
/// round to nearest, ties to even): the IEEE-754 quotient of the two encoded
/// values, a function of the two bit patterns alone.
#[verifier::external_body]
pub(crate) fn f64_div(a: u64, b: u64) -> (r: u64)
    ensures
        r == div_bits(a, b),
{
    (Double::from_bits(a as u128) / Double::from_bits(b as u128)).value.to_bits() as u64
}

/// Relies on rustc_apfloat's `Float::from_u128` (round to nearest, ties to
/// even), the same conversion Rust's integer-to-double cast performs: the
/// nearest binary64 value to `n`, a function of `n` alone.
#[verifier::external_body]
pub(crate) fn f64_from_usize(n: usize) -> (r: u64)
    ensures
        r == usize_to_bits(n),
{
    Double::from_u128(n as u128).value.to_bits() as u64
}

/// Relies on libm::sqrt (a pure-Rust port of musl's sqrt, correctly rounded
/// per IEEE-754) applied to the value the bits encode; bytemuck::cast only
/// reinterprets the eight bytes in each direction.
#[verifier::external_body]
pub(crate) fn f64_sqrt(a: u64) -> (r: u64)
    ensures
        r == sqrt_bits(a),
{
    bytemuck::cast(libm::sqrt(bytemuck::cast(a)))
}

/// Relies on libm::cos (a pure-Rust port of musl's cos, the same on every
/// machine) applied to the value the bits encode; bytemuck::cast only
/// reinterprets the eight bytes in each direction.
#[verifier::external_body]
pub(crate) fn f64_cos(a: u64) -> (r: u64)
    ensures
        r == cos_bits(a),
{
    bytemuck::cast(libm::cos(bytemuck::cast(a)))
}

/// Relies on libm::sin (a pure-Rust port of musl's sin, the same on every
/// machine) applied to the value the bits encode; bytemuck::cast only
/// reinterprets the eight bytes in each direction.
#[verifier::external_body]
pub(crate) fn f64_sin(a: u64) -> (r: u64)
    ensures
        r == sin_bits(a),
{
    bytemuck::cast(libm::sin(bytemuck::cast(a)))
}

} // verus!
