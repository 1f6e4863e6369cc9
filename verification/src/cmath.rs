//! Trusted complex arithmetic on bit-pattern samples.
//!
//! Each wrapper converts `Cpx` bit patterns to `num_complex::Complex64`,
//! makes one arithmetic call, and converts back. The operations used here
//! (multiply, divide, square, add) are IEEE-754 basic operations, so each
//! result is a function of the argument bits alone and can be given a name.
//!
//! Magnitudes are compared throughout the library as their raw `u64` bit
//! patterns: for the non-negative doubles that `norm_sqr` returns, the
//! unsigned bit-pattern order coincides with the numeric order.

use vstd::prelude::*;

use crate::Cpx;
use num_complex::Complex64;

verus! {

/// The bit pattern of `|c|^2 = re*re + im*im` in double precision.
pub uninterp spec fn mag_sq_of(c: Cpx) -> u64;

/// Relies on num_complex::Complex64::norm_sqr: `re*re + im*im` in double
/// precision, computed with IEEE-754 multiplications and one addition.
#[verifier::external_body]
pub fn mag_sq(c: Cpx) -> (r: u64)
    ensures
        r == mag_sq_of(c),
{
    let z = Complex64::new(bytemuck::cast(c.re), bytemuck::cast(c.im));
    z.norm_sqr().to_bits()
}

/// The bit pattern of `(x * y) / n` in double-precision complex arithmetic.
pub uninterp spec fn mul_scaled_of(x: Cpx, y: Cpx, n: u64) -> Cpx;

/// Relies on num_complex's complex multiplication and scalar division:
/// `(x * y) / n` in double precision, IEEE-754 operations throughout.
#[verifier::external_body]
pub fn mul_scaled(x: Cpx, y: Cpx, n: u64) -> (r: Cpx)
    requires
        1 <= n,
    ensures
        r == mul_scaled_of(x, y, n),
{
    let a = Complex64::new(bytemuck::cast(x.re), bytemuck::cast(x.im));
    let b = Complex64::new(bytemuck::cast(y.re), bytemuck::cast(y.im));
    let p = a * b;
    // Complex64::new anchors the converted length as a binary64 value.
    let nf = Complex64::new(num_traits::cast(n).unwrap(), num_traits::cast(n).unwrap()).re;
    Cpx { re: (p.re / nf).to_bits(), im: (p.im / nf).to_bits() }
}

/// The complex conjugate on bit patterns: negating the imaginary part of an
/// IEEE-754 double flips exactly its sign bit.
pub open spec fn spec_conj(c: Cpx) -> Cpx {
    Cpx { re: c.re, im: c.im ^ 0x8000_0000_0000_0000 }
}

pub fn conj(c: Cpx) -> (r: Cpx)
    ensures
        r == spec_conj(c),
{
    Cpx { re: c.re, im: c.im ^ 0x8000_0000_0000_0000 }
}

} // verus!
