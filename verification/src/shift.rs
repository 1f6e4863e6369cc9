//! The frequency shifter: multiplies a sample vector sample-wise by
//! `e^{j*2*pi*df*n/fs}` (the `+j` convention: a positive shift synthesizes a
//! needle that would appear at `+df` in the observed signal).

use vstd::prelude::*;

use crate::Cpx;
use num_complex::Complex64;

verus! {

/// Relies on num_complex::Complex64::cis (cos + i*sin through the platform's
/// math library) and complex multiplication: rotates `x` by
/// `e^{j * 2*pi * (freq_millihz/1000) * idx / fs}`. The trigonometric calls
/// may differ in the last bits between platforms, so nothing is claimed of
/// the result.
#[verifier::external_body]
fn rotate_sample(x: Cpx, freq_millihz: i64, idx: usize, fs: u32) -> (r: Cpx)
    requires
        1 <= fs,
{
    let z = Complex64::new(bytemuck::cast(x.re), bytemuck::cast(x.im));
    // Complex64::new anchors each converted pair as binary64 values: first
    // the bit patterns of 2*pi and of 1.0, then the four integer arguments.
    let tau_one = Complex64::new(
        bytemuck::cast(0x401921FB54442D18_u64),
        bytemuck::cast(0x3FF0000000000000_u64),
    );
    let fk = Complex64::new(
        num_traits::cast(freq_millihz).unwrap(),
        num_traits::cast(1000_i64).unwrap(),
    );
    let fi = Complex64::new(num_traits::cast(fs).unwrap(), num_traits::cast(idx).unwrap());
    // theta = 2*pi * (freq_millihz/1000) * (1/fs) * idx
    let theta = tau_one.re * (fk.re / fk.im) * (tau_one.im / fi.re) * fi.im;
    let w = z * Complex64::cis(theta);
    Cpx { re: w.re.to_bits(), im: w.im.to_bits() }
}

/// Returns a fresh copy of `samples` with each sample rotated by
/// `e^{j * 2*pi * shift * n / fs}`, where `shift` is `freq_millihz / 1000`
/// hertz. Pure, length-preserving; a zero shift multiplies by `e^{j*0} = 1`
/// and therefore returns a bitwise copy of the input.
pub fn apply_freq_shift(samples: &Vec<Cpx>, freq_millihz: i64, fs: u32) -> (r: Vec<Cpx>)
    requires
        1 <= fs,
    ensures
        r@.len() == samples@.len(),
        freq_millihz == 0 ==> r@ == samples@,
{
    if freq_millihz == 0 {
        return crate::copy_vec(samples);
    }
    let mut out: Vec<Cpx> = Vec::new();
    let mut i: usize = 0;
    while i < samples.len()
        invariant
            1 <= fs,
            i == out@.len() <= samples@.len(),
        decreases samples@.len() - i,
    {
        out.push(rotate_sample(samples[i], freq_millihz, i, fs));
        i = i + 1;
    }
    out
}

} // verus!
