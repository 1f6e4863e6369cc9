//! Fixed-size FFT cross-correlation kernel.
//!
//! For two length-N complex buffers (N a positive power of two) the kernel
//! computes `IFFT( FFT(a) * conj(FFT(b)) / N )`, the circular
//! cross-correlation of `a` against `b`. Both transforms are unnormalized, so
//! the single division by N on the frequency-domain product is the only
//! scaling in the whole pipeline.

use vstd::prelude::*;

use crate::cmath::{conj, mul_scaled, mul_scaled_of, spec_conj};
use crate::{copy_vec, is_pow2, zero_vec, CafError, Cpx};
use num_complex::Complex64;

verus! {

/// Relies on rustfft's FftPlanner::plan_fft_forward and Fft::process: an
/// unnormalized in-order forward transform of the whole buffer, in place.
/// `process` panics only when the buffer length differs from the planned
/// length, and the plan is made for exactly `buf.len()`; a zero-length plan
/// cannot be run, so empty buffers are excluded. The transformed values may
/// differ in the last bits between platforms, so only the length is stated.
#[verifier::external_body]
fn fft_forward(buf: &Vec<Cpx>) -> (r: Vec<Cpx>)
    requires
        buf@.len() >= 1,
    ensures
        r@.len() == buf@.len(),
{
    let mut v: Vec<Complex64> = Vec::new();
    for s in buf.iter() {
        v.push(Complex64::new(bytemuck::cast(s.re), bytemuck::cast(s.im)));
    }
    let mut planner = rustfft::FftPlanner::new();
    let plan = planner.plan_fft_forward(v.len());
    plan.process(&mut v);
    v.iter().map(|z| Cpx { re: z.re.to_bits(), im: z.im.to_bits() }).collect()
}

/// Relies on rustfft's FftPlanner::plan_fft_inverse and Fft::process, exactly
/// as `fft_forward` does for the forward direction. The inverse transform is
/// unnormalized as well.
#[verifier::external_body]
fn fft_inverse(buf: &Vec<Cpx>) -> (r: Vec<Cpx>)
    requires
        buf@.len() >= 1,
    ensures
        r@.len() == buf@.len(),
{
    let mut v: Vec<Complex64> = Vec::new();
    for s in buf.iter() {
        v.push(Complex64::new(bytemuck::cast(s.re), bytemuck::cast(s.im)));
    }
    let mut planner = rustfft::FftPlanner::new();
    let plan = planner.plan_fft_inverse(v.len());
    plan.process(&mut v);
    v.iter().map(|z| Cpx { re: z.re.to_bits(), im: z.im.to_bits() }).collect()
}

/// Conjugates every element of a buffer.
pub fn conj_vec(v: &Vec<Cpx>) -> (r: Vec<Cpx>)
    ensures
        r@.len() == v@.len(),
        forall|i: int| 0 <= i < v@.len() ==> r@[i] == spec_conj(v@[i]),
{
    let mut out: Vec<Cpx> = Vec::new();
    let mut i: usize = 0;
    while i < v.len()
        invariant
            i == out@.len() <= v@.len(),
            forall|k: int| 0 <= k < i ==> out@[k] == spec_conj(v@[k]),
        decreases v@.len() - i,
    {
        out.push(conj(v[i]));
        i = i + 1;
    }
    out
}

/// The element-wise scaled product `r[k] = (b[k] * c[k]) / n`.
pub fn product_vec(b: &Vec<Cpx>, c: &Vec<Cpx>, n: u64) -> (r: Vec<Cpx>)
    requires
        b@.len() == c@.len(),
        1 <= n,
    ensures
        r@.len() == b@.len(),
        forall|k: int| 0 <= k < b@.len() ==> r@[k] == mul_scaled_of(b@[k], c@[k], n),
{
    let mut out: Vec<Cpx> = Vec::new();
    let mut i: usize = 0;
    while i < b.len()
        invariant
            i == out@.len() <= b@.len(),
            b@.len() == c@.len(),
            1 <= n,
            forall|k: int| 0 <= k < i ==> out@[k] == mul_scaled_of(b@[k], c@[k], n),
        decreases b@.len() - i,
    {
        out.push(mul_scaled(b[i], c[i], n));
        i = i + 1;
    }
    out
}

/// The cross-correlation handle: a transform length N (a positive power of
/// two) and three length-N scratch buffers A, B and C. FFT plans are rebuilt
/// inside the trusted transform calls, so a handle carries no plan state of
/// its own and cloning one simply gives fresh scratch at the same length.
pub struct Xcor {
    n: usize,
    a: Vec<Cpx>,
    b: Vec<Cpx>,
    c: Vec<Cpx>,
}

impl Xcor {
    /// The transform length the handle was built for.
    pub closed spec fn spec_n(&self) -> nat {
        self.n as nat
    }

    /// The length is a positive power of two and all three scratch buffers
    /// are sized exactly to it.
    pub closed spec fn wf(&self) -> bool {
        &&& is_pow2(self.n as nat)
        &&& self.a@.len() == self.n
        &&& self.b@.len() == self.n
        &&& self.c@.len() == self.n
    }

    /// Builds a handle for length-`n` transforms; `n` must be a positive
    /// power of two, anything else is refused with `InvalidLength`.
    pub fn new(n: usize) -> (r: Result<Xcor, CafError>)
        ensures
            match r {
                Ok(x) => x.wf() && x.spec_n() == n && is_pow2(n as nat),
                Err(e) => e == CafError::InvalidLength && !is_pow2(n as nat),
            },
    {
        if !crate::check_pow2(n) {
            return Err(CafError::InvalidLength);
        }
        Ok(Xcor { n, a: zero_vec(n), b: zero_vec(n), c: zero_vec(n) })
    }

    /// Cross-correlates two length-N buffers: returns
    /// `IFFT( FFT(a) * conj(FFT(b)) / N )`, a fresh length-N vector. Buffers
    /// of any other length are refused with `LengthMismatch`.
    pub fn run(&mut self, a: &Vec<Cpx>, b: &Vec<Cpx>) -> (r: Result<Vec<Cpx>, CafError>)
        requires
            old(self).wf(),
        ensures
            final(self).wf(),
            final(self).spec_n() == old(self).spec_n(),
            match r {
                Ok(out) => {
                    &&& out@.len() == old(self).spec_n()
                    &&& a@.len() == old(self).spec_n()
                    &&& b@.len() == old(self).spec_n()
                },
                Err(e) => {
                    &&& e == CafError::LengthMismatch
                    &&& !(a@.len() == old(self).spec_n() && b@.len() == old(self).spec_n())
                },
            },
    {
        if a.len() != self.n || b.len() != self.n {
            return Err(CafError::LengthMismatch);
        }
        proof {
            if self.n == 0 {
                assert(!is_pow2(0));
            }
        }
        // B = FFT(a), computed through scratch A.
        self.a = copy_vec(a);
        self.b = fft_forward(&self.a);
        // C = FFT(b), computed through scratch A.
        self.a = copy_vec(b);
        self.c = fft_forward(&self.a);
        // C <- conj(C).
        self.c = conj_vec(&self.c);
        // A[k] = (B[k] * C[k]) / N: the one normalization in the pipeline.
        self.a = product_vec(&self.b, &self.c, self.n as u64);
        // Inverse-transform the product and hand out a fresh copy.
        self.b = fft_inverse(&self.a);
        Ok(copy_vec(&self.b))
    }
}

impl Clone for Xcor {
    /// An independent handle at the same transform length, with fresh
    /// scratch buffers.
    fn clone(&self) -> (r: Self)
        ensures
            self.wf() ==> r.wf(),
            r.spec_n() == self.spec_n(),
    {
        Xcor { n: self.n, a: zero_vec(self.n), b: zero_vec(self.n), c: zero_vec(self.n) }
    }
}

} // verus!
