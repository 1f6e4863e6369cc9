//! Cross-Ambiguity Function (CAF) engine.
//!
//! Estimates the relative time delay and frequency offset between two
//! complex-baseband recordings: a short reference (the needle) and an observed
//! signal (the haystack). For every frequency shift on a caller-supplied grid,
//! a shifted copy of the needle is cross-correlated against the haystack via
//! FFTs; the per-lag magnitudes form one row of the CAF surface, and the
//! surface's global peak gives the estimated (frequency, sample-lag) pair.
//!
//! Complex samples are carried as the IEEE-754 bit patterns of their
//! double-precision parts, so that every structural step (zero-padding,
//! conjugation, magnitude ordering, peak search) has an exact contract; only
//! the floating-point arithmetic itself sits behind trusted wrappers.

use vstd::prelude::*;

pub mod cmath;
pub mod codec;
pub mod grid;
pub mod peak;
pub mod shift;
pub mod surface;
pub mod xcor;

verus! {

/// A complex baseband sample, held as the IEEE-754 bit patterns of its
/// double-precision real and imaginary parts.
#[derive(Clone, Copy, PartialEq, Eq, Structural, Debug)]
pub struct Cpx {
    pub re: u64,
    pub im: u64,
}

impl Cpx {
    /// The zero sample: both parts are +0.0, whose bit pattern is all zeros.
    pub open spec fn spec_zero() -> Cpx {
        Cpx { re: 0, im: 0 }
    }

    pub fn zero() -> (r: Cpx)
        ensures
            r == Cpx::spec_zero(),
    {
        Cpx { re: 0, im: 0 }
    }
}

/// The ways a CAF computation can be refused.
#[derive(Clone, Copy, PartialEq, Eq, Structural, Debug)]
pub enum CafError {
    /// Needle and haystack differ in length, or their common length is zero
    /// or not a power of two.
    InvalidLength,
    /// A cross-correlation call received buffers whose length is not the
    /// transform length the kernel was built for.
    LengthMismatch,
}

/// `n` is a positive power of two.
pub open spec fn is_pow2(n: nat) -> bool
    decreases n,
{
    if n == 0 {
        false
    } else if n == 1 {
        true
    } else {
        n % 2 == 0 && is_pow2(n / 2)
    }
}

/// Runtime check that a length is a positive power of two.
pub fn check_pow2(n: usize) -> (b: bool)
    ensures
        b == is_pow2(n as nat),
{
    if n == 0 {
        return false;
    }
    let mut m: usize = n;
    while m % 2 == 0
        invariant
            1 <= m <= n,
            is_pow2(n as nat) == is_pow2(m as nat),
        decreases m,
    {
        m = m / 2;
    }
    m == 1
}

/// A fresh bitwise copy of a sample buffer.
pub fn copy_vec(v: &Vec<Cpx>) -> (r: Vec<Cpx>)
    ensures
        r@ == v@,
{
    let mut out: Vec<Cpx> = Vec::new();
    let mut i: usize = 0;
    while i < v.len()
        invariant
            i == out@.len() <= v@.len(),
            out@ == v@.subrange(0, i as int),
        decreases v@.len() - i,
    {
        out.push(v[i]);
        i = i + 1;
    }
    proof {
        assert(out@ =~= v@);
    }
    out
}

/// A buffer of `n` zero samples.
pub fn zero_vec(n: usize) -> (r: Vec<Cpx>)
    ensures
        r@.len() == n,
        forall|i: int| 0 <= i < n ==> r@[i] == Cpx::spec_zero(),
{
    let mut out: Vec<Cpx> = Vec::new();
    let mut i: usize = 0;
    while i < n
        invariant
            i == out@.len() <= n,
            forall|k: int| 0 <= k < i ==> out@[k] == Cpx::spec_zero(),
        decreases n - i,
    {
        out.push(Cpx::zero());
        i = i + 1;
    }
    out
}

/// Doubling keeps the power-of-two property.
pub proof fn lemma_pow2_double(n: nat)
    requires
        is_pow2(n),
    ensures
        is_pow2(2 * n),
{
    assert(2 * n != 0);
    assert((2 * n) % 2 == 0) by (nonlinear_arith);
    assert((2 * n) / 2 == n) by (nonlinear_arith);
}

} // verus!
