//! The CAF surface builder.
//!
//! For every shift on the caller's grid: rotate the zero-padded needle,
//! cross-correlate it against the zero-padded haystack, and reduce the result
//! to one surface row holding the per-lag magnitudes and their peak. The
//! sequential builder runs the shifts in order; the parallel builder fans the
//! same verified per-shift job out across a thread pool.

use vstd::prelude::*;

use crate::cmath::{mag_sq, mag_sq_of};
use crate::peak::is_first_argmax;
use crate::shift::apply_freq_shift;
use crate::xcor::Xcor;
use crate::{is_pow2, lemma_pow2_double, CafError, Cpx};
use rayon::iter::{IntoParallelRefIterator, ParallelIterator};

verus! {

/// One row of the CAF surface: the frequency shift that produced it, the
/// per-lag magnitude-squared of the cross-correlation output, and that row's
/// peak position and value.
#[derive(Debug)]
pub struct CafSurfaceRow {
    pub freq_millihz: i64,
    pub xcor_mag: Vec<u64>,
    pub xcor_peak_idx: usize,
    pub xcor_peak_val: u64,
}

/// The row invariant: `n` magnitudes, the peak index in range and pointing
/// at the first maximum, and the peak value equal to the magnitude there.
pub open spec fn row_wf(r: CafSurfaceRow, n: nat) -> bool {
    &&& r.xcor_mag@.len() == n
    &&& r.xcor_peak_idx < n
    &&& r.xcor_peak_val == r.xcor_mag@[r.xcor_peak_idx as int]
    &&& is_first_argmax(r.xcor_mag@, r.xcor_peak_idx as int)
}

/// Needle and haystack have the same length, which is a positive power of
/// two.
pub open spec fn valid_caf_inputs(needle: Seq<Cpx>, haystack: Seq<Cpx>) -> bool {
    &&& needle.len() == haystack.len()
    &&& is_pow2(needle.len())
}

/// Appends zero samples to double the buffer length.
pub fn zero_pad_double(v: &Vec<Cpx>) -> (r: Vec<Cpx>)
    requires
        2 * v@.len() <= usize::MAX,
    ensures
        r@.len() == 2 * v@.len(),
        forall|i: int| 0 <= i < v@.len() ==> r@[i] == v@[i],
        forall|i: int| v@.len() <= i < 2 * v@.len() ==> r@[i] == Cpx::spec_zero(),
{
    let mut out = crate::copy_vec(v);
    let mut i: usize = 0;
    while i < v.len()
        invariant
            i <= v@.len(),
            2 * v@.len() <= usize::MAX,
            out@.len() == v@.len() + i,
            forall|k: int| 0 <= k < v@.len() ==> out@[k] == v@[k],
            forall|k: int| v@.len() <= k < out@.len() ==> out@[k] == Cpx::spec_zero(),
        decreases v@.len() - i,
    {
        out.push(Cpx::zero());
        i = i + 1;
    }
    out
}

/// The per-row reducer: the magnitude-squared of each correlation bin, the
/// first position of the maximum, and the value there.
pub fn reduce_row(res: &Vec<Cpx>) -> (r: (Vec<u64>, usize, u64))
    requires
        res@.len() >= 1,
    ensures
        r.0@.len() == res@.len(),
        forall|k: int| 0 <= k < res@.len() ==> r.0@[k] == mag_sq_of(res@[k]),
        is_first_argmax(r.0@, r.1 as int),
        r.2 == r.0@[r.1 as int],
{
    let mut mag: Vec<u64> = Vec::new();
    let mut max: u64 = 0;
    let mut argmax: usize = 0;
    let mut i: usize = 0;
    while i < res.len()
        invariant
            i == mag@.len() <= res@.len(),
            forall|k: int| 0 <= k < i ==> mag@[k] == mag_sq_of(res@[k]),
            i == 0 ==> max == 0 && argmax == 0,
            i >= 1 ==> argmax < i && max == mag@[argmax as int],
            forall|k: int| 0 <= k < i ==> mag@[k] <= max,
            forall|k: int| 0 <= k < argmax ==> mag@[k] < max,
        decreases res@.len() - i,
    {
        let m = mag_sq(res[i]);
        if m > max {
            max = m;
            argmax = i;
        }
        mag.push(m);
        i = i + 1;
    }
    (mag, argmax, max)
}

/// One CAF job: shift the padded needle by `freq_millihz`, cross-correlate
/// the padded haystack against it (in that argument order, so a peak at lag
/// `d` means the haystack lags the needle by `d` samples), and reduce the
/// output to a surface row.
pub fn caf_row(
    needle_padded: &Vec<Cpx>,
    haystack_padded: &Vec<Cpx>,
    freq_millihz: i64,
    fs: u32,
) -> (r: CafSurfaceRow)
    requires
        needle_padded@.len() == haystack_padded@.len(),
        is_pow2(needle_padded@.len() as nat),
        1 <= fs,
    ensures
        r.freq_millihz == freq_millihz,
        row_wf(r, needle_padded@.len() as nat),
{
    let n = needle_padded.len();
    proof {
        if n == 0 {
            assert(!is_pow2(0));
        }
    }
    let mut xcor = match Xcor::new(n) {
        Ok(x) => x,
        Err(_) => {
            proof {
                assert(false);
            }
            vstd::pervasive::unreached()
        },
    };
    let shifted = apply_freq_shift(needle_padded, freq_millihz, fs);
    let out = match xcor.run(haystack_padded, &shifted) {
        Ok(o) => o,
        Err(_) => {
            proof {
                assert(false);
            }
            vstd::pervasive::unreached()
        },
    };
    let (mag, idx, val) = reduce_row(&out);
    CafSurfaceRow { freq_millihz, xcor_mag: mag, xcor_peak_idx: idx, xcor_peak_val: val }
}

/// Builds the CAF surface sequentially: one row per grid shift, in grid
/// order. Fails with `InvalidLength` unless needle and haystack share a
/// length that is a positive power of two; each returned row then satisfies
/// the row invariant at the padded length `2 * |needle|`.
pub fn caf_surface(
    needle: &Vec<Cpx>,
    haystack: &Vec<Cpx>,
    freqs_millihz: &Vec<i64>,
    fs: u32,
) -> (r: Result<Vec<CafSurfaceRow>, CafError>)
    requires
        1 <= fs,
        2 * needle@.len() <= usize::MAX,
    ensures
        match r {
            Ok(s) => {
                &&& valid_caf_inputs(needle@, haystack@)
                &&& s@.len() == freqs_millihz@.len()
                &&& forall|i: int|
                    0 <= i < s@.len() ==> (#[trigger] s@[i]).freq_millihz == freqs_millihz@[i]
                        && row_wf(s@[i], 2 * needle@.len())
            },
            Err(e) => {
                &&& e == CafError::InvalidLength
                &&& !valid_caf_inputs(needle@, haystack@)
            },
        },
{
    if needle.len() != haystack.len() || !crate::check_pow2(needle.len()) {
        return Err(CafError::InvalidLength);
    }
    let n_pad = zero_pad_double(needle);
    let h_pad = zero_pad_double(haystack);
    proof {
        lemma_pow2_double(needle@.len() as nat);
    }
    let mut surface: Vec<CafSurfaceRow> = Vec::new();
    let mut i: usize = 0;
    while i < freqs_millihz.len()
        invariant
            1 <= fs,
            i == surface@.len() <= freqs_millihz@.len(),
            n_pad@.len() == 2 * needle@.len(),
            h_pad@.len() == 2 * needle@.len(),
            is_pow2(n_pad@.len() as nat),
            forall|k: int|
                0 <= k < i ==> (#[trigger] surface@[k]).freq_millihz == freqs_millihz@[k]
                    && row_wf(surface@[k], 2 * needle@.len()),
        decreases freqs_millihz@.len() - i,
    {
        let row = caf_row(&n_pad, &h_pad, freqs_millihz[i], fs);
        surface.push(row);
        i = i + 1;
    }
    Ok(surface)
}

/// Relies on rayon's `par_iter().map(..).collect::<Vec<_>>()`: the closure —
/// which only calls the verified `caf_row` — is applied to every element of
/// `freqs_millihz`, and collecting an indexed parallel iterator into a `Vec`
/// keeps the input order. The result therefore holds exactly one `caf_row`
/// output per shift, in grid order, and each row carries what `caf_row`
/// ensures of it.
#[verifier::external_body]
fn rows_par(
    needle_padded: &Vec<Cpx>,
    haystack_padded: &Vec<Cpx>,
    freqs_millihz: &Vec<i64>,
    fs: u32,
) -> (r: Vec<CafSurfaceRow>)
    requires
        needle_padded@.len() == haystack_padded@.len(),
        is_pow2(needle_padded@.len() as nat),
        1 <= fs,
    ensures
        r@.len() == freqs_millihz@.len(),
        forall|i: int|
            0 <= i < r@.len() ==> (#[trigger] r@[i]).freq_millihz == freqs_millihz@[i] && row_wf(
                r@[i],
                needle_padded@.len() as nat,
            ),
{
    freqs_millihz.par_iter().map(|&f| caf_row(needle_padded, haystack_padded, f, fs)).collect()
}

/// Builds the CAF surface in parallel: the same contract as `caf_surface`,
/// with the per-shift jobs fanned out across a thread pool. The padded
/// inputs are shared read-only; each job owns its scratch and its row.
pub fn caf_surface_par(
    needle: &Vec<Cpx>,
    haystack: &Vec<Cpx>,
    freqs_millihz: &Vec<i64>,
    fs: u32,
) -> (r: Result<Vec<CafSurfaceRow>, CafError>)
    requires
        1 <= fs,
        2 * needle@.len() <= usize::MAX,
    ensures
        match r {
            Ok(s) => {
                &&& valid_caf_inputs(needle@, haystack@)
                &&& s@.len() == freqs_millihz@.len()
                &&& forall|i: int|
                    0 <= i < s@.len() ==> (#[trigger] s@[i]).freq_millihz == freqs_millihz@[i]
                        && row_wf(s@[i], 2 * needle@.len())
            },
            Err(e) => {
                &&& e == CafError::InvalidLength
                &&& !valid_caf_inputs(needle@, haystack@)
            },
        },
{
    if needle.len() != haystack.len() || !crate::check_pow2(needle.len()) {
        return Err(CafError::InvalidLength);
    }
    let n_pad = zero_pad_double(needle);
    let h_pad = zero_pad_double(haystack);
    proof {
        lemma_pow2_double(needle@.len() as nat);
    }
    let surface = rows_par(&n_pad, &h_pad, freqs_millihz, fs);
    Ok(surface)
}

/// The surface-builder strategy interface: every implementation owes the
/// same contract as `caf_surface`; implementations differ only in how the
/// per-shift jobs are scheduled.
pub trait CafSurface {
    fn caf_surface(
        needle: &Vec<Cpx>,
        haystack: &Vec<Cpx>,
        freqs_millihz: &Vec<i64>,
        fs: u32,
    ) -> (r: Result<Vec<CafSurfaceRow>, CafError>)
        requires
            1 <= fs,
            2 * needle@.len() <= usize::MAX,
        ensures
            match r {
                Ok(s) => {
                    &&& valid_caf_inputs(needle@, haystack@)
                    &&& s@.len() == freqs_millihz@.len()
                    &&& forall|i: int|
                        0 <= i < s@.len() ==> (#[trigger] s@[i]).freq_millihz == freqs_millihz@[i]
                            && row_wf(s@[i], 2 * needle@.len())
                },
                Err(e) => {
                    &&& e == CafError::InvalidLength
                    &&& !valid_caf_inputs(needle@, haystack@)
                },
            },
    ;
}

/// The one-thread builder: shifts are run in grid order on the caller's
/// thread.
pub struct CafRustFFT {}

impl CafSurface for CafRustFFT {
    fn caf_surface(
        needle: &Vec<Cpx>,
        haystack: &Vec<Cpx>,
        freqs_millihz: &Vec<i64>,
        fs: u32,
    ) -> Result<Vec<CafSurfaceRow>, CafError> {
        caf_surface(needle, haystack, freqs_millihz, fs)
    }
}

/// The parallel builder: shifts are fanned out across a thread pool.
pub struct CafRustFFTRayon {}

impl CafSurface for CafRustFFTRayon {
    fn caf_surface(
        needle: &Vec<Cpx>,
        haystack: &Vec<Cpx>,
        freqs_millihz: &Vec<i64>,
        fs: u32,
    ) -> Result<Vec<CafSurfaceRow>, CafError> {
        caf_surface_par(needle, haystack, freqs_millihz, fs)
    }
}

} // verus!
