//! Peak search: the per-row argmax characterization, the global peak over a
//! CAF surface, and the two-dimensional argmax over a raw complex surface.
//!
//! All peak comparisons use magnitude-squared values held as `u64` bit
//! patterns; for the non-negative doubles the magnitude wrappers return, the
//! unsigned bit-pattern order coincides with the numeric order, and squaring
//! is monotone, so the argmax is the same as over plain magnitudes.

use vstd::prelude::*;

use crate::cmath::mag_sq_of;
use crate::surface::CafSurfaceRow;
use crate::Cpx;

verus! {

/// `i` is the first position of the maximum of `s`.
pub open spec fn is_first_argmax(s: Seq<u64>, i: int) -> bool {
    &&& 0 <= i < s.len()
    &&& forall|k: int| 0 <= k < s.len() ==> s[k] <= s[i]
    &&& forall|k: int| 0 <= k < i ==> s[k] < s[i]
}

/// The first argmax of a sequence is unique, so a reducer whose result
/// satisfies `is_first_argmax` has its peak position pinned by the
/// magnitudes alone.
pub proof fn lemma_first_argmax_unique(s: Seq<u64>, i: int, j: int)
    requires
        is_first_argmax(s, i),
        is_first_argmax(s, j),
    ensures
        i == j,
{
    if i < j {
        assert(s[i] < s[j]);
        assert(s[j] <= s[i]);
    }
    if j < i {
        assert(s[j] < s[i]);
        assert(s[i] <= s[j]);
    }
}

/// Replacing every magnitude in a row by its image under a strictly
/// order-preserving map leaves the peak position unchanged: if two rows of
/// equal length compare identically pairwise — as they do when one is the
/// other scaled by a non-zero constant — their first argmax is the same.
pub proof fn lemma_argmax_order_invariant(m1: Seq<u64>, m2: Seq<u64>, i: int)
    requires
        m1.len() == m2.len(),
        forall|j: int, k: int| #![trigger m1[j], m1[k]] #![trigger m2[j], m2[k]]
            0 <= j < m1.len() && 0 <= k < m1.len() ==> ((m1[j] < m1[k]) <==> (m2[j] < m2[k])),
        is_first_argmax(m1, i),
    ensures
        is_first_argmax(m2, i),
{
    assert forall|k: int| 0 <= k < m2.len() implies m2[k] <= m2[i] by {
        assert(m1[k] <= m1[i]);
        assert(!(m1[i] < m1[k]));
    }
    assert forall|k: int| 0 <= k < i implies m2[k] < m2[i] by {
        assert(m1[k] < m1[i]);
    }
}

/// Row `i` is the row the global peak search reports: the first row whose
/// peak value is maximal over the surface.
pub open spec fn is_chosen_peak_row(s: Seq<CafSurfaceRow>, i: int) -> bool {
    &&& 0 <= i < s.len()
    &&& forall|j: int| 0 <= j < s.len() ==> (#[trigger] s[j].xcor_peak_val) <= s[i].xcor_peak_val
    &&& forall|j: int| 0 <= j < i ==> (#[trigger] s[j].xcor_peak_val) < s[i].xcor_peak_val
}

/// The chosen peak row is unique, so the reported `(freq, lag)` pair is a
/// function of the surface contents alone: running the search twice on the
/// same surface yields the same answer.
pub proof fn lemma_chosen_peak_row_unique(s: Seq<CafSurfaceRow>, i: int, j: int)
    requires
        is_chosen_peak_row(s, i),
        is_chosen_peak_row(s, j),
    ensures
        i == j,
{
    if i < j {
        assert(s[i].xcor_peak_val < s[j].xcor_peak_val);
        assert(s[j].xcor_peak_val <= s[i].xcor_peak_val);
    }
    if j < i {
        assert(s[j].xcor_peak_val < s[i].xcor_peak_val);
        assert(s[i].xcor_peak_val <= s[j].xcor_peak_val);
    }
}

/// Scans a surface and returns `(freq_millihz, sample_lag)` of the row with
/// the greatest correlation peak, ties to the first such row — even when
/// every peak value is zero, the first row wins and its own frequency is
/// reported. Only an empty surface reports the fallback `(0, 0)`.
pub fn find_peak(surface: &Vec<CafSurfaceRow>) -> (r: (i64, usize))
    ensures
        surface@.len() == 0 ==> r == (0i64, 0usize),
        surface@.len() > 0 ==> exists|i: int|
            is_chosen_peak_row(surface@, i) && r.0 == surface@[i].freq_millihz && r.1
                == surface@[i].xcor_peak_idx,
{
    if surface.len() == 0 {
        return (0, 0);
    }
    let mut best_freq: i64 = surface[0].freq_millihz;
    let mut best_idx: usize = surface[0].xcor_peak_idx;
    let mut best_val: u64 = surface[0].xcor_peak_val;
    let ghost mut chosen: int = 0;
    let mut j: usize = 1;
    while j < surface.len()
        invariant
            1 <= j <= surface@.len(),
            0 <= chosen < j,
            best_val == surface@[chosen].xcor_peak_val,
            best_freq == surface@[chosen].freq_millihz,
            best_idx == surface@[chosen].xcor_peak_idx,
            forall|k: int| 0 <= k < j ==> (#[trigger] surface@[k].xcor_peak_val) <= best_val,
            forall|k: int| 0 <= k < chosen ==> (#[trigger] surface@[k].xcor_peak_val) < best_val,
        decreases surface@.len() - j,
    {
        if surface[j].xcor_peak_val > best_val {
            best_val = surface[j].xcor_peak_val;
            best_freq = surface[j].freq_millihz;
            best_idx = surface[j].xcor_peak_idx;
            proof {
                chosen = j as int;
            }
        }
        j = j + 1;
    }
    proof {
        assert(is_chosen_peak_row(surface@, chosen));
    }
    (best_freq, best_idx)
}

/// The two-dimensional surface holds at least one element.
pub open spec fn has_sample_2d(arr: Seq<Vec<Cpx>>) -> bool {
    exists|i: int| 0 <= i < arr.len() && (#[trigger] arr[i]@.len()) > 0
}

/// `(i, j)` is the position the two-dimensional argmax reports: the first
/// position, in row-major order, whose magnitude is maximal.
pub open spec fn is_first_argmax_2d(arr: Seq<Vec<Cpx>>, i: int, j: int) -> bool {
    &&& 0 <= i < arr.len()
    &&& 0 <= j < arr[i]@.len()
    &&& forall|k: int, l: int|
        0 <= k < arr.len() && 0 <= l < arr[k]@.len() ==> (#[trigger] mag_sq_of(arr[k]@[l]))
            <= mag_sq_of(arr[i]@[j])
    &&& forall|k: int, l: int|
        0 <= k < arr.len() && 0 <= l < arr[k]@.len() && (k < i || (k == i && l < j)) ==> (
        #[trigger] mag_sq_of(arr[k]@[l])) < mag_sq_of(arr[i]@[j])
}

/// Row-major argmax of magnitude over a two-dimensional complex surface.
/// Ties resolve to the earliest position, zero magnitudes included; only a
/// surface with no element at all reports the fallback `(0, 0)`.
pub fn find_2d_peak(arr: &Vec<Vec<Cpx>>) -> (r: (usize, usize))
    ensures
        !has_sample_2d(arr@) ==> r == (0usize, 0usize),
        has_sample_2d(arr@) ==> exists|i: int, j: int|
            is_first_argmax_2d(arr@, i, j) && r.0 == i && r.1 == j,
{
    let mut best_i: usize = 0;
    let mut best_j: usize = 0;
    let mut best_val: u64 = 0;
    let mut seen: bool = false;
    let ghost mut ci: int = -1;
    let ghost mut cj: int = -1;
    let mut i: usize = 0;
    while i < arr.len()
        invariant
            i <= arr@.len(),
            seen <==> ci >= 0,
            !seen ==> best_i == 0 && best_j == 0 && ci == -1 && cj == -1 && forall|k: int|
                0 <= k < i ==> (#[trigger] arr@[k]@.len()) == 0,
            seen ==> {
                &&& 0 <= ci < i
                &&& 0 <= cj < arr@[ci]@.len()
                &&& best_i == ci && best_j == cj
                &&& best_val == mag_sq_of(arr@[ci]@[cj])
                &&& forall|k: int, l: int|
                    0 <= k < i && 0 <= l < arr@[k]@.len() ==> (#[trigger] mag_sq_of(arr@[k]@[l]))
                        <= best_val
                &&& forall|k: int, l: int|
                    0 <= k < i && 0 <= l < arr@[k]@.len() && (k < ci || (k == ci && l < cj)) ==> (
                    #[trigger] mag_sq_of(arr@[k]@[l])) < best_val
            },
        decreases arr@.len() - i,
    {
        let row = &arr[i];
        let mut j: usize = 0;
        while j < row.len()
            invariant
                0 <= i < arr@.len(),
                j <= row@.len(),
                row@ == arr@[i as int]@,
                seen <==> ci >= 0,
                !seen ==> best_i == 0 && best_j == 0 && ci == -1 && cj == -1 && j == 0 && forall|
                    k: int,
                |
                    0 <= k < i ==> (#[trigger] arr@[k]@.len()) == 0,
                seen ==> {
                    &&& (0 <= ci < i || (ci == i && 0 <= cj < j))
                    &&& 0 <= cj < arr@[ci]@.len()
                    &&& best_i == ci && best_j == cj
                    &&& best_val == mag_sq_of(arr@[ci]@[cj])
                    &&& forall|k: int, l: int|
                        0 <= k < i && 0 <= l < arr@[k]@.len() ==> (#[trigger] mag_sq_of(
                            arr@[k]@[l],
                        )) <= best_val
                    &&& forall|l: int|
                        0 <= l < j ==> (#[trigger] mag_sq_of(arr@[i as int]@[l])) <= best_val
                    &&& forall|k: int, l: int|
                        0 <= k < arr@.len() && 0 <= l < arr@[k]@.len() && (k < ci || (k == ci && l
                            < cj)) ==> (#[trigger] mag_sq_of(arr@[k]@[l])) < best_val
                },
            decreases row@.len() - j,
        {
            let m = crate::cmath::mag_sq(row[j]);
            if !seen || m > best_val {
                best_val = m;
                best_i = i;
                best_j = j;
                seen = true;
                proof {
                    ci = i as int;
                    cj = j as int;
                }
            }
            j = j + 1;
        }
        i = i + 1;
    }
    proof {
        if ci >= 0 {
            assert(is_first_argmax_2d(arr@, ci, cj));
        }
    }
    (best_i, best_j)
}

} // verus!
