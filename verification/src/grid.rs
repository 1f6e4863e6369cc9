//! Shift-grid generation.
//!
//! Grids are held in integer millihertz so that stepping over thousands of
//! points accumulates no floating-point error and every grid is reproducible.
//! Callers convert a frequency in hertz to millihertz by rounding `f * 1000`.

use vstd::prelude::*;

verus! {

/// The half-open arithmetic progression `start, start + step, ...` below
/// `end`, in millihertz.
///
/// The result is pinned exactly: element `i` is `start + i*step`, the whole
/// progression stays below `end`, and one more step would reach `end` or
/// beyond.
pub fn gen_shifts_millihz(start: i64, end: i64, step: i64) -> (r: Vec<i64>)
    requires
        1 <= step,
        end <= i64::MAX - step,
    ensures
        forall|i: int| 0 <= i < r@.len() ==> r@[i] == start + i * step,
        r@.len() >= 1 ==> r@[r@.len() - 1] < end,
        start + r@.len() * step >= end,
        start < end ==> r@.len() >= 1,
        start >= end ==> r@.len() == 0,
{
    let mut out: Vec<i64> = Vec::new();
    let mut cur: i64 = start;
    proof {
        assert(start + 0 * step == start) by (nonlinear_arith);
    }
    while cur < end
        invariant
            1 <= step,
            end <= i64::MAX - step,
            cur == start + out@.len() * step,
            forall|i: int| 0 <= i < out@.len() ==> out@[i] == start + i * step,
            out@.len() >= 1 ==> out@[out@.len() - 1] < end,
            start <= cur,
        decreases end + step - cur,
    {
        out.push(cur);
        proof {
            let n = out@.len() as int;
            assert(n * step == (n - 1) * step + step) by (nonlinear_arith);
        }
        cur = cur + step;
    }
    out
}

} // verus!
