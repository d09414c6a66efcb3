//! Splitting the chunk sequence into the overlapping windows that feed the
//! middle segments: window `j` starts at `j * (step - overlap)` and runs for
//! at most `step` chunks, so consecutive windows share exactly `overlap`
//! chunks and the scroll stays visually continuous across a segment cut.

use vstd::prelude::*;
use vstd::math::*;
use vstd::arithmetic::div_mod::lemma_fundamental_div_mod;
use crate::config::BigImg;
use crate::error::{Error, Kind};

verus! {

/// A contiguous index range `[start, end)` into the chunk sequence.
#[derive(Debug, Clone, Copy, PartialEq, Eq, Structural)]
pub struct Window {
    pub start: usize,
    pub end: usize,
}

/// Distance between the left edges of consecutive windows.
pub open spec fn win_stride(step: int, overlap: int) -> int {
    step - overlap
}

/// How many windows partitioning produces.
pub open spec fn win_count(len: int, step: int, overlap: int) -> int
    recommends
        0 <= overlap < step,
        overlap < len,
{
    (len - overlap - 1) / (step - overlap) + 1
}

/// Left edge of window `j`.
pub open spec fn win_start(j: int, step: int, overlap: int) -> int {
    j * win_stride(step, overlap)
}

/// Right edge of window `j`, clamped to the sequence length.
pub open spec fn win_end(j: int, len: int, step: int, overlap: int) -> int {
    min(win_start(j, step, overlap) + step, len)
}

/// The whole window sequence over `len` chunks.
pub open spec fn windows_spec(len: int, step: int, overlap: int) -> Seq<Window>
    recommends
        0 <= overlap < step,
        overlap < len,
        len <= u32::MAX,
{
    Seq::new(
        win_count(len, step, overlap) as nat,
        |j: int|
            Window {
                start: win_start(j, step, overlap) as usize,
                end: win_end(j, len, step, overlap) as usize,
            },
    )
}

impl BigImg {
    /// Splits the chunk sequence into the ordered overlapping windows.
    ///
    /// Fails explicitly when the sequence is no longer than `overlap` (there
    /// is nothing to scroll) or when `step` does not exceed `overlap` (the
    /// windows could never advance).
    pub fn divide(&self) -> (r: Result<Vec<Window>, Error>)
        requires
            self.chunks@.len() <= u32::MAX,
        ensures
            r is Ok <==> (self.overlap < self.step && (self.overlap as int)
                < self.chunks@.len()),
            r matches Ok(ws) ==> ws@ == windows_spec(
                self.chunks@.len() as int,
                self.step as int,
                self.overlap as int,
            ),
            r matches Err(e) ==> e.kind == Kind::Other,
    {
        let len = self.chunks.len();
        if self.step <= self.overlap {
            return Err(Error::new(Kind::Other, "step does not exceed overlap"));
        }
        if len <= self.overlap as usize {
            return Err(Error::new(Kind::Other, "no more chunks than the screen already shows"));
        }
        let ghost glen = len as int;
        let ghost gstep = self.step as int;
        let ghost gover = self.overlap as int;
        let ghost gstride = win_stride(gstep, gover);
        let bound = len - self.overlap as usize;
        let stride = (self.step - self.overlap) as usize;
        let step_us = self.step as usize;
        let mut ws: Vec<Window> = Vec::new();
        let mut i: usize = 0;
        proof {
            assert(ws@.len() as int * gstride == 0) by (nonlinear_arith)
                requires
                    ws@.len() == 0,
            ;
        }
        while i < bound
            invariant
                glen == len as int,
                gstep == self.step as int,
                gover == self.overlap as int,
                gstride == gstep - gover,
                0 <= gover < gstep,
                gover < glen <= u32::MAX,
                bound == glen - gover,
                stride as int == gstride,
                step_us as int == gstep,
                i as int == min(ws@.len() as int * gstride, glen - gover),
                ws@.len() > 0 ==> (ws@.len() - 1) * gstride < glen - gover,
                forall|k: int|
                    0 <= k < ws@.len() ==> (#[trigger] ws@[k]).start as int == win_start(
                        k,
                        gstep,
                        gover,
                    ) && ws@[k].end as int == win_end(k, glen, gstep, gover),
            decreases glen - gover - i,
        {
            let ghost n0 = ws@.len() as int;
            proof {
                assert(i as int == n0 * gstride);
                assert((n0 + 1) * gstride == n0 * gstride + gstride) by (nonlinear_arith);
            }
            let end = if len - i > step_us {
                i + step_us
            } else {
                len
            };
            ws.push(Window { start: i, end });
            i = if bound - i > stride {
                i + stride
            } else {
                bound
            };
            proof {
                assert(i as int == min((n0 + 1) * gstride, glen - gover));
            }
        }
        proof {
            let n = ws@.len() as int;
            assert(n > 0);
            assert(n * gstride >= glen - gover);
            assert((n - 1) * gstride < glen - gover);
            let d = glen - gover - 1;
            let q = d / gstride;
            lemma_fundamental_div_mod(d, gstride);
            assert((n - 1) * gstride <= d < n * gstride);
            assert(q == n - 1) by (nonlinear_arith)
                requires
                    d == q * gstride + d % gstride,
                    0 <= d % gstride < gstride,
                    (n - 1) * gstride <= d,
                    d < n * gstride,
                    gstride >= 1,
            ;
            assert(n == win_count(glen, gstep, gover));
            assert(ws@ =~= windows_spec(glen, gstep, gover));
        }
        Ok(ws)
    }
}

/// The windows jointly cover the whole sequence: the first starts at index 0,
/// the last ends at `len`, every window is non-degenerate and longer than the
/// shared `overlap`, and each consecutive pair shares exactly `overlap`
/// indices at its boundary.
pub proof fn lemma_windows_cover(len: int, step: int, overlap: int)
    requires
        0 <= overlap < step,
        overlap < len <= u32::MAX,
    ensures
        ({
            let ws = windows_spec(len, step, overlap);
            &&& ws.len() >= 1
            &&& ws[0].start == 0
            &&& ws[ws.len() - 1].end == len
            &&& forall|j: int|
                0 <= j < ws.len() ==> (#[trigger] ws[j]).start as int + overlap < ws[j].end
                    <= len && ws[j].end - ws[j].start <= step
            &&& forall|j: int|
                0 <= j < ws.len() - 1 ==> (#[trigger] ws[j]).end as int - ws[j + 1].start
                    == overlap
        }),
{
    let stride = win_stride(step, overlap);
    let n = win_count(len, step, overlap);
    let d = len - overlap - 1;
    lemma_fundamental_div_mod(d, stride);
    assert((n - 1) * stride == d - d % stride) by (nonlinear_arith)
        requires
            n == d / stride + 1,
            d == (d / stride) * stride + d % stride,
    ;
    assert(0 <= (n - 1) * stride <= d);
    assert forall|j: int| 0 <= j < n implies win_start(j, step, overlap) <= (n - 1)
        * stride by {
        assert(j * stride <= (n - 1) * stride) by (nonlinear_arith)
            requires
                j <= n - 1,
                stride >= 1,
        ;
    }
    assert forall|j: int| 0 <= j < n implies 0 <= win_start(j, step, overlap) by {
        assert(j * stride >= 0) by (nonlinear_arith)
            requires
                j >= 0,
                stride >= 1,
        ;
    }
    // the last window reaches len
    assert((n - 1) * stride + step >= len);
    // consecutive windows are never clamped except possibly the last
    assert forall|j: int| 0 <= j < n - 1 implies win_end(j, len, step, overlap) == win_start(
        j,
        step,
        overlap,
    ) + step by {
        assert((j + 1) * stride <= (n - 1) * stride) by (nonlinear_arith)
            requires
                j + 1 <= n - 1,
                stride >= 1,
        ;
        assert((j + 1) * stride == j * stride + stride) by (nonlinear_arith);
        assert(j * stride + step <= len);
    }
    assert forall|j: int| 0 <= j < n - 1 implies win_end(j, len, step, overlap) - win_start(
        j + 1,
        step,
        overlap,
    ) == overlap by {
        assert((j + 1) * stride == j * stride + stride) by (nonlinear_arith);
    }
}

/// Window `j` with the shared prefix removed: the first window keeps all its
/// indices, every later one drops the `overlap` indices it shares with its
/// predecessor.
pub open spec fn window_tail_lo(j: int, step: int, overlap: int) -> int {
    if j == 0 {
        0
    } else {
        win_start(j, step, overlap) + overlap
    }
}

/// Concatenation of the first `n` windows of `s`, shared prefixes removed.
pub open spec fn dedup_concat<A>(s: Seq<A>, step: int, overlap: int, n: int) -> Seq<A>
    decreases n,
{
    if n <= 0 {
        Seq::empty()
    } else {
        dedup_concat(s, step, overlap, n - 1) + s.subrange(
            window_tail_lo(n - 1, step, overlap),
            win_end(n - 1, s.len() as int, step, overlap),
        )
    }
}

proof fn lemma_dedup_concat_prefix<A>(s: Seq<A>, step: int, overlap: int, n: int)
    requires
        0 <= overlap < step,
        overlap < s.len() <= u32::MAX,
        1 <= n <= win_count(s.len() as int, step, overlap),
    ensures
        dedup_concat(s, step, overlap, n) == s.subrange(
            0,
            win_end(n - 1, s.len() as int, step, overlap),
        ),
    decreases n,
{
    let len = s.len() as int;
    let stride = win_stride(step, overlap);
    lemma_windows_cover(len, step, overlap);
    let ws = windows_spec(len, step, overlap);
    if n == 1 {
        assert(dedup_concat(s, step, overlap, 0) == Seq::<A>::empty());
        assert(dedup_concat(s, step, overlap, 1) =~= s.subrange(0, win_end(0, len, step, overlap)));
    } else {
        lemma_dedup_concat_prefix(s, step, overlap, n - 1);
        // the previous window is not clamped, so it ends exactly where the
        // tail of window n - 1 begins
        assert(ws[n - 2].end as int == win_end(n - 2, len, step, overlap));
        assert(win_end(n - 2, len, step, overlap) == win_start(n - 2, step, overlap) + step);
        assert((n - 1) * stride == (n - 2) * stride + stride) by (nonlinear_arith);
        assert(win_end(n - 2, len, step, overlap) == window_tail_lo(n - 1, step, overlap));
        assert(dedup_concat(s, step, overlap, n) =~= s.subrange(
            0,
            win_end(n - 1, len, step, overlap),
        ));
    }
}

/// Partitioning loses nothing and repeats only the shared boundaries: the
/// windows, each with the `overlap` chunks it shares with its predecessor
/// removed, concatenate back to exactly the input sequence.
pub proof fn lemma_windows_reconstruct<A>(s: Seq<A>, step: int, overlap: int)
    requires
        0 <= overlap < step,
        overlap < s.len() <= u32::MAX,
    ensures
        dedup_concat(s, step, overlap, win_count(s.len() as int, step, overlap)) == s,
{
    let len = s.len() as int;
    let n = win_count(len, step, overlap);
    lemma_windows_cover(len, step, overlap);
    lemma_dedup_concat_prefix(s, step, overlap, n);
    assert(windows_spec(len, step, overlap)[n - 1].end as int == win_end(
        n - 1,
        len,
        step,
        overlap,
    ));
    assert(s.subrange(0, len) =~= s);
}

} // verus!
