//! The visible window of a sample buffer and the points drawn from it.
use vstd::prelude::*;
use crate::coord::PlotCoord;

verus! {

/// The buffer index that a left plot bound `min` points at: the bound
/// truncated to an index when it is above `0`, else `0`.
pub open spec fn start_index(min: PlotCoord) -> int {
    if min.is_above(0) {
        min.trunc_index() as int
    } else {
        0
    }
}

/// End (exclusive) of the window whose right plot bound is `max`, in a buffer
/// of `len` samples: the bound truncated to an index when it lies strictly
/// between `1` and `len`, else `len`.
pub open spec fn window_end(max: PlotCoord, len: nat) -> int {
    if max.is_below(len as int) && max.is_above(1) {
        max.trunc_index() as int
    } else {
        len as int
    }
}

/// First buffer index of the window between the plot bounds `min` and `max`
/// in a buffer of `len` samples: the index that `min` points at, held at the
/// window's end so that the window stays within the buffer.
pub open spec fn window_start(min: PlotCoord, max: PlotCoord, len: nat) -> int {
    let s = start_index(min);
    let e = window_end(max, len);
    if s <= e {
        s
    } else {
        e
    }
}

/// Stride between drawn samples for a window of `n` samples: every tenth
/// sample above 50 000, every fourth above 10 000, else every sample.
pub open spec fn sample_step(n: int) -> int {
    if n > 50_000 {
        10
    } else if n > 10_000 {
        4
    } else {
        1
    }
}

/// The range `[a, b)` of a buffer of `len` samples that is drawn for the
/// window `[start, end)`, and the stride between drawn samples: the whole
/// buffer when the window is empty, with the stride of the window's size.
pub open spec fn plot_span_spec(start: int, end: int, len: int) -> (int, int, int) {
    let n = end - start;
    if n == 0 {
        (0, len, sample_step(n))
    } else {
        (start, end, sample_step(n))
    }
}

/// `points` are the samples of `contents` at `a`, `a + step`, `a + 2 * step`,
/// ... that lie below `b`, each with its index, in that order.
pub open spec fn is_strided_sampling(
    points: Seq<(usize, i16)>,
    contents: Seq<i16>,
    a: int,
    b: int,
    step: int,
) -> bool {
    &&& forall|k: int|
        #![trigger points[k]]
        0 <= k < points.len() ==> {
            &&& points[k].0 == a + k * step
            &&& points[k].0 < b
            &&& points[k].1 == contents[points[k].0 as int]
        }
    &&& a + points.len() * step >= b
}

/// The samples drawn for the window `[start, end)` of `contents`: those of
/// `plot_span_spec`, with their indices.
pub open spec fn is_plotted_window(
    points: Seq<(usize, i16)>,
    contents: Seq<i16>,
    start: int,
    end: int,
) -> bool {
    let (a, b, step) = plot_span_spec(start, end, contents.len() as int);
    is_strided_sampling(points, contents, a, b, step)
}

proof fn lemma_next_stride(a: int, k: int, step: int)
    ensures
        a + (k + 1) * step == a + k * step + step,
{
    assert((k + 1) * step == k * step + step) by (nonlinear_arith);
}

/// The strided sampling of a range is one sequence: two that both meet
/// `is_strided_sampling` for the same buffer, range and stride are equal.
pub proof fn lemma_strided_sampling_unique(
    p: Seq<(usize, i16)>,
    q: Seq<(usize, i16)>,
    contents: Seq<i16>,
    a: int,
    b: int,
    step: int,
)
    requires
        step >= 1,
        is_strided_sampling(p, contents, a, b, step),
        is_strided_sampling(q, contents, a, b, step),
    ensures
        p == q,
{
    if p.len() < q.len() {
        let k = p.len() as int;
        assert(q[k].0 < b);
    } else if q.len() < p.len() {
        let k = q.len() as int;
        assert(p[k].0 < b);
    }
    assert(p.len() == q.len());
    assert forall|k: int| 0 <= k < p.len() implies p[k] == q[k] by {
        assert(p[k].0 == q[k].0);
    }
    assert(p =~= q);
}

/// The points drawn for a window depend on the samples and the window alone:
/// any two point sequences drawn for the same window of the same samples are
/// equal, whichever buffer type drew them.
pub proof fn lemma_plotted_window_unique(
    p: Seq<(usize, i16)>,
    q: Seq<(usize, i16)>,
    contents: Seq<i16>,
    start: int,
    end: int,
)
    requires
        is_plotted_window(p, contents, start, end),
        is_plotted_window(q, contents, start, end),
    ensures
        p == q,
{
    let (a, b, step) = plot_span_spec(start, end, contents.len() as int);
    lemma_strided_sampling_unique(p, q, contents, a, b, step);
}

/// With a plot bound that stands for a real number, the index the window
/// starts from is the bound's index (`0` for bounds at or below zero); and
/// the window ends at the right bound's index whenever that bound lies
/// strictly between `1` and the buffer's length.
pub proof fn lemma_window_follows_indices(min: PlotCoord, max: PlotCoord, len: nat)
    requires
        min.is_real(),
    ensures
        start_index(min) == min.trunc_index(),
        max.is_below(len as int) && max.is_above(1) ==> window_end(max, len)
            == max.trunc_index(),
{
}

/// Where the window ends, read off the right plot bound `x` alone: at the
/// buffer's end when `x` is at or past it (`x >= len`) or at or below `1`, and
/// at `x` truncated when `1 < x < len`; never past the buffer's end.
pub proof fn lemma_window_end_follows_right_bound(max: PlotCoord, len: nat)
    ensures
        max.floor >= len ==> window_end(max, len) == len,
        max.ceil <= 1 ==> window_end(max, len) == len,
        max.floor < len && max.ceil > 1 ==> window_end(max, len) == max.trunc_index(),
        0 <= window_end(max, len) <= len,
{
}

/// Where the window starts, read off the left plot bound `x`: at `0` when
/// `x <= 0`, at `x` truncated when that index is not past the window's end,
/// and at the window's end otherwise.
pub proof fn lemma_window_start_follows_left_bound(min: PlotCoord, max: PlotCoord, len: nat)
    ensures
        min.ceil <= 0 ==> window_start(min, max, len) == 0,
        min.ceil > 0 && min.trunc_index() <= window_end(max, len) ==> window_start(min, max, len)
            == min.trunc_index(),
        min.ceil > 0 && min.trunc_index() > window_end(max, len) ==> window_start(min, max, len)
            == window_end(max, len),
        0 <= window_start(min, max, len) <= window_end(max, len) <= len,
{
}

/// The points drawn for a window `[start, end)` of `contents`, read off their
/// indices: every tenth sample from `start` for a window of more than 50 000
/// samples, every fourth for more than 10 000, every sample for a smaller
/// non-empty window, and every sample of the buffer for an empty window; in
/// each case up to the end of the range and no further.
pub proof fn lemma_plotted_stride(
    points: Seq<(usize, i16)>,
    contents: Seq<i16>,
    start: int,
    end: int,
)
    requires
        0 <= start <= end <= contents.len(),
        is_plotted_window(points, contents, start, end),
    ensures
        end - start > 50_000 ==> {
            &&& forall|k: int| 0 <= k < points.len() ==> #[trigger] points[k].0 == start + 10 * k
                && points[k].0 < end
            &&& start + 10 * points.len() >= end
        },
        10_000 < end - start <= 50_000 ==> {
            &&& forall|k: int| 0 <= k < points.len() ==> #[trigger] points[k].0 == start + 4 * k
                && points[k].0 < end
            &&& start + 4 * points.len() >= end
        },
        0 < end - start <= 10_000 ==> points.len() == end - start && forall|k: int|
            0 <= k < points.len() ==> #[trigger] points[k].0 == start + k,
        end == start ==> points.len() == contents.len() && forall|k: int|
            0 <= k < points.len() ==> #[trigger] points[k].0 == k,
        forall|k: int| 0 <= k < points.len() ==> #[trigger] points[k].1 == contents[points[k].0 as int],
{
    let n = end - start;
    if n > 50_000 {
        assert forall|k: int| 0 <= k < points.len() implies #[trigger] points[k].0 == start + 10 * k
            && points[k].0 < end by {
            assert(k * 10 == 10 * k);
        }
        assert(points.len() * 10 == 10 * points.len());
    } else if n > 10_000 {
        assert forall|k: int| 0 <= k < points.len() implies #[trigger] points[k].0 == start + 4 * k
            && points[k].0 < end by {
            assert(k * 4 == 4 * k);
        }
        assert(points.len() * 4 == 4 * points.len());
    } else if n > 0 {
        assert forall|k: int| 0 <= k < points.len() implies #[trigger] points[k].0 == start + k by {
            assert(k * 1 == k);
        }
        assert(points.len() * 1 == points.len());
        if points.len() > n {
            assert(points[n].0 < end);
        }
    } else {
        assert forall|k: int| 0 <= k < points.len() implies #[trigger] points[k].0 == k by {
            assert(k * 1 == k);
        }
        assert(points.len() * 1 == points.len());
        if points.len() > contents.len() {
            assert(points[contents.len() as int].0 < contents.len());
        }
    }
}

/// The window `[start, end)` of a buffer of `len` samples seen between the plot
/// bounds `min` and `max`, within the buffer.
pub fn window_range(min: &PlotCoord, max: &PlotCoord, len: usize) -> (r: (usize, usize))
    ensures
        r.0 == window_start(*min, *max, len as nat),
        r.1 == window_end(*max, len as nat),
        r.0 <= r.1 <= len,
        max.floor >= len ==> r.1 == len,
        max.ceil <= 1 ==> r.1 == len,
        max.floor < len && max.ceil > 1 ==> r.1 == max.trunc_index(),
        min.ceil <= 0 ==> r.0 == 0,
        min.ceil > 0 && min.trunc_index() <= r.1 ==> r.0 == min.trunc_index(),
        min.ceil > 0 && min.trunc_index() > r.1 ==> r.0 == r.1,
{
    let start: usize = if min.ceil > 0 {
        min.to_index()
    } else {
        0
    };
    let end: usize = if max.floor < len as i128 && max.ceil > 1 {
        max.to_index()
    } else {
        len
    };
    if start <= end {
        (start, end)
    } else {
        (end, end)
    }
}

/// The range drawn for the window between the plot bounds `min` and `max`
/// of a buffer of `len` samples, and the stride between drawn samples.
pub fn plot_span(min: &PlotCoord, max: &PlotCoord, len: usize) -> (r: (usize, usize, usize))
    ensures
        (r.0 as int, r.1 as int, r.2 as int) == plot_span_spec(
            window_start(*min, *max, len as nat),
            window_end(*max, len as nat),
            len as int,
        ),
        r.0 <= r.1 <= len,
        1 <= r.2 <= 10,
        window_end(*max, len as nat) - window_start(*min, *max, len as nat) > 50_000 ==> r.2 == 10,
        10_000 < window_end(*max, len as nat) - window_start(*min, *max, len as nat) <= 50_000
            ==> r.2 == 4,
        window_end(*max, len as nat) - window_start(*min, *max, len as nat) <= 10_000 ==> r.2 == 1,
{
    let (start, end): (usize, usize) = window_range(min, max, len);
    let n_samples: usize = end - start;
    let step: usize = if n_samples > 50_000 {
        10
    } else if n_samples > 10_000 {
        4
    } else {
        1
    };
    if n_samples == 0 {
        (0, len, step)
    } else {
        (start, end, step)
    }
}

/// The samples of `contents` at `a`, `a + step`, ... below `b`, with their
/// indices.
pub fn strided_samples(contents: &Vec<i16>, a: usize, b: usize, step: usize) -> (points: Vec<
    (usize, i16),
>)
    requires
        a <= b <= contents.len(),
        1 <= step,
    ensures
        is_strided_sampling(points@, contents@, a as int, b as int, step as int),
{
    let mut points: Vec<(usize, i16)> = Vec::new();
    if a == b {
        return points;
    }
    let mut i: usize = a;
    assert(points.len() * step == 0) by (nonlinear_arith)
        requires
            points.len() == 0,
    ;
    loop
        invariant_except_break
            a <= i < b,
            i == a + points.len() * step,
        invariant
            b <= contents.len(),
            1 <= step,
            forall|k: int|
                #![trigger points@[k]]
                0 <= k < points.len() ==> {
                    &&& points@[k].0 == a + k * step
                    &&& points@[k].0 < b
                    &&& points@[k].1 == contents@[points@[k].0 as int]
                },
        ensures
            a + points.len() * step >= b,
        decreases b - i,
    {
        proof {
            lemma_next_stride(a as int, points.len() as int, step as int);
        }
        points.push((i, contents[i]));
        if b - i > step {
            i = i + step;
        } else {
            break;
        }
    }
    points
}

/// The points drawn for the window between the plot bounds `min` and `max`.
pub fn plot_samples(contents: &Vec<i16>, min: &PlotCoord, max: &PlotCoord) -> (points: Vec<
    (usize, i16),
>)
    ensures
        is_plotted_window(
            points@,
            contents@,
            window_start(*min, *max, contents.len() as nat),
            window_end(*max, contents.len() as nat),
        ),
        window_end(*max, contents.len() as nat) - window_start(*min, *max, contents.len() as nat) > 50_000 ==> (forall|k: int| 0 <= k < points@.len() ==> #[trigger] points@[k].0 == window_start(*min, *max, contents.len() as nat) + 10 * k)
            && window_start(*min, *max, contents.len() as nat) + 10 * points@.len() >= window_end(*max, contents.len() as nat),
        10_000 < window_end(*max, contents.len() as nat) - window_start(*min, *max, contents.len() as nat) <= 50_000 ==> (forall|k: int| 0 <= k < points@.len() ==> #[trigger] points@[k].0 == window_start(*min, *max, contents.len() as nat) + 4 * k)
            && window_start(*min, *max, contents.len() as nat) + 4 * points@.len() >= window_end(*max, contents.len() as nat),
        0 < window_end(*max, contents.len() as nat) - window_start(*min, *max, contents.len() as nat) <= 10_000 ==> points@.len() == window_end(*max, contents.len() as nat) - window_start(*min, *max, contents.len() as nat) && forall|k: int| 0 <= k < points@.len() ==> #[trigger] points@[k].0 == window_start(*min, *max, contents.len() as nat) + k,
        window_end(*max, contents.len() as nat) == window_start(*min, *max, contents.len() as nat) ==> points@.len() == contents@.len() && forall|k: int| 0 <= k < points@.len() ==> #[trigger] points@[k].0 == k,
        forall|k: int| 0 <= k < points@.len() ==> #[trigger] points@[k].1 == contents@[points@[k].0 as int] && points@[k].0 < contents@.len(),
{
    let (a, b, step): (usize, usize, usize) = plot_span(min, max, contents.len());
    let points = strided_samples(contents, a, b, step);
    proof {
        lemma_plotted_stride(points@, contents@, window_start(*min, *max, contents.len() as nat), window_end(*max, contents.len() as nat));
    }
    points
}

/// The samples of the window between the plot bounds `min` and `max`.
pub fn window_samples(contents: &Vec<i16>, min: &PlotCoord, max: &PlotCoord) -> (w: Vec<i16>)
    ensures
        w@ == contents@.subrange(
            window_start(*min, *max, contents.len() as nat),
            window_end(*max, contents.len() as nat),
        ),
{
    let (start, end): (usize, usize) = window_range(min, max, contents.len());
    let mut w: Vec<i16> = Vec::new();
    let mut i: usize = start;
    while i < end
        invariant
            start <= i <= end <= contents.len(),
            w@ == contents@.subrange(start as int, i as int),
        decreases end - i,
    {
        w.push(contents[i]);
        i = i + 1;
    }
    w
}

} // verus!
