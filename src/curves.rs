//! Piecewise parametric curves over a normalized time in `[0, 1]`.
//!
//! A curve time is the bit pattern of a binary32 number (see `binary32`).
//! This module owns the layout of a curve and the choice of the segment that
//! covers a time; blending the two ends of that segment is left to the
//! arithmetic of the point type.
use crate::binary32::{clamp, clamp_to, is_nan, rank, ONE, ZERO};
use vstd::prelude::*;

verus! {

/// A straight segment between two points.
#[derive(Clone, Copy, Debug)]
pub struct LinearSegment<P> {
    pub start: P,
    pub end: P,
}

impl<P> LinearSegment<P> {
    pub fn new(start: P, end: P) -> (r: Self)
        ensures
            r.start == start,
            r.end == end,
    {
        LinearSegment { start, end }
    }
}

/// The start times of a sequence of timed segments.
pub open spec fn starts_of<P>(segments: Seq<(u32, LinearSegment<P>)>) -> Seq<u32> {
    segments.map_values(|s: (u32, LinearSegment<P>)| s.0)
}

/// Start times that are not NaN and strictly increase.
pub open spec fn strictly_increasing(starts: Seq<u32>) -> bool {
    &&& forall|i: int| 0 <= i < starts.len() ==> !is_nan(#[trigger] starts[i])
    &&& forall|i: int, j: int|
        0 <= i < j < starts.len() ==> rank(#[trigger] starts[i]) < rank(#[trigger] starts[j])
}

/// Segment `i` is the one that covers time `t`: its start is the greatest
/// start not after `t`, or it is the first segment when every start lies
/// after `t`.
pub open spec fn covers(starts: Seq<u32>, i: int, t: u32) -> bool {
    &&& 0 <= i < starts.len()
    &&& (i == 0 || rank(starts[i]) <= rank(t))
    &&& (i + 1 == starts.len() || rank(t) < rank(starts[i + 1]))
}

/// A piecewise-linear curve: segments in order of their start time. The last
/// segment reaches on to time 1.
pub struct LinearParamCurve<P> {
    segments: Vec<(u32, LinearSegment<P>)>,
}

impl<P> View for LinearParamCurve<P> {
    type V = Seq<(u32, LinearSegment<P>)>;

    closed spec fn view(&self) -> Self::V {
        self.segments@
    }
}

impl<P: Copy> LinearParamCurve<P> {
    /// Holds at least one segment.
    pub open spec fn wf(&self) -> bool {
        self@.len() >= 1
    }

    /// The start times of the segments.
    pub open spec fn starts(&self) -> Seq<u32> {
        starts_of(self@)
    }

    /// A curve from raw segments `(start time, first point, last point)`.
    pub fn new(segments: Vec<(u32, P, P)>) -> (r: Self)
        requires
            segments.len() >= 1,
        ensures
            r.wf(),
            r@.len() == segments.len(),
            forall|i: int|
                0 <= i < segments.len() ==> #[trigger] r@[i] == (
                segments[i].0,
                LinearSegment { start: segments[i].1, end: segments[i].2 },
            ),
    {
        let mut out: Vec<(u32, LinearSegment<P>)> = Vec::new();
        let mut i: usize = 0;
        while i < segments.len()
            invariant
                i <= segments.len(),
                out@.len() == i,
                forall|k: int|
                    0 <= k < i ==> #[trigger] out@[k] == (
                    segments[k].0,
                    LinearSegment { start: segments[k].1, end: segments[k].2 },
                ),
            decreases segments.len() - i,
        {
            let (t, p1, p2) = segments[i];
            out.push((t, LinearSegment::new(p1, p2)));
            i += 1;
        }
        LinearParamCurve { segments: out }
    }

    /// A continuous curve through timed points `(time, point)`: segment `i`
    /// starts at point `i`'s time and joins point `i` to point `i + 1`. The
    /// time of the last point is not used: the last segment reaches time 1.
    pub fn continuous(points: Vec<(u32, P)>) -> (r: Self)
        requires
            points.len() >= 2,
        ensures
            r.wf(),
            r@.len() == points.len() - 1,
            forall|i: int|
                0 <= i < points.len() - 1 ==> #[trigger] r@[i] == (
                points[i].0,
                LinearSegment { start: points[i].1, end: points[i + 1].1 },
            ),
    {
        let mut out: Vec<(u32, LinearSegment<P>)> = Vec::new();
        let mut i: usize = 0;
        while i < points.len() - 1
            invariant
                2 <= points.len(),
                i <= points.len() - 1,
                out@.len() == i,
                forall|k: int|
                    0 <= k < i ==> #[trigger] out@[k] == (
                    points[k].0,
                    LinearSegment { start: points[k].1, end: points[k + 1].1 },
                ),
            decreases points.len() - 1 - i,
        {
            let (t, p1) = points[i];
            let (_, p2) = points[i + 1];
            out.push((t, LinearSegment::new(p1, p2)));
            i += 1;
        }
        LinearParamCurve { segments: out }
    }

    /// The number of segments.
    pub fn segment_count(&self) -> (r: usize)
        ensures
            r == self@.len(),
    {
        self.segments.len()
    }

    /// The start time of segment `segment_idx`.
    pub fn segment_start(&self, segment_idx: usize) -> (r: u32)
        requires
            segment_idx < self@.len(),
        ensures
            r == self@[segment_idx as int].0,
    {
        self.segments[segment_idx].0
    }

    /// Segment `segment_idx`.
    pub fn segment(&self, segment_idx: usize) -> (r: &LinearSegment<P>)
        requires
            segment_idx < self@.len(),
        ensures
            *r == self@[segment_idx as int].1,
    {
        &self.segments[segment_idx].1
    }

    /// Clamps `t` to `[0, 1]` and finds the segment that covers it, by
    /// binary search over the start times. Returns the segment's index and
    /// the clamped time. The index is always a segment of the curve; when the
    /// start times strictly increase it is the covering one.
    pub fn locate(&self, t: u32) -> (r: (usize, u32))
        requires
            self.wf(),
            !is_nan(t),
        ensures
            r.1 == clamp(t, ZERO, ONE),
            r.0 < self@.len(),
            strictly_increasing(self.starts()) ==> covers(self.starts(), r.0 as int, r.1),
    {
        let t = clamp_to(t, ZERO, ONE);
        let ghost starts = self.starts();
        let tr = crate::binary32::rank_of(t);
        let n = self.segments.len();
        // `lo` and `hi` bracket the first start that lies after `t`.
        let mut lo: usize = 0;
        let mut hi: usize = n;
        while lo < hi
            invariant
                0 <= lo <= hi <= n,
                n == self@.len(),
                starts == self.starts(),
                tr == rank(t),
                strictly_increasing(starts) ==> forall|j: int|
                    0 <= j < lo ==> rank(#[trigger] starts[j]) <= tr,
                strictly_increasing(starts) ==> forall|j: int|
                    hi <= j < n ==> tr < rank(#[trigger] starts[j]),
            decreases hi - lo,
        {
            let mid = lo + (hi - lo) / 2;
            let s = crate::binary32::rank_of(self.segments[mid].0);
            assert(starts[mid as int] == self@[mid as int].0);
            if s <= tr {
                proof {
                    if strictly_increasing(starts) {
                        assert forall|j: int| 0 <= j <= mid implies rank(#[trigger] starts[j])
                            <= tr by {
                            if j < mid {
                                assert(rank(starts[j]) < rank(starts[mid as int]));
                            }
                        }
                    }
                }
                lo = mid + 1;
            } else {
                proof {
                    if strictly_increasing(starts) {
                        assert forall|j: int| mid <= j < n implies tr < rank(
                            #[trigger] starts[j],
                        ) by {
                            if j > mid {
                                assert(rank(starts[mid as int]) < rank(starts[j]));
                            }
                        }
                    }
                }
                hi = mid;
            }
        }
        let idx = if lo == 0 {
            0
        } else {
            lo - 1
        };
        proof {
            if strictly_increasing(starts) {
                if idx > 0 {
                    assert(rank(starts[idx as int]) <= tr);
                }
                if idx + 1 < n {
                    assert(idx + 1 >= lo);
                    assert(tr < rank(starts[idx + 1]));
                }
            }
        }
        (idx, t)
    }
}

/// On a curve whose start times strictly increase, and whose first segment
/// starts at time 0, time 0 is covered by the first segment; when
/// the last segment starts at or before time 1, time 1 is covered by the last
/// segment.
pub proof fn lemma_ends_covered_by_first_and_last(starts: Seq<u32>, i: int, j: int)
    requires
        strictly_increasing(starts),
        starts.len() >= 1,
        rank(starts[0]) == rank(ZERO),
        rank(starts[starts.len() - 1]) <= rank(ONE),
        covers(starts, i, ZERO),
        covers(starts, j, ONE),
    ensures
        i == 0,
        j == starts.len() - 1,
{
    if i > 0 {
        assert(rank(starts[0]) < rank(starts[i]));
    }
    if j + 1 < starts.len() {
        assert(rank(starts[j + 1]) <= rank(starts[starts.len() - 1]));
    }
}

/// The covering segment is unique: on strictly increasing start times, at
/// most one segment covers a given time.
pub proof fn lemma_cover_unique(starts: Seq<u32>, t: u32, i: int, j: int)
    requires
        strictly_increasing(starts),
        covers(starts, i, t),
        covers(starts, j, t),
    ensures
        i == j,
{
    if i < j {
        assert(rank(starts[i + 1]) <= rank(starts[j]));
    } else if j < i {
        assert(rank(starts[j + 1]) <= rank(starts[i]));
    }
}

/// A curve with one value at every time.
#[derive(Clone, Copy, Debug)]
pub struct ConstantParamCurve<P> {
    val: P,
}

impl<P: Copy> ConstantParamCurve<P> {
    /// The value the curve holds.
    pub closed spec fn spec_value(&self) -> P {
        self.val
    }

    pub fn new(val: P) -> (r: Self)
        ensures
            r.spec_value() == val,
    {
        ConstantParamCurve { val }
    }

    /// The curve's value, whatever the time.
    pub fn value(&self) -> (r: P)
        ensures
            r == self.spec_value(),
    {
        self.val
    }
}

/// The kinds of curve, as a closed choice.
pub enum ParamCurve<P> {
    Linear(LinearParamCurve<P>),
    Constant(ConstantParamCurve<P>),
}

impl<P: Copy> ParamCurve<P> {
    /// A continuous linear curve through timed points.
    pub fn linear(points: Vec<(u32, P)>) -> (r: Self)
        requires
            points.len() >= 2,
        ensures
            r is Linear,
            r->Linear_0.wf(),
            r->Linear_0@.len() == points.len() - 1,
            forall|i: int|
                0 <= i < points.len() - 1 ==> #[trigger] r->Linear_0@[i] == (
                points[i].0,
                LinearSegment { start: points[i].1, end: points[i + 1].1 },
            ),
    {
        ParamCurve::Linear(LinearParamCurve::continuous(points))
    }

    /// A curve that holds `val` at every time.
    pub fn constant(val: P) -> (r: Self)
        ensures
            r is Constant,
            r->Constant_0.spec_value() == val,
    {
        ParamCurve::Constant(ConstantParamCurve::new(val))
    }
}

} // verus!
