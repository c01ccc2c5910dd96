//! A borrow-rate curve made of line segments between points of
//! (utilisation rate, yearly borrow rate), both in basis points.
use crate::constant::SECONDS_PER_YEAR;
use crate::interest_rate::interest_rate_per_second::{spec_from_apr, InterestRatePerSecond};
use crate::math::bps::ONE_IN_BPS;
use crate::math::fixed_ops::{i_one, trunc_div};
use crate::math::ifixed_point::{ifp, IFixedPoint};
use crate::math::safe_math::SafeMath;
use vstd::prelude::*;

verus! {

pub const POLYLINE_MAX_POINTS: usize = 8;

/// A point of the curve; a zero borrow rate marks an unused slot.
#[derive(Debug, PartialEq, Eq, Copy, Clone, Structural)]
pub struct PolylineInterestRatePoint {
    pub utilization_rate_bps: u32,
    pub borrow_rate_bps: u32,
}

/// Up to eight points; the used ones come first, the unused slots are zero.
#[derive(Debug, PartialEq, Eq, Copy, Clone)]
pub struct PolylineInterestRateCurve {
    pub points: [PolylineInterestRatePoint; 8],
}

#[derive(Debug, Clone, Copy, PartialEq, Eq, Structural)]
pub enum PolylineInterestRateCurveError {
    TooManyPoints,
    FirstPointInvalid,
    PointsNotInOrder,
}

/// A point is used when its borrow rate is not zero.
pub open spec fn is_used(p: PolylineInterestRatePoint) -> bool {
    p.borrow_rate_bps != 0
}

/// The first point exists, sits at zero utilisation and is used.
pub open spec fn first_point_valid(pts: Seq<PolylineInterestRatePoint>) -> bool {
    pts.len() > 0 && pts[0].utilization_rate_bps == 0 && is_used(pts[0])
}

/// After the first point, the used points come before the unused ones, and
/// each used point has a strictly greater utilisation and borrow rate than
/// the one before it.
pub open spec fn points_in_order(pts: Seq<PolylineInterestRatePoint>) -> bool {
    &&& forall|i: int, j: int|
        1 <= i < j < pts.len() && !is_used(#[trigger] pts[i]) ==> !is_used(#[trigger] pts[j])
    &&& forall|i: int|
        1 <= i < pts.len() && is_used(#[trigger] pts[i]) ==> pts[i - 1].utilization_rate_bps
            < pts[i].utilization_rate_bps && pts[i - 1].borrow_rate_bps < pts[i].borrow_rate_bps
}

/// The outcome of validating a list of points.
pub open spec fn spec_validate_points(pts: Seq<PolylineInterestRatePoint>) -> Result<
    (),
    PolylineInterestRateCurveError,
> {
    if pts.len() > POLYLINE_MAX_POINTS {
        Err(PolylineInterestRateCurveError::TooManyPoints)
    } else if !first_point_valid(pts) {
        Err(PolylineInterestRateCurveError::FirstPointInvalid)
    } else if !points_in_order(pts) {
        Err(PolylineInterestRateCurveError::PointsNotInOrder)
    } else {
        Ok(())
    }
}

/// The given points, padded with unused slots up to the eight a curve holds.
pub open spec fn padded_points(points: Seq<PolylineInterestRatePoint>) -> Seq<
    PolylineInterestRatePoint,
> {
    points + Seq::new(
        (8 - points.len()) as nat,
        |i: int| PolylineInterestRatePoint { utilization_rate_bps: 0, borrow_rate_bps: 0 },
    )
}

/// The number of used points at the front, counting from `i`.
pub open spec fn used_len_from(pts: Seq<PolylineInterestRatePoint>, i: int) -> int
    decreases pts.len() - i,
{
    if i < 0 || i >= pts.len() || !is_used(pts[i]) {
        i
    } else {
        used_len_from(pts, i + 1)
    }
}

/// The number of used points at the front.
pub open spec fn used_len(pts: Seq<PolylineInterestRatePoint>) -> int {
    used_len_from(pts, 0)
}

/// The end point of the segment that holds utilisation `u`: the first point
/// from `i` on whose utilisation is above `u`, or the last used point.
pub open spec fn segment_end(pts: Seq<PolylineInterestRatePoint>, n: int, u: u32, i: int) -> int
    decreases n - i,
{
    if i + 1 < n && u >= pts[i].utilization_rate_bps {
        segment_end(pts, n, u, i + 1)
    } else {
        i
    }
}

/// The value at `u` of the line through `start` and `end`, rounded down;
/// the slope term is truncated to 32 bits and the sum saturates.
pub open spec fn line_value(start: PolylineInterestRatePoint, end: PolylineInterestRatePoint, u: u32) -> u32 {
    let delta = ((end.borrow_rate_bps - start.borrow_rate_bps) * (u - start.utilization_rate_bps)
        / (end.utilization_rate_bps - start.utilization_rate_bps)) as u64;
    let add = delta as u32;
    if start.borrow_rate_bps + add > u32::MAX {
        u32::MAX
    } else {
        (start.borrow_rate_bps + add) as u32
    }
}

/// The yearly borrow rate in basis points at utilisation `u`: the value of
/// the segment that holds `u` (extended past the last point), or the only
/// rate when there is a single point.
pub open spec fn spec_apr_borrow_rate_bps(pts: Seq<PolylineInterestRatePoint>, u: u32) -> u32 {
    let n = used_len(pts);
    if n <= 1 {
        pts[0].borrow_rate_bps
    } else {
        let i = segment_end(pts, n, u, 1);
        line_value(pts[i - 1], pts[i], u)
    }
}

/// The borrow rate per second at utilisation `u`.
pub open spec fn spec_polyline_rate_per_second(pts: Seq<PolylineInterestRatePoint>, u: u32) -> InterestRatePerSecond {
    spec_from_apr(
        ifp(trunc_div(spec_apr_borrow_rate_bps(pts, u) * i_one(), ONE_IN_BPS as int)),
    )
}

/// Facts about valid points used to evaluate the curve.
pub(crate) proof fn lemma_used_len(pts: Seq<PolylineInterestRatePoint>, i: int)
    requires
        0 <= i <= pts.len(),
        forall|j: int| 0 <= j < i ==> is_used(#[trigger] pts[j]),
    ensures
        i <= used_len_from(pts, i) <= pts.len(),
        forall|j: int| 0 <= j < used_len_from(pts, i) ==> is_used(#[trigger] pts[j]),
        used_len_from(pts, i) < pts.len() ==> !is_used(pts[used_len_from(pts, i)]),
    decreases pts.len() - i,
{
    if i < pts.len() && is_used(pts[i]) {
        lemma_used_len(pts, i + 1);
    }
}

proof fn lemma_segment_end(pts: Seq<PolylineInterestRatePoint>, n: int, u: u32, i: int)
    requires
        1 <= i < n,
        i > 1 ==> u >= pts[i - 1].utilization_rate_bps,
    ensures
        1 <= segment_end(pts, n, u, i) < n,
        segment_end(pts, n, u, i) > 1 ==> u >= pts[segment_end(pts, n, u, i) - 1].utilization_rate_bps,
    decreases n - i,
{
    if i + 1 < n && u >= pts[i].utilization_rate_bps {
        lemma_segment_end(pts, n, u, i + 1);
    }
}

/// A segment between two consecutive points.
pub struct Line<'a> {
    pub start: &'a PolylineInterestRatePoint,
    pub end: &'a PolylineInterestRatePoint,
}

impl<'a> Line<'a> {
    /// The value of the line at `utilization_rate_bps`; the points must be
    /// increasing and `utilization_rate_bps` at or after the start.
    pub fn value_at(&self, utilization_rate_bps: u32) -> (r: u32)
        requires
            self.start.utilization_rate_bps < self.end.utilization_rate_bps,
            self.start.borrow_rate_bps <= self.end.borrow_rate_bps,
            self.start.utilization_rate_bps <= utilization_rate_bps,
        ensures
            r == line_value(*self.start, *self.end, utilization_rate_bps),
    {
        let db = self.end.borrow_rate_bps as u64 - self.start.borrow_rate_bps as u64;
        let du = utilization_rate_bps as u64 - self.start.utilization_rate_bps as u64;
        let dx = self.end.utilization_rate_bps as u64 - self.start.utilization_rate_bps as u64;
        assert(db * du <= u64::MAX) by (nonlinear_arith)
            requires
                db <= u32::MAX,
                du <= u32::MAX,
        ;
        let delta = db * du / dx;
        self.start.borrow_rate_bps.saturating_add(delta as u32)
    }
}

impl PolylineInterestRatePoint {
    /// The point when it is used.
    pub fn maybe_uninit(&self) -> (r: Option<&Self>)
        ensures
            r == (if is_used(*self) {
                Some(self)
            } else {
                None
            }),
    {
        if self.borrow_rate_bps == 0 {
            None
        } else {
            Some(self)
        }
    }
}

/// The point `(utilization_rate_bps, borrow_rate_bps)`.
impl From<(u32, u32)> for PolylineInterestRatePoint {
    fn from(pair: (u32, u32)) -> (r: Self) {
        PolylineInterestRatePoint { utilization_rate_bps: pair.0, borrow_rate_bps: pair.1 }
    }
}

impl vstd::std_specs::convert::FromSpecImpl<(u32, u32)> for PolylineInterestRatePoint {
    open spec fn obeys_from_spec() -> bool {
        true
    }

    open spec fn from_spec(pair: (u32, u32)) -> Self {
        PolylineInterestRatePoint { utilization_rate_bps: pair.0, borrow_rate_bps: pair.1 }
    }
}

impl PolylineInterestRateCurve {
    /// Whether the stored points form a valid curve.
    pub open spec fn is_valid(&self) -> bool {
        spec_validate_points(self.points@) is Ok
    }

    /// A curve from `points`, the rest of the slots unused; refused when the
    /// points are not a valid curve.
    pub fn try_new(points: &[PolylineInterestRatePoint]) -> (r: Result<
        Self,
        PolylineInterestRateCurveError,
    >)
        ensures
            spec_validate_points(points@) is Err ==> r == Err::<
                PolylineInterestRateCurve,
                PolylineInterestRateCurveError,
            >(spec_validate_points(points@)->Err_0),
            spec_validate_points(points@) is Ok ==> r is Ok && r->Ok_0.points@ == padded_points(
                points@,
            ) && r->Ok_0.is_valid(),
    {
        match Self::validate_points(points) {
            Ok(()) => {},
            Err(e) => return Err(e),
        }
        let zero = PolylineInterestRatePoint { utilization_rate_bps: 0, borrow_rate_bps: 0 };
        let mut points_array = [zero;8];
        let mut i: usize = 0;
        while i < points.len()
            invariant
                points.len() <= 8,
                i <= points.len(),
                forall|j: int| 0 <= j < i ==> points_array@[j] == points@[j],
                forall|j: int| i <= j < 8 ==> points_array@[j] == zero,
            decreases points.len() - i,
        {
            points_array[i] = points[i];
            i += 1;
        }
        let curve = PolylineInterestRateCurve { points: points_array };
        proof {
            let tail = Seq::new(
                (8 - points@.len()) as nat,
                |k: int| PolylineInterestRatePoint { utilization_rate_bps: 0, borrow_rate_bps: 0 },
            );
            assert(curve.points@ =~= points@ + tail);
            let full = curve.points@;
            assert forall|a: int, b: int|
                1 <= a < b < full.len() && !is_used(#[trigger] full[a]) implies !is_used(
                #[trigger] full[b],
            ) by {
                if b < points@.len() {
                    assert(full[a] == points@[a]);
                    assert(full[b] == points@[b]);
                }
            }
            assert forall|a: int|
                1 <= a < full.len() && is_used(#[trigger] full[a]) implies full[a
                - 1].utilization_rate_bps < full[a].utilization_rate_bps && full[a
                - 1].borrow_rate_bps < full[a].borrow_rate_bps by {
                assert(a < points@.len());
                assert(full[a] == points@[a]);
                assert(full[a - 1] == points@[a - 1]);
            }
            assert(full[0] == points@[0]);
        }
        Ok(curve)
    }

    /// Checks that the stored points form a valid curve.
    pub fn validate(&self) -> (r: Result<(), PolylineInterestRateCurveError>)
        ensures
            r == spec_validate_points(self.points@),
    {
        Self::validate_points(&self.points)
    }

    /// The used points, in order.
    pub fn points(&self) -> (r: Vec<PolylineInterestRatePoint>)
        ensures
            r@ == self.points@.take(used_len(self.points@)),
    {
        let mut out: Vec<PolylineInterestRatePoint> = Vec::new();
        let mut i: usize = 0;
        proof {
            lemma_used_len(self.points@, 0);
        }
        while i < 8 && self.points[i].borrow_rate_bps != 0
            invariant
                i <= 8,
                forall|j: int| 0 <= j < i ==> is_used(#[trigger] self.points@[j]),
                out@ == self.points@.take(i as int),
                used_len_from(self.points@, i as int) == used_len(self.points@),
            decreases 8 - i,
        {
            out.push(self.points[i]);
            proof {
                assert(self.points@.take(i + 1) =~= self.points@.take(i as int).push(
                    self.points@[i as int],
                ));
            }
            i += 1;
        }
        out
    }

    /// The borrow rate per second at `utilization_rate_bps`.
    pub fn interest_rate_per_second(&self, utilization_rate_bps: u32) -> (r: InterestRatePerSecond)
        requires
            self.is_valid(),
        ensures
            r == spec_polyline_rate_per_second(self.points@, utilization_rate_bps),
    {
        let apr_bps = self.apr_borrow_rate_bps(utilization_rate_bps);
        let apr = match IFixedPoint::from_u64(apr_bps as u64).safe_div(ONE_IN_BPS as u64) {
            Ok(v) => v,
            Err(_) => IFixedPoint::zero(),
        };
        InterestRatePerSecond::from_apr(apr)
    }

    /// The yearly borrow rate in basis points at `utilization_rate_bps`.
    pub fn apr_borrow_rate_bps(&self, utilization_rate_bps: u32) -> (r: u32)
        requires
            self.is_valid(),
        ensures
            r == spec_apr_borrow_rate_bps(self.points@, utilization_rate_bps),
    {
        let ghost pts = self.points@;
        let ghost n = used_len(pts);
        proof {
            lemma_used_len(pts, 0);
        }
        if self.points[1].borrow_rate_bps == 0 {
            proof {
                assert(used_len_from(pts, 1) == 1);
                assert(used_len_from(pts, 0) == used_len_from(pts, 1));
            }
            return self.points[0].borrow_rate_bps;
        }
        proof {
            assert(n >= 2) by {
                assert(used_len_from(pts, 0) == used_len_from(pts, 1));
                assert(used_len_from(pts, 1) == used_len_from(pts, 2));
                lemma_used_len(pts, 2);
            }
        }
        let mut end_index: usize = 1;
        while end_index + 1 < 8 && self.points[end_index + 1].borrow_rate_bps != 0
            && utilization_rate_bps >= self.points[end_index].utilization_rate_bps
            invariant
                1 <= end_index < n,
                n == used_len(pts),
                pts == self.points@,
                0 <= n <= 8,
                forall|j: int| 0 <= j < n ==> is_used(#[trigger] pts[j]),
                n < 8 ==> !is_used(pts[n]),
                segment_end(pts, n, utilization_rate_bps, end_index as int) == segment_end(
                    pts,
                    n,
                    utilization_rate_bps,
                    1,
                ),
                end_index > 1 ==> utilization_rate_bps >= pts[end_index - 1].utilization_rate_bps,
            decreases 8 - end_index,
        {
            end_index += 1;
        }
        proof {
            assert(segment_end(pts, n, utilization_rate_bps, end_index as int) == end_index);
            lemma_segment_end(pts, n, utilization_rate_bps, 1);
            assert(is_used(pts[end_index as int]));
        }
        let line = Line { start: &self.points[end_index - 1], end: &self.points[end_index] };
        line.value_at(utilization_rate_bps)
    }

    /// Checks a list of points, see `spec_validate_points`.
    fn validate_points(points: &[PolylineInterestRatePoint]) -> (r: Result<
        (),
        PolylineInterestRateCurveError,
    >)
        ensures
            r == spec_validate_points(points@),
    {
        if points.len() > POLYLINE_MAX_POINTS {
            return Err(PolylineInterestRateCurveError::TooManyPoints);
        }
        if points.len() == 0 {
            return Err(PolylineInterestRateCurveError::FirstPointInvalid);
        }
        let first = points[0];
        if first.utilization_rate_bps != 0 || first.borrow_rate_bps == 0 {
            return Err(PolylineInterestRateCurveError::FirstPointInvalid);
        }
        let ghost pts = points@;
        let mut reached_end = false;
        let mut last_borrow_rate_bps = first.borrow_rate_bps;
        let mut last_utilization_rate_bps: u32 = 0;
        let mut i: usize = 1;
        while i < points.len()
            invariant
                pts == points@,
                1 <= i <= pts.len() <= 8,
                first_point_valid(pts),
                reached_end == (exists|j: int| 1 <= j < i && !is_used(#[trigger] pts[j])),
                !reached_end ==> last_borrow_rate_bps == pts[i - 1].borrow_rate_bps
                    && last_utilization_rate_bps == pts[i - 1].utilization_rate_bps,
                points_in_order(pts.take(i as int)),
            decreases pts.len() - i,
        {
            let point = points[i];
            proof {
                assert(pts.take(i as int + 1)[i as int] == pts[i as int]);
            }
            if point.borrow_rate_bps != 0 {
                if reached_end || point.utilization_rate_bps <= last_utilization_rate_bps
                    || point.borrow_rate_bps <= last_borrow_rate_bps {
                    proof {
                        if reached_end {
                            let j = choose|j: int| 1 <= j < i && !is_used(#[trigger] pts[j]);
                            assert(!is_used(pts[j]) && is_used(pts[i as int]));
                        } else {
                            assert(is_used(pts[i as int]));
                        }
                    }
                    return Err(PolylineInterestRateCurveError::PointsNotInOrder);
                }
                last_borrow_rate_bps = point.borrow_rate_bps;
                last_utilization_rate_bps = point.utilization_rate_bps;
            } else {
                reached_end = true;
            }
            proof {
                let t = pts.take(i as int + 1);
                let s = pts.take(i as int);
                assert forall|a: int, b: int|
                    1 <= a < b < t.len() && !is_used(#[trigger] t[a]) implies !is_used(
                    #[trigger] t[b],
                ) by {
                    if b < i {
                        assert(t[a] == s[a] && t[b] == s[b]);
                    } else {
                        assert(t[a] == pts[a]);
                    }
                }
                assert forall|a: int|
                    1 <= a < t.len() && is_used(#[trigger] t[a]) implies t[a
                    - 1].utilization_rate_bps < t[a].utilization_rate_bps && t[a
                    - 1].borrow_rate_bps < t[a].borrow_rate_bps by {
                    if a < i {
                        assert(t[a] == s[a] && t[a - 1] == s[a - 1]);
                    }
                }
            }
            i += 1;
        }
        proof {
            assert(pts.take(pts.len() as int) =~= pts);
        }
        Ok(())
    }
}

impl Default for PolylineInterestRateCurve {
    /// 2% at no utilisation, 7% at 92%, 100% at full utilisation.
    fn default() -> (r: Self)
        ensures
            r.points[0] == (PolylineInterestRatePoint { utilization_rate_bps: 0, borrow_rate_bps: 200 }),
            r.points[1] == (PolylineInterestRatePoint { utilization_rate_bps: 9200, borrow_rate_bps: 700 }),
            r.points[2] == (PolylineInterestRatePoint { utilization_rate_bps: 10000, borrow_rate_bps: 10000 }),
            forall|i: int| 3 <= i < 8 ==> r.points[i] == (PolylineInterestRatePoint { utilization_rate_bps: 0, borrow_rate_bps: 0 }),
    {
        let zero = PolylineInterestRatePoint { utilization_rate_bps: 0, borrow_rate_bps: 0 };
        let points: [PolylineInterestRatePoint; 8] = [
            PolylineInterestRatePoint { utilization_rate_bps: 0, borrow_rate_bps: 200 },
            PolylineInterestRatePoint { utilization_rate_bps: 9200, borrow_rate_bps: 700 },
            PolylineInterestRatePoint { utilization_rate_bps: 10000, borrow_rate_bps: 10000 },
            zero,
            zero,
            zero,
            zero,
            zero,
        ];
        PolylineInterestRateCurve { points }
    }
}

} // verus!
