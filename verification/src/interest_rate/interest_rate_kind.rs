//! The interest-rate curve of a supply vault.
use crate::error::{LendingError, LendingResult};
use crate::interest_rate::adaptive_curve::{spec_compute_next_rates, AdaptiveInterestRateCurve};
use crate::interest_rate::interest_rate_per_second::InterestRatePerSecond;
use crate::interest_rate::lending_interest_rate::{
    spec_utilisation_rate_bps, MarketBorrowRateParameters,
};
use crate::interest_rate::polyline::{spec_polyline_rate_per_second, PolylineInterestRateCurve};
use crate::math::ifixed_point::{IFixedPoint, MAX_EXP_ARG_BITS};
use crate::ixs::wire::{fixed_bytes, put_fixed, put_u32, put_u8, u32_bytes};
use crate::interest_rate::polyline::PolylineInterestRatePoint;
use vstd::prelude::*;

verus! {

/// A fixed rate, a polyline of utilisation to rate, or the adaptive curve.
#[derive(Clone, Copy, Debug, PartialEq, Eq)]
pub enum InterestRateCurveKind {
    Fixed(InterestRatePerSecond),
    Polyline(PolylineInterestRateCurve),
    Adaptive(AdaptiveInterestRateCurve),
}

/// A fixed rate is valid when not negative and small enough for one second
/// of compounding; a polyline when its points are valid.
pub open spec fn spec_curve_is_valid(k: InterestRateCurveKind) -> bool {
    match k {
        InterestRateCurveKind::Fixed(rate) => 0 <= rate.0.bits <= MAX_EXP_ARG_BITS,
        InterestRateCurveKind::Polyline(curve) => curve.is_valid(),
        InterestRateCurveKind::Adaptive(_) => true,
    }
}

/// The borrow rate of the curve for `params`, and the curve afterwards
/// (only the adaptive curve changes).
pub open spec fn spec_borrow_rate_per_second(
    k: InterestRateCurveKind,
    params: MarketBorrowRateParameters,
) -> (LendingResult<InterestRatePerSecond>, InterestRateCurveKind) {
    match k {
        InterestRateCurveKind::Fixed(rate) => (Ok(rate), k),
        InterestRateCurveKind::Polyline(curve) => match spec_utilisation_rate_bps(
            params.utilisation_rate,
        ) {
            Err(e) => (Err(e), k),
            Ok(u) => (Ok(spec_polyline_rate_per_second(curve.points@, u)), k),
        },
        InterestRateCurveKind::Adaptive(curve) => match spec_compute_next_rates(curve, params) {
            Err(e) => (Err(e), k),
            Ok((rate, end)) => (
                Ok(rate),
                InterestRateCurveKind::Adaptive(AdaptiveInterestRateCurve { rate_at_target: end }),
            ),
        },
    }
}

impl InterestRateCurveKind {
    /// A new adaptive curve.
    pub fn new_adaptive() -> (r: Self)
        ensures
            r matches InterestRateCurveKind::Adaptive(c) && c.rate_at_target.0.bits == 0,
    {
        InterestRateCurveKind::Adaptive(AdaptiveInterestRateCurve::new())
    }

    /// Whether the curve can be used by a supply vault.
    pub fn is_valid(&self) -> (r: bool)
        ensures
            r == spec_curve_is_valid(*self),
    {
        match self {
            InterestRateCurveKind::Fixed(rate) => !rate.0.is_negative() && rate.0.bits
                <= MAX_EXP_ARG_BITS,
            InterestRateCurveKind::Polyline(curve) => curve.validate().is_ok(),
            InterestRateCurveKind::Adaptive(_) => true,
        }
    }

    /// The borrow rate per second for `params`; the adaptive curve moves its
    /// rate at target.
    pub fn borrow_rate_per_second(&mut self, params: MarketBorrowRateParameters) -> (r: LendingResult<
        InterestRatePerSecond,
    >)
        requires
            spec_curve_is_valid(*old(self)),
        ensures
            (r, *final(self)) == spec_borrow_rate_per_second(*old(self), params),
            spec_curve_is_valid(*final(self)),
    {
        match self {
            InterestRateCurveKind::Fixed(rate) => Ok(*rate),
            InterestRateCurveKind::Polyline(curve) => {
                let u = match params.utilisation_rate_bps() {
                    Ok(u) => u,
                    Err(e) => return Err(e),
                };
                Ok(curve.interest_rate_per_second(u))
            },
            InterestRateCurveKind::Adaptive(curve) => curve.borrow_rate(params),
        }
    }
}

/// A fixed rate of 10% a year compounded: ln(1.1) spread over the seconds
/// of a year.
pub const DEFAULT_FIXED_RATE_PER_SECOND_BITS: i128 = 850692;

impl Default for InterestRateCurveKind {
    /// A fixed rate of 10% a year.
    fn default() -> (r: Self)
        ensures
            r == InterestRateCurveKind::Fixed(
                InterestRatePerSecond(IFixedPoint { bits: DEFAULT_FIXED_RATE_PER_SECOND_BITS }),
            ),
    {
        InterestRateCurveKind::Fixed(
            InterestRatePerSecond(IFixedPoint::from_bits(DEFAULT_FIXED_RATE_PER_SECOND_BITS)),
        )
    }
}

pub open spec fn point_bytes(p: PolylineInterestRatePoint) -> Seq<u8> {
    u32_bytes(p.utilization_rate_bps) + u32_bytes(p.borrow_rate_bps)
}

pub open spec fn points_bytes(s: Seq<PolylineInterestRatePoint>) -> Seq<u8>
    decreases s.len(),
{
    if s.len() == 0 {
        seq![]
    } else {
        points_bytes(s.drop_last()) + point_bytes(s.last())
    }
}

impl InterestRateCurveKind {
    /// The curve on the wire: its kind, then its fields.
    pub open spec fn wire(&self) -> Seq<u8> {
        match *self {
            InterestRateCurveKind::Fixed(r) => seq![0u8] + fixed_bytes(r.0),
            InterestRateCurveKind::Polyline(c) => seq![1u8] + points_bytes(c.points@),
            InterestRateCurveKind::Adaptive(a) => seq![2u8] + fixed_bytes(a.rate_at_target.0),
        }
    }

    /// Appends the bytes of the curve to `out`.
    pub fn write_to(&self, out: &mut Vec<u8>)
        ensures
            final(out)@ == old(out)@ + self.wire(),
    {
        match self {
            InterestRateCurveKind::Fixed(r) => {
                put_u8(out, 0u8);
                put_fixed(out, r.0);
            },
            InterestRateCurveKind::Polyline(c) => {
                put_u8(out, 1u8);
                let ghost start = out@;
                let mut i: usize = 0;
                while i < 8
                    invariant
                        i <= 8,
                        c.points@.len() == 8,
                        out@ == start + points_bytes(c.points@.take(i as int)),
                    decreases 8 - i,
                {
                    let p = c.points[i];
                    put_u32(out, p.utilization_rate_bps);
                    put_u32(out, p.borrow_rate_bps);
                    proof {
                        let t = c.points@.take(i as int + 1);
                        assert(t.drop_last() =~= c.points@.take(i as int));
                        assert(out@ =~= start + points_bytes(t));
                    }
                    i += 1;
                }
                proof {
                    assert(c.points@.take(8) =~= c.points@);
                }
            },
            InterestRateCurveKind::Adaptive(a) => {
                put_u8(out, 2u8);
                put_fixed(out, a.rate_at_target.0);
            },
        }
        proof {
            assert(out@ =~= old(out)@ + self.wire());
        }
    }
}

} // verus!
