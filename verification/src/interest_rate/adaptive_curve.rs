//! An interest-rate curve whose rate at the target utilisation adapts over
//! time: up while utilisation stays above target, down while below.
use crate::error::LendingResult;
use crate::interest_rate::interest_rate_per_second::InterestRatePerSecond;
use crate::interest_rate::lending_interest_rate::MarketBorrowRateParameters;
use crate::math::fixed_ops::i_one;
use crate::math::ifixed_point::{
    ifp, spec_checked_exp, spec_i_add, spec_i_div, spec_i_div_int, spec_i_mul, spec_i_mul_int,
    spec_i_sub, IFixedPoint, MAX_EXP_ARG_BITS,
};
use crate::math::safe_math::SafeMath;
use vstd::prelude::*;

verus! {

/// Bits of the target utilisation rate, 90%.
pub const TARGET_UTILISATION_RATE_BITS: i128 = 253327479039590;

/// Bits of one minus the target utilisation rate, 10%.
pub const ONE_MINUS_TARGET_UTILISATION_RATE_BITS: i128 = 28147497671065;

/// Bits of the adjustment speed, 50 per year (per second).
pub const ADJUSTMENT_SPEED_BITS: i128 = 446275648;

/// How much steeper the curve is than flat at full (or zero) utilisation.
pub const CURVE_STEEPNESS: u64 = 4;

/// Bits of the initial rate at target, 4% a year (per second).
pub const INITIAL_RATE_AT_TARGET_BITS: i128 = 357020;

/// Bits of the smallest rate at target, 1% a year (per second).
pub const MIN_RATE_AT_TARGET_BITS: i128 = 89255;

/// Bits of the largest rate at target, 200% a year (per second).
pub const MAX_RATE_AT_TARGET_BITS: i128 = 17851025;

/// The adaptive curve of Morpho's `AdaptiveCurveIrm`: only its current rate
/// at the target utilisation is stored (zero before the first use).
#[derive(Debug, PartialEq, Eq, Copy, Clone, Structural)]
pub struct AdaptiveInterestRateCurve {
    pub rate_at_target: InterestRatePerSecond,
}

pub open spec fn irps(bits: int) -> InterestRatePerSecond {
    InterestRatePerSecond(ifp(bits))
}

/// `x` bounded to the allowed rates at target.
pub open spec fn clamp_rate(x: IFixedPoint) -> InterestRatePerSecond {
    if x.bits < MIN_RATE_AT_TARGET_BITS {
        irps(MIN_RATE_AT_TARGET_BITS as int)
    } else if x.bits > MAX_RATE_AT_TARGET_BITS {
        irps(MAX_RATE_AT_TARGET_BITS as int)
    } else {
        InterestRatePerSecond(x)
    }
}

/// The utilisation gap to the target, normalised to `[-1, 1]`.
pub open spec fn spec_err(utilisation_rate: IFixedPoint) -> LendingResult<IFixedPoint> {
    let norm = if utilisation_rate.bits > TARGET_UTILISATION_RATE_BITS {
        ifp(ONE_MINUS_TARGET_UTILISATION_RATE_BITS as int)
    } else {
        ifp(TARGET_UTILISATION_RATE_BITS as int)
    };
    match spec_i_sub(utilisation_rate, ifp(TARGET_UTILISATION_RATE_BITS as int)) {
        Err(e) => Err(e),
        Ok(d) => spec_i_div(d, norm),
    }
}

/// `start * exp(linear_adaptation)`, bounded to the allowed rates at target.
pub open spec fn spec_new_rate_at_target(
    start: InterestRatePerSecond,
    linear_adaptation: IFixedPoint,
) -> LendingResult<InterestRatePerSecond> {
    match spec_checked_exp(linear_adaptation) {
        Err(e) => Err(e),
        Ok(g) => match spec_i_mul(start.0, g) {
            Err(e) => Err(e),
            Ok(x) => Ok(clamp_rate(x)),
        },
    }
}

/// The rate of the curve at error `err` around `rate_at_target`: from a
/// quarter of it at zero utilisation to four times it at full utilisation.
pub open spec fn spec_curve(rate_at_target: InterestRatePerSecond, err: IFixedPoint) -> LendingResult<
    InterestRatePerSecond,
> {
    let coeff = if err.bits < 0 {
        ifp(i_one() - i_one() / 4)
    } else {
        ifp(3 * i_one())
    };
    match spec_i_mul(coeff, err) {
        Err(e) => Err(e),
        Ok(m) => match spec_i_add(m, ifp(i_one())) {
            Err(e) => Err(e),
            Ok(a) => match spec_i_mul(a, rate_at_target.0) {
                Err(e) => Err(e),
                Ok(v) => Ok(InterestRatePerSecond(v)),
            },
        },
    }
}

/// The adaptation over the elapsed time, bounded to the arguments `exp`
/// accepts.
pub open spec fn spec_linear_adaptation(err: IFixedPoint, elapsed: u64) -> LendingResult<IFixedPoint> {
    match spec_i_mul(ifp(ADJUSTMENT_SPEED_BITS as int), err) {
        Err(e) => Err(e),
        Ok(speed) => match spec_i_mul_int(speed, elapsed) {
            Err(e) => Err(e),
            Ok(l) => Ok(
                if l.bits > MAX_EXP_ARG_BITS {
                    ifp(MAX_EXP_ARG_BITS as int)
                } else {
                    l
                },
            ),
        },
    }
}

/// The average rate at target over the elapsed time (trapezoid of start,
/// middle and end) and the rate at target at the end.
pub open spec fn spec_avg_end_rates(
    start: InterestRatePerSecond,
    err: IFixedPoint,
    elapsed: u64,
) -> LendingResult<(InterestRatePerSecond, InterestRatePerSecond)> {
    if start.0.bits == 0 {
        Ok((irps(INITIAL_RATE_AT_TARGET_BITS as int), irps(INITIAL_RATE_AT_TARGET_BITS as int)))
    } else {
        match spec_linear_adaptation(err, elapsed) {
            Err(e) => Err(e),
            Ok(lin) => if lin.bits == 0 {
                Ok((start, start))
            } else {
                match spec_new_rate_at_target(start, lin) {
                    Err(e) => Err(e),
                    Ok(end) => match spec_i_div_int(lin, 2) {
                        Err(e) => Err(e),
                        Ok(half) => match spec_new_rate_at_target(start, half) {
                            Err(e) => Err(e),
                            Ok(mid) => match spec_i_add(start.0, end.0) {
                                Err(e) => Err(e),
                                Ok(s1) => match spec_i_mul_int(mid.0, 2) {
                                    Err(e) => Err(e),
                                    Ok(m2) => match spec_i_add(s1, m2) {
                                        Err(e) => Err(e),
                                        Ok(s2) => match spec_i_div_int(s2, 4) {
                                            Err(e) => Err(e),
                                            Ok(avg) => Ok((InterestRatePerSecond(avg), end)),
                                        },
                                    },
                                },
                            },
                        },
                    },
                }
            },
        }
    }
}

/// The borrow rate over the elapsed time and the new rate at target.
pub open spec fn spec_compute_next_rates(
    curve: AdaptiveInterestRateCurve,
    params: MarketBorrowRateParameters,
) -> LendingResult<(InterestRatePerSecond, InterestRatePerSecond)> {
    match spec_err(params.utilisation_rate) {
        Err(e) => Err(e),
        Ok(err) => match spec_avg_end_rates(
            curve.rate_at_target,
            err,
            params.elapsed_seconds_since_last_update,
        ) {
            Err(e) => Err(e),
            Ok((avg, end)) => match spec_curve(avg, err) {
                Err(e) => Err(e),
                Ok(rate) => Ok((rate, end)),
            },
        },
    }
}

impl AdaptiveInterestRateCurve {
    /// A curve not used yet (rate at target zero).
    pub fn new() -> (r: Self)
        ensures
            r.rate_at_target.0.bits == 0,
    {
        AdaptiveInterestRateCurve { rate_at_target: InterestRatePerSecond::new(IFixedPoint::zero()) }
    }

    /// The borrow rate over the elapsed time; the rate at target moves to its
    /// new value.
    pub fn borrow_rate(&mut self, params: MarketBorrowRateParameters) -> (r: LendingResult<
        InterestRatePerSecond,
    >)
        ensures
            match spec_compute_next_rates(*old(self), params) {
                Ok((rate, end)) => r == Ok::<InterestRatePerSecond, crate::error::LendingError>(rate)
                    && final(self).rate_at_target == end,
                Err(e) => r == Err::<InterestRatePerSecond, crate::error::LendingError>(e)
                    && *final(self) == *old(self),
            },
    {
        match self.compute_next_rates(params) {
            Ok((rate_at_target, end_rate_at_target)) => {
                self.rate_at_target = end_rate_at_target;
                Ok(rate_at_target)
            },
            Err(e) => Err(e),
        }
    }

    /// The borrow rate over the elapsed time and the new rate at target.
    pub fn compute_next_rates(&self, params: MarketBorrowRateParameters) -> (r: LendingResult<
        (InterestRatePerSecond, InterestRatePerSecond),
    >)
        ensures
            r == spec_compute_next_rates(*self, params),
    {
        let target = IFixedPoint::from_bits(TARGET_UTILISATION_RATE_BITS);
        let err_norm_factor = if params.utilisation_rate.bits > TARGET_UTILISATION_RATE_BITS {
            IFixedPoint::from_bits(ONE_MINUS_TARGET_UTILISATION_RATE_BITS)
        } else {
            target
        };
        let d = match params.utilisation_rate.safe_sub(target) {
            Ok(v) => v,
            Err(e) => return Err(e),
        };
        let err = match d.safe_div(err_norm_factor) {
            Ok(v) => v,
            Err(e) => return Err(e),
        };
        let (avg_rate_at_target, end_rate_at_target) = match Self::avg_end_rates(
            self.rate_at_target,
            err,
            params.elapsed_seconds_since_last_update,
        ) {
            Ok(v) => v,
            Err(e) => return Err(e),
        };
        match Self::curve(avg_rate_at_target, err) {
            Ok(rate) => Ok((rate, end_rate_at_target)),
            Err(e) => Err(e),
        }
    }

    fn avg_end_rates(start: InterestRatePerSecond, err: IFixedPoint, elapsed: u64) -> (r:
        LendingResult<(InterestRatePerSecond, InterestRatePerSecond)>)
        ensures
            r == spec_avg_end_rates(start, err, elapsed),
    {
        let initial = InterestRatePerSecond::new(IFixedPoint::from_bits(INITIAL_RATE_AT_TARGET_BITS));
        if start.0.is_zero() {
            return Ok((initial, initial));
        }
        let speed = match IFixedPoint::from_bits(ADJUSTMENT_SPEED_BITS).safe_mul(err) {
            Ok(v) => v,
            Err(e) => return Err(e),
        };
        let raw = match speed.safe_mul(elapsed) {
            Ok(v) => v,
            Err(e) => return Err(e),
        };
        let linear_adaptation = if raw.bits > MAX_EXP_ARG_BITS {
            IFixedPoint::from_bits(MAX_EXP_ARG_BITS)
        } else {
            raw
        };
        if linear_adaptation.is_zero() {
            return Ok((start, start));
        }
        let end = match Self::new_rate_at_target(start, linear_adaptation) {
            Ok(v) => v,
            Err(e) => return Err(e),
        };
        let half = match linear_adaptation.safe_div(2u64) {
            Ok(v) => v,
            Err(e) => return Err(e),
        };
        let mid = match Self::new_rate_at_target(start, half) {
            Ok(v) => v,
            Err(e) => return Err(e),
        };
        let s1 = match start.0.safe_add(end.0) {
            Ok(v) => v,
            Err(e) => return Err(e),
        };
        let m2 = match mid.0.safe_mul(2u64) {
            Ok(v) => v,
            Err(e) => return Err(e),
        };
        let s2 = match s1.safe_add(m2) {
            Ok(v) => v,
            Err(e) => return Err(e),
        };
        let avg = match s2.safe_div(4u64) {
            Ok(v) => v,
            Err(e) => return Err(e),
        };
        Ok((InterestRatePerSecond::new(avg), end))
    }

    fn curve(rate_at_target: InterestRatePerSecond, err: IFixedPoint) -> (r: LendingResult<
        InterestRatePerSecond,
    >)
        ensures
            r == spec_curve(rate_at_target, err),
    {
        let coeff = if err.is_negative() {
            let q = match IFixedPoint::one().safe_div(CURVE_STEEPNESS) {
                Ok(v) => v,
                Err(e) => return Err(e),
            };
            match IFixedPoint::one().safe_sub(q) {
                Ok(v) => v,
                Err(e) => return Err(e),
            }
        } else {
            match CURVE_STEEPNESS.safe_sub(IFixedPoint::one()) {
                Ok(v) => v,
                Err(e) => return Err(e),
            }
        };
        let m = match coeff.safe_mul(err) {
            Ok(v) => v,
            Err(e) => return Err(e),
        };
        let a = match m.safe_add(IFixedPoint::one()) {
            Ok(v) => v,
            Err(e) => return Err(e),
        };
        match a.safe_mul(rate_at_target.0) {
            Ok(v) => Ok(InterestRatePerSecond(v)),
            Err(e) => Err(e),
        }
    }

    fn new_rate_at_target(start_rate_at_target: InterestRatePerSecond, linear_adaptation: IFixedPoint) -> (r:
        LendingResult<InterestRatePerSecond>)
        ensures
            r == spec_new_rate_at_target(start_rate_at_target, linear_adaptation),
    {
        let g = match linear_adaptation.checked_exp() {
            Ok(v) => v,
            Err(e) => return Err(e),
        };
        let x = match start_rate_at_target.0.safe_mul(g) {
            Ok(v) => v,
            Err(e) => return Err(e),
        };
        if x.bits < MIN_RATE_AT_TARGET_BITS {
            Ok(InterestRatePerSecond::new(IFixedPoint::from_bits(MIN_RATE_AT_TARGET_BITS)))
        } else if x.bits > MAX_RATE_AT_TARGET_BITS {
            Ok(InterestRatePerSecond::new(IFixedPoint::from_bits(MAX_RATE_AT_TARGET_BITS)))
        } else {
            Ok(InterestRatePerSecond::new(x))
        }
    }
}

} // verus!
