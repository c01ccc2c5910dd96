//! Continuously compounded interest rates, per second.
use crate::constant::SECONDS_PER_YEAR;
use crate::error::LendingResult;
use crate::interest_rate::interest_rate::InterestRate;
use crate::math::fixed_ops::trunc_div;
use crate::math::ifixed_point::{
    ifp, spec_checked_exp, spec_i_mul, spec_i_mul_int, spec_i_sub_int, IFixedPoint,
};
use crate::math::safe_math::SafeMath;
use vstd::prelude::*;

verus! {

/// A rate per second, compounded continuously.
#[derive(Clone, Copy, Debug, Default, PartialEq, Eq, PartialOrd, Ord, Structural)]
pub struct InterestRatePerSecond(pub IFixedPoint);

/// The rate per second of a yearly rate, rounded towards zero.
pub open spec fn spec_from_apr(apr: IFixedPoint) -> InterestRatePerSecond {
    InterestRatePerSecond(ifp(trunc_div(apr.bits as int, SECONDS_PER_YEAR as int)))
}

/// `exp(rate * elapsed) - 1`: the interest compounded over `elapsed` seconds.
pub open spec fn spec_compounding(rate: InterestRatePerSecond, elapsed: u64) -> LendingResult<
    InterestRate,
> {
    match spec_i_mul_int(rate.0, elapsed) {
        Err(e) => Err(e),
        Ok(x) => match spec_checked_exp(x) {
            Err(e) => Err(e),
            Ok(g) => match spec_i_sub_int(g, 1) {
                Err(e) => Err(e),
                Ok(v) => Ok(InterestRate(v)),
            },
        },
    }
}

impl InterestRatePerSecond {
    pub fn new(rate: IFixedPoint) -> (r: Self)
        ensures
            r.0 == rate,
    {
        InterestRatePerSecond(rate)
    }

    /// The rate per second of the yearly rate `apr`.
    pub fn from_apr(apr: IFixedPoint) -> (r: Self)
        ensures
            r == spec_from_apr(apr),
    {
        match apr.safe_div(SECONDS_PER_YEAR) {
            Ok(v) => InterestRatePerSecond(v),
            Err(_) => InterestRatePerSecond(apr),
        }
    }

    /// Same as `from_apr`.
    pub fn const_from_apr(apr: IFixedPoint) -> (r: Self)
        ensures
            r == spec_from_apr(apr),
    {
        InterestRatePerSecond::from_apr(apr)
    }

    /// The interest compounded over `elapsed_seconds`.
    pub fn coumpounding_interest_rate_during_elapsed_seconds(&self, elapsed_seconds: u64) -> (r:
        LendingResult<InterestRate>)
        ensures
            r == spec_compounding(*self, elapsed_seconds),
    {
        let x = match self.0.safe_mul(elapsed_seconds) {
            Ok(v) => v,
            Err(e) => return Err(e),
        };
        let g = match x.checked_exp() {
            Ok(v) => v,
            Err(e) => return Err(e),
        };
        match g.safe_sub(1u64) {
            Ok(v) => Ok(InterestRate::new(v)),
            Err(e) => Err(e),
        }
    }

    /// The rate scaled by the utilisation rate.
    pub fn adjust_for_utilisation_rate(self, utilisation_rate: IFixedPoint) -> (r: LendingResult<
        InterestRatePerSecond,
    >)
        ensures
            r == (match spec_i_mul(self.0, utilisation_rate) {
                Ok(v) => Ok(InterestRatePerSecond(v)),
                Err(e) => Err(e),
            }),
    {
        match self.0.safe_mul(utilisation_rate) {
            Ok(v) => Ok(InterestRatePerSecond(v)),
            Err(e) => Err(e),
        }
    }
}

} // verus!
