//! An interest rate over some period.
use crate::error::LendingResult;
use crate::math::ifixed_point::{spec_i_mul, spec_i_mul_int, ufp_to_ifp, IFixedPoint};
use crate::math::safe_math::SafeMath;
use crate::math::ufixed_point::UFixedPoint;
use vstd::prelude::*;

verus! {

/// The interest earned by one unit over some period (`0.1` is 10%).
#[derive(Clone, Copy, Debug, Default, PartialEq, Eq, PartialOrd, Ord, Structural)]
pub struct InterestRate(pub IFixedPoint);

/// `r` wrapped as an interest rate.
pub open spec fn spec_map_rate(r: LendingResult<IFixedPoint>) -> LendingResult<InterestRate> {
    match r {
        Ok(v) => Ok(InterestRate(v)),
        Err(e) => Err(e),
    }
}

impl InterestRate {
    pub fn new(rate: IFixedPoint) -> (r: Self)
        ensures
            r.0 == rate,
    {
        InterestRate(rate)
    }

    pub fn rate(&self) -> (r: IFixedPoint)
        ensures
            r == self.0,
    {
        self.0
    }

    /// The interest earned by `value`.
    pub fn interest(self, value: IFixedPoint) -> (r: LendingResult<IFixedPoint>)
        ensures
            r == spec_i_mul(self.0, value),
    {
        self.0.safe_mul(value)
    }

    /// The interest earned by an unsigned `value`.
    pub fn interest_on_ufixed(self, value: UFixedPoint) -> (r: LendingResult<IFixedPoint>)
        ensures
            r == spec_i_mul(self.0, ufp_to_ifp(value)),
    {
        self.0.safe_mul(value)
    }

    /// The interest earned by `value` atoms.
    pub fn interest_on_atoms(self, value: u64) -> (r: LendingResult<IFixedPoint>)
        ensures
            r == spec_i_mul_int(self.0, value),
    {
        self.0.safe_mul(value)
    }

    /// The rate scaled by the utilisation rate.
    pub fn adjust_for_utilisation_rate(self, utilisation_rate: IFixedPoint) -> (r: LendingResult<
        InterestRate,
    >)
        ensures
            r == spec_map_rate(spec_i_mul(self.0, utilisation_rate)),
    {
        match self.0.safe_mul(utilisation_rate) {
            Ok(v) => Ok(InterestRate(v)),
            Err(e) => Err(e),
        }
    }
}

} // verus!
