//! What an interest-rate curve is given to produce a borrow rate.
use crate::error::{LendingError, LendingResult};
use crate::math::bps::ONE_IN_BPS;
use crate::math::ifixed_point::{spec_i_mul_int, spec_i_round_down, IFixedPoint};
use crate::math::safe_math::SafeMath;
use vstd::prelude::*;

verus! {

/// The market state a borrow rate depends on.
#[derive(Debug, Clone, Copy, PartialEq, Eq, Structural)]
pub struct MarketBorrowRateParameters {
    pub utilisation_rate: IFixedPoint,
    pub elapsed_seconds_since_last_update: u64,
}

/// The utilisation rate in basis points, rounded down.
pub open spec fn spec_utilisation_rate_bps(utilisation_rate: IFixedPoint) -> LendingResult<u32> {
    match spec_i_mul_int(utilisation_rate, 10_000) {
        Err(e) => Err(e),
        Ok(m) => match spec_i_round_down(m) {
            Err(e) => Err(e),
            Ok(v) => if v <= u32::MAX {
                Ok(v as u32)
            } else {
                Err(LendingError::CastOverflow)
            },
        },
    }
}

impl MarketBorrowRateParameters {
    /// The utilisation rate in basis points; a `CastOverflow` when negative
    /// or beyond `u32`.
    pub fn utilisation_rate_bps(&self) -> (r: LendingResult<u32>)
        ensures
            r == spec_utilisation_rate_bps(self.utilisation_rate),
    {
        let m = match self.utilisation_rate.safe_mul(ONE_IN_BPS as u64) {
            Ok(v) => v,
            Err(e) => return Err(e),
        };
        let v = match m.as_u64_rounded_down() {
            Ok(v) => v,
            Err(e) => return Err(e),
        };
        if v > 0xffff_ffffu64 {
            Err(LendingError::CastOverflow)
        } else {
            Ok(v as u32)
        }
    }
}

} // verus!
