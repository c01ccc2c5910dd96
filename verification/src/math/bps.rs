//! Basis points (1/10_000).
use crate::error::LendingResult;
use crate::math::fixed_ops::u_one;
use crate::math::safe_math::SafeMath;
use crate::math::ufixed_point::{spec_u_mul_int, ufp, UFixedPoint};
use vstd::prelude::*;

verus! {

pub const ONE_IN_BPS: u32 = 10_000;

/// `percent` percent in basis points; `percent` must not exceed
/// `u64::MAX / 100`.
pub fn percent_to_bps(percent: u64) -> (r: u64)
    requires
        percent * 100 <= u64::MAX,
    ensures
        r == percent * 100,
{
    percent * 100
}

/// `bps` basis points in whole percent, rounded down.
pub fn bps_to_percent(bps: u64) -> (r: u64)
    ensures
        r == bps / 100,
{
    bps / 100
}

/// `bps / 10_000` as a fixed-point number, rounded down.
pub fn bps_to_fixed_point(bps: u64) -> (r: UFixedPoint)
    ensures
        r.bits == (bps * u_one()) / 10_000,
{
    UFixedPoint::from_u64_u64_ratio(bps, ONE_IN_BPS as u64)
}

/// The share `bps / 10_000` of `fixed`: `fixed * bps` (overflow checked),
/// then divided by 10_000 rounding the bits down.
pub fn bps_from_fixed_point(bps: u64, fixed: UFixedPoint) -> (r: LendingResult<UFixedPoint>)
    ensures
        r == (match spec_u_mul_int(fixed, bps) {
            Ok(m) => Ok(ufp(m.bits as int / 10_000)),
            Err(e) => Err(e),
        }),
{
    match fixed.safe_mul(bps) {
        Ok(m) => {
            let d = match m.safe_div(ONE_IN_BPS as u64) {
                Ok(d) => d,
                Err(e) => return Err(e),
            };
            Ok(d)
        },
        Err(e) => Err(e),
    }
}

} // verus!
