//! The price of one whole token, with its confidence interval.
use crate::constant::{pow10, power_of_ten};
use crate::error::{LendingError, LendingResult};
use crate::math::fixed_ops::i_one;
use crate::math::ifixed_point::{
    ifp, spec_i_add, spec_i_div, spec_i_mul, spec_i_mul_int, spec_i_sub, IFixedPoint,
};
use crate::math::safe_math::SafeMath;
use vstd::prelude::*;

verus! {

/// The rate per whole token of an asset, `rate +/- confidence`.
#[derive(Clone, Copy, Debug, PartialEq, Eq, Default, Structural)]
pub struct OracleRate {
    pub rate: IFixedPoint,
    pub confidence: IFixedPoint,
}

/// `10^n` as a signed fixed-point number.
pub open spec fn pow10_fixed(n: nat) -> IFixedPoint {
    ifp(pow10(n) * i_one())
}

pub open spec fn spec_lower_bound(o: OracleRate) -> LendingResult<IFixedPoint> {
    spec_i_sub(o.rate, o.confidence)
}

pub open spec fn spec_upper_bound(o: OracleRate) -> LendingResult<IFixedPoint> {
    spec_i_add(o.rate, o.confidence)
}

/// The value of `amount` atoms of collateral, priced at the lower bound.
pub open spec fn spec_collateral_value(o: OracleRate, amount: u64, decimals: u8) -> LendingResult<
    IFixedPoint,
> {
    match spec_lower_bound(o) {
        Err(e) => Err(e),
        Ok(p) => match spec_i_mul_int(p, amount) {
            Err(e) => Err(e),
            Ok(m) => spec_i_div(m, pow10_fixed(decimals as nat)),
        },
    }
}

/// The atoms of collateral worth `value`, priced at the lower bound.
pub open spec fn spec_collateral_atoms(o: OracleRate, value: IFixedPoint, decimals: u8) -> LendingResult<
    IFixedPoint,
> {
    match spec_i_mul(value, pow10_fixed(decimals as nat)) {
        Err(e) => Err(e),
        Ok(m) => match spec_lower_bound(o) {
            Err(e) => Err(e),
            Ok(p) => spec_i_div(m, p),
        },
    }
}

/// The value of `amount` borrowed atoms, priced at the upper bound.
pub open spec fn spec_borrow_value(o: OracleRate, amount: u64, decimals: u8) -> LendingResult<
    IFixedPoint,
> {
    match spec_upper_bound(o) {
        Err(e) => Err(e),
        Ok(p) => match spec_i_mul_int(p, amount) {
            Err(e) => Err(e),
            Ok(m) => spec_i_div(m, pow10_fixed(decimals as nat)),
        },
    }
}

/// The borrowed atoms worth `value`, priced at the upper bound.
pub open spec fn spec_borrow_atoms(o: OracleRate, value: IFixedPoint, decimals: u8) -> LendingResult<
    IFixedPoint,
> {
    match spec_i_mul(value, pow10_fixed(decimals as nat)) {
        Err(e) => Err(e),
        Ok(m) => match spec_upper_bound(o) {
            Err(e) => Err(e),
            Ok(p) => spec_i_div(m, p),
        },
    }
}

/// The outcome of `try_new`.
pub open spec fn spec_try_new(rate: IFixedPoint, confidence: IFixedPoint) -> LendingResult<OracleRate> {
    if rate.bits <= 0 {
        Err(LendingError::OracleRateIsNull)
    } else if confidence.bits < 0 {
        Err(LendingError::NegativeOracleRate)
    } else if confidence.bits >= rate.bits {
        Err(LendingError::OracleConfidenceExceedsRate)
    } else {
        Ok(OracleRate { rate, confidence })
    }
}

/// `x` scaled by `10^expo`.
pub open spec fn spec_scale_expo(x: u64, expo: i8) -> LendingResult<IFixedPoint> {
    if expo <= 0 {
        spec_i_div(ifp(x * i_one()), pow10_fixed((-expo) as nat))
    } else {
        spec_i_mul(ifp(x * i_one()), pow10_fixed(expo as nat))
    }
}

/// The outcome of `try_from_price_expo_conf`.
pub open spec fn spec_from_price_expo_conf(price: u64, confidence: u64, expo: i8) -> LendingResult<
    OracleRate,
> {
    if expo == i8::MIN {
        Err(LendingError::CastOverflow)
    } else {
        match spec_scale_expo(price, expo) {
            Err(e) => Err(e),
            Ok(rate) => match spec_scale_expo(confidence, expo) {
                Err(e) => Err(e),
                Ok(conf) => Ok(OracleRate { rate, confidence: conf }),
            },
        }
    }
}

impl OracleRate {
    pub fn new(rate: IFixedPoint, confidence: IFixedPoint) -> (r: Self)
        ensures
            r.rate == rate,
            r.confidence == confidence,
    {
        OracleRate { rate, confidence }
    }

    /// A rate that is positive, with a confidence interval that is not
    /// negative and narrower than the rate.
    pub fn try_new(rate: IFixedPoint, confidence: IFixedPoint) -> (r: LendingResult<Self>)
        ensures
            r == spec_try_new(rate, confidence),
    {
        if rate.bits <= 0 {
            return Err(LendingError::OracleRateIsNull);
        }
        if confidence.is_negative() {
            return Err(LendingError::NegativeOracleRate);
        }
        if confidence.bits >= rate.bits {
            return Err(LendingError::OracleConfidenceExceedsRate);
        }
        Ok(OracleRate { rate, confidence })
    }

    fn scale_expo(x: u64, expo: i8) -> (r: LendingResult<IFixedPoint>)
        requires
            -18 <= expo <= 18,
        ensures
            r == spec_scale_expo(x, expo),
    {
        if expo <= 0 {
            let p = power_of_ten((-expo) as u8);
            IFixedPoint::from_u64(x).safe_div(p)
        } else {
            let p = power_of_ten(expo as u8);
            IFixedPoint::from_u64(x).safe_mul(p)
        }
    }

    /// The rate `price * 10^expo +/- confidence * 10^expo`; `expo` must lie
    /// within `[-18, 18]`, and `i8::MIN` is refused.
    pub fn try_from_price_expo_conf(price: u64, confidence: u64, expo: i8) -> (r: LendingResult<Self>)
        requires
            expo == i8::MIN || -18 <= expo <= 18,
        ensures
            r == spec_from_price_expo_conf(price, confidence, expo),
    {
        if expo == i8::MIN {
            return Err(LendingError::CastOverflow);
        }
        let rate = match Self::scale_expo(price, expo) {
            Ok(v) => v,
            Err(e) => return Err(e),
        };
        let conf = match Self::scale_expo(confidence, expo) {
            Ok(v) => v,
            Err(e) => return Err(e),
        };
        Ok(OracleRate { rate, confidence: conf })
    }

    pub fn rate(&self) -> (r: IFixedPoint)
        ensures
            r == self.rate,
    {
        self.rate
    }

    pub fn confidence(&self) -> (r: IFixedPoint)
        ensures
            r == self.confidence,
    {
        self.confidence
    }

    pub fn lower_bound_rate(&self) -> (r: LendingResult<IFixedPoint>)
        ensures
            r == spec_lower_bound(*self),
    {
        self.rate.safe_sub(self.confidence)
    }

    pub fn upper_bound_rate(&self) -> (r: LendingResult<IFixedPoint>)
        ensures
            r == spec_upper_bound(*self),
    {
        self.rate.safe_add(self.confidence)
    }

    /// The value of `amount` atoms of collateral with `decimals` decimals.
    pub fn collateral_value(&self, amount: u64, decimals: u8) -> (r: LendingResult<IFixedPoint>)
        requires
            decimals <= 18,
        ensures
            r == spec_collateral_value(*self, amount, decimals),
    {
        let p = match self.lower_bound_rate() {
            Ok(v) => v,
            Err(e) => return Err(e),
        };
        let m = match p.safe_mul(amount) {
            Ok(v) => v,
            Err(e) => return Err(e),
        };
        m.safe_div(power_of_ten(decimals))
    }

    /// The atoms of collateral with `decimals` decimals worth `value`.
    pub fn collateral_atoms(&self, value: IFixedPoint, decimals: u8) -> (r: LendingResult<IFixedPoint>)
        requires
            decimals <= 18,
        ensures
            r == spec_collateral_atoms(*self, value, decimals),
    {
        let m = match value.safe_mul(power_of_ten(decimals)) {
            Ok(v) => v,
            Err(e) => return Err(e),
        };
        let p = match self.lower_bound_rate() {
            Ok(v) => v,
            Err(e) => return Err(e),
        };
        m.safe_div(p)
    }

    /// The value of `amount` borrowed atoms with `decimals` decimals.
    pub fn borrow_value(&self, amount: u64, decimals: u8) -> (r: LendingResult<IFixedPoint>)
        requires
            decimals <= 18,
        ensures
            r == spec_borrow_value(*self, amount, decimals),
    {
        let p = match self.upper_bound_rate() {
            Ok(v) => v,
            Err(e) => return Err(e),
        };
        let m = match p.safe_mul(amount) {
            Ok(v) => v,
            Err(e) => return Err(e),
        };
        m.safe_div(power_of_ten(decimals))
    }

    /// The borrowed atoms with `decimals` decimals worth `value`.
    pub fn borrow_atoms(&self, value: IFixedPoint, decimals: u8) -> (r: LendingResult<IFixedPoint>)
        requires
            decimals <= 18,
        ensures
            r == spec_borrow_atoms(*self, value, decimals),
    {
        let m = match value.safe_mul(power_of_ten(decimals)) {
            Ok(v) => v,
            Err(e) => return Err(e),
        };
        let p = match self.upper_bound_rate() {
            Ok(v) => v,
            Err(e) => return Err(e),
        };
        m.safe_div(p)
    }

    /// `confidence / rate`.
    pub fn relative_confidence(&self) -> (r: LendingResult<IFixedPoint>)
        ensures
            r == spec_i_div(self.confidence, self.rate),
    {
        self.confidence.safe_div(self.rate)
    }
}

} // verus!
