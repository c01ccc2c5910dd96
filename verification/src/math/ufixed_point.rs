//! Unsigned 64.64 fixed-point numbers, used for shares and share prices.
use crate::error::{LendingError, LendingResult};
use crate::math::fixed_ops::{
    in_u64, in_u128, opt_u128, u64f64_checked_div, u64f64_checked_mul, u_checked_div,
    u_checked_mul, u_one,
};
use crate::math::rounding::RoundingMode;
use crate::math::safe_math::SafeMath;
use vstd::prelude::*;

verus! {

/// An unsigned fixed-point number with 64 integer and 64 fractional bits:
/// its value is `bits / 2^64`.
#[derive(Clone, Copy, Debug, Default, PartialEq, Eq, PartialOrd, Ord, Hash, Structural)]
pub struct UFixedPoint {
    pub bits: u128,
}

/// The unsigned number with the given bits.
pub open spec fn ufp(bits: int) -> UFixedPoint {
    UFixedPoint { bits: bits as u128 }
}

/// `Ok` of the number with bits `o`, or `e` when `o` is `None`.
pub open spec fn ufp_res(o: Option<u128>, e: LendingError) -> LendingResult<UFixedPoint> {
    match o {
        Some(b) => Ok(UFixedPoint { bits: b }),
        None => Err(e),
    }
}

/// The integer part of `x`, rounded down.
pub open spec fn ufp_floor(x: UFixedPoint) -> int {
    x.bits as int / u_one()
}

/// The integer part of `x`, rounded up.
pub open spec fn ufp_ceil(x: UFixedPoint) -> int {
    if x.bits as int % u_one() == 0 {
        ufp_floor(x)
    } else {
        ufp_floor(x) + 1
    }
}

/// `x` converted to atoms with the given rounding.
pub open spec fn ufp_round(x: UFixedPoint, rounding: RoundingMode) -> int {
    match rounding {
        RoundingMode::RoundDown => ufp_floor(x),
        RoundingMode::RoundUp => ufp_ceil(x),
    }
}

pub open spec fn spec_u_add(a: UFixedPoint, b: UFixedPoint) -> LendingResult<UFixedPoint> {
    ufp_res(opt_u128(a.bits + b.bits), LendingError::AdditionOverflow)
}

pub open spec fn spec_u_sub(a: UFixedPoint, b: UFixedPoint) -> LendingResult<UFixedPoint> {
    ufp_res(opt_u128(a.bits - b.bits), LendingError::SubtractionOverflow)
}

pub open spec fn spec_u_mul(a: UFixedPoint, b: UFixedPoint) -> LendingResult<UFixedPoint> {
    ufp_res(u_checked_mul(a.bits, b.bits), LendingError::MultiplicationOverflow)
}

pub open spec fn spec_u_div(a: UFixedPoint, b: UFixedPoint) -> LendingResult<UFixedPoint> {
    ufp_res(u_checked_div(a.bits, b.bits), LendingError::DivisionOverflow)
}

pub open spec fn spec_u_add_int(a: UFixedPoint, b: u64) -> LendingResult<UFixedPoint> {
    ufp_res(opt_u128(a.bits + b * u_one()), LendingError::AdditionOverflow)
}

pub open spec fn spec_u_sub_int(a: UFixedPoint, b: u64) -> LendingResult<UFixedPoint> {
    ufp_res(opt_u128(a.bits - b * u_one()), LendingError::SubtractionOverflow)
}

pub open spec fn spec_u_mul_int(a: UFixedPoint, b: u64) -> LendingResult<UFixedPoint> {
    ufp_res(opt_u128(a.bits * b), LendingError::MultiplicationOverflow)
}

pub open spec fn spec_u_div_int(a: UFixedPoint, b: u64) -> LendingResult<UFixedPoint> {
    if b == 0 {
        Err(LendingError::DivisionByZero)
    } else {
        Ok(ufp(a.bits as int / b as int))
    }
}

impl UFixedPoint {
    pub const FRAC_NBITS: u32 = 64;

    /// The largest representable number.
    pub fn max_value() -> (r: Self)
        ensures
            r.bits == u128::MAX,
    {
        UFixedPoint { bits: u128::MAX }
    }

    /// The smallest representable number, zero.
    pub fn min_value() -> (r: Self)
        ensures
            r.bits == 0,
    {
        UFixedPoint { bits: 0 }
    }

    pub fn bits(self) -> (r: u128)
        ensures
            r == self.bits,
    {
        self.bits
    }

    pub fn from_bits(bits: u128) -> (r: Self)
        ensures
            r.bits == bits,
    {
        UFixedPoint { bits }
    }

    /// The integer `num`.
    pub fn from_u64(num: u64) -> (r: Self)
        ensures
            r.bits == num * u_one(),
    {
        assert(num * u_one() <= u128::MAX) by (nonlinear_arith)
            requires
                num <= u64::MAX,
        ;
        UFixedPoint { bits: (num as u128) * 0x1_0000_0000_0000_0000u128 }
    }

    pub fn zero() -> (r: Self)
        ensures
            r.bits == 0,
    {
        UFixedPoint { bits: 0 }
    }

    pub fn one() -> (r: Self)
        ensures
            r.bits == u_one(),
    {
        UFixedPoint { bits: 0x1_0000_0000_0000_0000u128 }
    }

    pub fn is_zero(self) -> (r: bool)
        ensures
            r == (self.bits == 0),
    {
        self.bits == 0
    }

    /// `num / dem` rounded down; the denominator must not be zero.
    pub fn from_u64_u64_ratio(num: u64, dem: u64) -> (r: Self)
        requires
            dem != 0,
        ensures
            r.bits == (num * u_one()) / (dem as int),
    {
        let n = (num as u128) * 0x1_0000_0000_0000_0000u128;
        proof {
            assert(num * u_one() <= u128::MAX) by (nonlinear_arith)
                requires
                    num <= u64::MAX,
            ;
            assert(n / (dem as u128) <= n) by (nonlinear_arith)
                requires
                    dem >= 1,
            ;
        }
        UFixedPoint { bits: n / (dem as u128) }
    }

    /// `num / dem` as a fixed-point number; a zero denominator or an
    /// overflowing quotient is a `DivisionOverflow`.
    pub fn from_ratio(num: u64, dem: u64) -> (r: LendingResult<Self>)
        ensures
            r == spec_u_div(ufp(num * u_one()), ufp(dem * u_one())),
    {
        UFixedPoint::from_u64(num).safe_div(UFixedPoint::from_u64(dem))
    }

    /// The integer part, rounded down; always fits in a `u64`.
    pub fn as_u64_rounded_down(self) -> (r: LendingResult<u64>)
        ensures
            r == Ok::<u64, LendingError>(ufp_floor(self) as u64),
            in_u64(ufp_floor(self)),
    {
        let q = self.bits / 0x1_0000_0000_0000_0000u128;
        assert(q <= u64::MAX) by (nonlinear_arith)
            requires
                q == self.bits / 0x1_0000_0000_0000_0000u128,
                self.bits <= u128::MAX,
        ;
        Ok(q as u64)
    }

    /// The integer part, rounded up (saturating at `u64::MAX`).
    pub fn as_u64_rounded_up(self) -> (r: LendingResult<u64>)
        ensures
            r == Ok::<u64, LendingError>(
                if ufp_ceil(self) > u64::MAX {
                    u64::MAX
                } else {
                    ufp_ceil(self) as u64
                },
            ),
    {
        let q = self.bits / 0x1_0000_0000_0000_0000u128;
        assert(q <= u64::MAX) by (nonlinear_arith)
            requires
                q == self.bits / 0x1_0000_0000_0000_0000u128,
                self.bits <= u128::MAX,
        ;
        let rounded_down = q as u64;
        if self.bits % 0x1_0000_0000_0000_0000u128 == 0 {
            Ok(rounded_down)
        } else {
            Ok(rounded_down.saturating_add(1))
        }
    }

    /// The integer part with the given rounding.
    pub fn as_u64_rounded(self, rounding: RoundingMode) -> (r: LendingResult<u64>)
        ensures
            r == Ok::<u64, LendingError>(
                if ufp_round(self, rounding) > u64::MAX {
                    u64::MAX
                } else {
                    ufp_round(self, rounding) as u64
                },
            ),
    {
        match rounding {
            RoundingMode::RoundDown => self.as_u64_rounded_down(),
            RoundingMode::RoundUp => self.as_u64_rounded_up(),
        }
    }

    /// Shifts left by `shift` bits when `shift >= 0`, right by `-shift` bits
    /// otherwise; `None` when the shift amount is 128 or more. Bits shifted
    /// out on the left are lost.
    pub fn checked_shift(&self, shift: i32) -> (r: Option<Self>)
        ensures
            shift < 0 ==> r == (if -shift >= 128 {
                None
            } else {
                Some(UFixedPoint { bits: (self.bits >> ((-shift) as u128)) })
            }),
            shift >= 0 ==> r == (if shift >= 128 {
                None
            } else {
                Some(UFixedPoint { bits: (self.bits << (shift as u128)) })
            }),
    {
        if shift < 0 {
            if shift <= -128 {
                None
            } else {
                let n = (-shift) as u128;
                Some(UFixedPoint { bits: self.bits >> n })
            }
        } else {
            if shift >= 128 {
                None
            } else {
                let n = shift as u128;
                Some(UFixedPoint { bits: self.bits << n })
            }
        }
    }
}

impl SafeMath<UFixedPoint, UFixedPoint> for UFixedPoint {
    fn safe_add(self, other: UFixedPoint) -> (r: LendingResult<UFixedPoint>)
        ensures
            r == spec_u_add(self, other),
    {
        match self.bits.checked_add(other.bits) {
            Some(b) => Ok(UFixedPoint { bits: b }),
            None => Err(LendingError::AdditionOverflow),
        }
    }

    fn safe_sub(self, other: UFixedPoint) -> (r: LendingResult<UFixedPoint>)
        ensures
            r == spec_u_sub(self, other),
    {
        match self.bits.checked_sub(other.bits) {
            Some(b) => Ok(UFixedPoint { bits: b }),
            None => Err(LendingError::SubtractionOverflow),
        }
    }

    fn safe_mul(self, other: UFixedPoint) -> (r: LendingResult<UFixedPoint>)
        ensures
            r == spec_u_mul(self, other),
    {
        match u64f64_checked_mul(self.bits, other.bits) {
            Some(b) => Ok(UFixedPoint { bits: b }),
            None => Err(LendingError::MultiplicationOverflow),
        }
    }

    fn safe_div(self, other: UFixedPoint) -> (r: LendingResult<UFixedPoint>)
        ensures
            r == spec_u_div(self, other),
    {
        match u64f64_checked_div(self.bits, other.bits) {
            Some(b) => Ok(UFixedPoint { bits: b }),
            None => Err(LendingError::DivisionOverflow),
        }
    }
}

impl SafeMath<u64, UFixedPoint> for UFixedPoint {
    fn safe_add(self, other: u64) -> (r: LendingResult<UFixedPoint>)
        ensures
            r == spec_u_add_int(self, other),
    {
        self.safe_add(UFixedPoint::from_u64(other))
    }

    fn safe_sub(self, other: u64) -> (r: LendingResult<UFixedPoint>)
        ensures
            r == spec_u_sub_int(self, other),
    {
        self.safe_sub(UFixedPoint::from_u64(other))
    }

    fn safe_mul(self, other: u64) -> (r: LendingResult<UFixedPoint>)
        ensures
            r == spec_u_mul_int(self, other),
    {
        match self.bits.checked_mul(other as u128) {
            Some(b) => Ok(UFixedPoint { bits: b }),
            None => Err(LendingError::MultiplicationOverflow),
        }
    }

    fn safe_div(self, other: u64) -> (r: LendingResult<UFixedPoint>)
        ensures
            r == spec_u_div_int(self, other),
    {
        if other == 0 {
            Err(LendingError::DivisionByZero)
        } else {
            Ok(UFixedPoint { bits: self.bits / (other as u128) })
        }
    }
}

} // verus!
