//! Signed 80.48 fixed-point numbers, used for rates, prices and values.
use crate::error::{LendingError, LendingResult};
use crate::math::fixed_ops::{
    i80f48_checked_div, i80f48_checked_mul, i_checked_div, i_checked_mul, i_one, in_i128, in_u64,
    opt_i128, trunc_div, u_one,
};
use crate::math::rounding::RoundingMode;
use crate::math::safe_math::SafeMath;
use crate::math::ufixed_point::UFixedPoint;
use vstd::prelude::*;

verus! {

/// A signed fixed-point number with 80 integer and 48 fractional bits: its
/// value is `bits / 2^48`.
#[derive(Clone, Copy, Debug, Default, PartialEq, Eq, PartialOrd, Ord, Hash, Structural)]
pub struct IFixedPoint {
    pub bits: i128,
}

/// The signed number with the given bits.
pub open spec fn ifp(bits: int) -> IFixedPoint {
    IFixedPoint { bits: bits as i128 }
}

/// `Ok` of the number with bits `o`, or `e` when `o` is `None`.
pub open spec fn ifp_res(o: Option<i128>, e: LendingError) -> LendingResult<IFixedPoint> {
    match o {
        Some(b) => Ok(IFixedPoint { bits: b }),
        None => Err(e),
    }
}

/// The integer part of `x`, rounded towards negative infinity.
pub open spec fn ifp_floor(x: IFixedPoint) -> int {
    x.bits as int / i_one()
}

/// The integer part rounded down, as a `u64` when it fits.
pub open spec fn spec_i_round_down(x: IFixedPoint) -> LendingResult<u64> {
    if in_u64(ifp_floor(x)) {
        Ok(ifp_floor(x) as u64)
    } else {
        Err(LendingError::CastOverflow)
    }
}

/// The integer part rounded up, as a `u64` (saturating) when the rounded-down
/// part fits.
pub open spec fn spec_i_round_up(x: IFixedPoint) -> LendingResult<u64> {
    if !in_u64(ifp_floor(x)) {
        Err(LendingError::CastOverflow)
    } else if x.bits as int % i_one() == 0 {
        Ok(ifp_floor(x) as u64)
    } else if ifp_floor(x) == u64::MAX {
        Ok(u64::MAX)
    } else {
        Ok((ifp_floor(x) + 1) as u64)
    }
}

pub open spec fn spec_i_round(x: IFixedPoint, rounding: RoundingMode) -> LendingResult<u64> {
    match rounding {
        RoundingMode::RoundDown => spec_i_round_down(x),
        RoundingMode::RoundUp => spec_i_round_up(x),
    }
}

/// An unsigned number in the signed format: the 16 lowest fractional bits
/// are dropped, and the result always fits.
pub open spec fn ufp_to_ifp(u: UFixedPoint) -> IFixedPoint {
    ifp(u.bits as int / 0x1_0000)
}

/// A signed number in the unsigned format, when it is not negative and its
/// integer part fits in 64 bits.
pub open spec fn ifp_to_ufp(i: IFixedPoint) -> Option<UFixedPoint> {
    if 0 <= i.bits && i.bits * 0x1_0000 <= u128::MAX {
        Some(UFixedPoint { bits: (i.bits * 0x1_0000) as u128 })
    } else {
        None
    }
}

pub open spec fn spec_i_add(a: IFixedPoint, b: IFixedPoint) -> LendingResult<IFixedPoint> {
    ifp_res(opt_i128(a.bits + b.bits), LendingError::AdditionOverflow)
}

pub open spec fn spec_i_sub(a: IFixedPoint, b: IFixedPoint) -> LendingResult<IFixedPoint> {
    ifp_res(opt_i128(a.bits - b.bits), LendingError::SubtractionOverflow)
}

pub open spec fn spec_i_mul(a: IFixedPoint, b: IFixedPoint) -> LendingResult<IFixedPoint> {
    ifp_res(i_checked_mul(a.bits, b.bits), LendingError::MultiplicationOverflow)
}

pub open spec fn spec_i_div(a: IFixedPoint, b: IFixedPoint) -> LendingResult<IFixedPoint> {
    ifp_res(i_checked_div(a.bits, b.bits), LendingError::DivisionOverflow)
}

pub open spec fn spec_i_add_int(a: IFixedPoint, b: u64) -> LendingResult<IFixedPoint> {
    ifp_res(opt_i128(a.bits + b * i_one()), LendingError::AdditionOverflow)
}

pub open spec fn spec_i_sub_int(a: IFixedPoint, b: u64) -> LendingResult<IFixedPoint> {
    ifp_res(opt_i128(a.bits - b * i_one()), LendingError::SubtractionOverflow)
}

pub open spec fn spec_i_mul_int(a: IFixedPoint, b: u64) -> LendingResult<IFixedPoint> {
    ifp_res(opt_i128(a.bits * b), LendingError::MultiplicationOverflow)
}

pub open spec fn spec_i_div_int(a: IFixedPoint, b: u64) -> LendingResult<IFixedPoint> {
    if b == 0 {
        Err(LendingError::DivisionByZero)
    } else {
        Ok(ifp(trunc_div(a.bits as int, b as int)))
    }
}

/// `a / b` rounded towards zero, for a positive divisor.
fn trunc_div_i128(a: i128, b: u128) -> (r: i128)
    requires
        b > 0,
    ensures
        r == trunc_div(a as int, b as int),
{
    if a >= 0 {
        let q = (a as u128) / b;
        assert(q <= a) by (nonlinear_arith)
            requires
                q == (a as u128) / b,
                b >= 1,
                a >= 0,
        ;
        q as i128
    } else {
        let m: u128 = ((-(a + 1)) as u128) + 1;
        let q = m / b;
        assert(q <= m) by (nonlinear_arith)
            requires
                q == m / b,
                b >= 1,
        ;
        if q == 0x8000_0000_0000_0000_0000_0000_0000_0000u128 {
            i128::MIN
        } else {
            -(q as i128)
        }
    }
}

impl IFixedPoint {
    pub const FRAC_NBITS: u32 = 48;

    /// The largest representable number.
    pub fn max_value() -> (r: Self)
        ensures
            r.bits == i128::MAX,
    {
        IFixedPoint { bits: i128::MAX }
    }

    /// The smallest representable number.
    pub fn min_value() -> (r: Self)
        ensures
            r.bits == i128::MIN,
    {
        IFixedPoint { bits: i128::MIN }
    }

    pub fn bits(self) -> (r: i128)
        ensures
            r == self.bits,
    {
        self.bits
    }

    pub fn from_bits(bits: i128) -> (r: Self)
        ensures
            r.bits == bits,
    {
        IFixedPoint { bits }
    }

    /// The integer `num`.
    pub fn from_u64(num: u64) -> (r: Self)
        ensures
            r.bits == num * i_one(),
    {
        assert(num * i_one() <= i128::MAX) by (nonlinear_arith)
            requires
                num <= u64::MAX,
        ;
        IFixedPoint { bits: (num as i128) * 0x1_0000_0000_0000i128 }
    }

    /// The integer `num`.
    pub fn from_i64(num: i64) -> (r: Self)
        ensures
            r.bits == num * i_one(),
    {
        assert(i128::MIN <= num * i_one() <= i128::MAX) by (nonlinear_arith)
            requires
                i64::MIN <= num <= i64::MAX,
        ;
        IFixedPoint { bits: (num as i128) * 0x1_0000_0000_0000i128 }
    }

    /// `num / dem`, rounded towards zero; the denominator must not be zero.
    pub fn from_i64_u64_ratio(num: i64, dem: u64) -> (r: Self)
        requires
            dem != 0,
        ensures
            r.bits == trunc_div(num * i_one(), dem as int),
    {
        let n = IFixedPoint::from_i64(num).bits;
        IFixedPoint { bits: trunc_div_i128(n, dem as u128) }
    }

    pub fn zero() -> (r: Self)
        ensures
            r.bits == 0,
    {
        IFixedPoint { bits: 0 }
    }

    pub fn one() -> (r: Self)
        ensures
            r.bits == i_one(),
    {
        IFixedPoint { bits: 0x1_0000_0000_0000i128 }
    }

    pub fn is_zero(self) -> (r: bool)
        ensures
            r == (self.bits == 0),
    {
        self.bits == 0
    }

    pub fn is_negative(self) -> (r: bool)
        ensures
            r == (self.bits < 0),
    {
        self.bits < 0
    }

    /// The opposite number; the smallest number has none.
    pub fn neg(self) -> (r: Self)
        requires
            self.bits > i128::MIN,
        ensures
            r.bits == -self.bits,
    {
        IFixedPoint { bits: -self.bits }
    }

    /// `num / dem` as a fixed-point number; a zero denominator or an
    /// overflowing quotient is a `DivisionOverflow`.
    pub fn from_ratio(num: u64, dem: u64) -> (r: LendingResult<Self>)
        ensures
            r == spec_i_div(ifp(num * i_one()), ifp(dem * i_one())),
    {
        IFixedPoint::from_u64(num).safe_div(IFixedPoint::from_u64(dem))
    }

    /// The unsigned number in this format; it always fits.
    pub fn from_ufixed(value: UFixedPoint) -> (r: Option<Self>)
        ensures
            r == Some(ufp_to_ifp(value)),
    {
        Some(IFixedPoint { bits: (value.bits / 0x1_0000u128) as i128 })
    }

    /// The unsigned number in this format.
    pub fn try_from_ufixed(value: UFixedPoint) -> (r: LendingResult<Self>)
        ensures
            r == Ok::<IFixedPoint, LendingError>(ufp_to_ifp(value)),
    {
        match IFixedPoint::from_ufixed(value) {
            Some(v) => Ok(v),
            None => Err(LendingError::CastOverflow),
        }
    }

    /// The integer part rounded down; negative numbers and numbers of 2^64 or
    /// more are a `CastOverflow`.
    pub fn as_u64_rounded_down(self) -> (r: LendingResult<u64>)
        ensures
            r == spec_i_round_down(self),
    {
        if self.bits < 0 {
            assert(ifp_floor(self) < 0) by (nonlinear_arith)
                requires
                    self.bits < 0,
            ;
            return Err(LendingError::CastOverflow);
        }
        let q = (self.bits as u128) / 0x1_0000_0000_0000u128;
        if q > 0xffff_ffff_ffff_ffffu128 {
            Err(LendingError::CastOverflow)
        } else {
            Ok(q as u64)
        }
    }

    /// The integer part rounded up (saturating at `u64::MAX`); a
    /// `CastOverflow` when the rounded-down part does not fit.
    pub fn as_u64_rounded_up(self) -> (r: LendingResult<u64>)
        ensures
            r == spec_i_round_up(self),
    {
        let rounded_down = match self.as_u64_rounded_down() {
            Ok(v) => v,
            Err(e) => return Err(e),
        };
        if (self.bits as u128) % 0x1_0000_0000_0000u128 == 0 {
            Ok(rounded_down)
        } else {
            Ok(rounded_down.saturating_add(1))
        }
    }

    /// The integer part with the given rounding.
    pub fn as_u64_rounded(self, rounding: RoundingMode) -> (r: LendingResult<u64>)
        ensures
            r == spec_i_round(self, rounding),
    {
        match rounding {
            RoundingMode::RoundDown => self.as_u64_rounded_down(),
            RoundingMode::RoundUp => self.as_u64_rounded_up(),
        }
    }

    /// The integer part rounded towards negative infinity, when it fits in an
    /// `i32`.
    pub fn checked_to_i32(self) -> (r: LendingResult<i32>)
        ensures
            r == (if i32::MIN <= ifp_floor(self) <= i32::MAX {
                Ok::<i32, LendingError>(ifp_floor(self) as i32)
            } else {
                Err(LendingError::CastOverflow)
            }),
    {
        let q: i128 = if self.bits >= 0 {
            ((self.bits as u128) / 0x1_0000_0000_0000u128) as i128
        } else {
            let m: u128 = (-(self.bits + 1)) as u128;
            let q0 = m / 0x1_0000_0000_0000u128;
            proof {
                assert(q0 < 0x1_0000_0000_0000_0000_0000u128) by (nonlinear_arith)
                    requires
                        q0 == m / 0x1_0000_0000_0000u128,
                        m < 0x8000_0000_0000_0000_0000_0000_0000_0000u128,
                ;
                assert(-(q0 as int) - 1 == (self.bits as int) / i_one()) by (nonlinear_arith)
                    requires
                        q0 == m / 0x1_0000_0000_0000u128,
                        m == -(self.bits + 1),
                        self.bits < 0,
                ;
            }
            -(q0 as i128) - 1
        };
        if q < -2147483648i128 || q > 2147483647i128 {
            Err(LendingError::CastOverflow)
        } else {
            Ok(q as i32)
        }
    }

    /// Shifts left by `shift` bits when `shift >= 0`, right (arithmetically)
    /// by `-shift` bits otherwise; `None` when the shift amount is 128 or
    /// more. Bits shifted out on the left are lost.
    pub fn checked_shift(&self, shift: i32) -> (r: Option<Self>)
        ensures
            r == spec_i_shift(*self, shift),
    {
        if shift < 0 {
            if shift <= -128 {
                None
            } else {
                let n = (-shift) as u32;
                Some(IFixedPoint { bits: self.bits >> n })
            }
        } else {
            if shift >= 128 {
                None
            } else {
                let n = shift as u32;
                Some(IFixedPoint { bits: self.bits << n })
            }
        }
    }
}

/// Bits of `-33.21`, below which `exp` is rounded to zero (`ln(2^-48)`).
pub const MIN_EXP_ARG_BITS: i128 = -9347783976560885;

/// Bits of `55.26`, above which `exp` does not fit (`ln(2^80)`).
pub const MAX_EXP_ARG_BITS: i128 = 15554307213030850;

/// Bits of `ln(2)`.
pub const LN_2_BITS: i128 = 195103586505167;

/// Bits of `ln(2) / 2`.
pub const LN_2_DIV_2_BITS: i128 = 97551793252583;

/// The partial sums of the series of `exp(x)`: after the terms of degree
/// below `n`, the last term and the sum (`n >= 2`).
pub open spec fn spec_exp_series(x: IFixedPoint, n: nat) -> LendingResult<(IFixedPoint, IFixedPoint)>
    decreases n,
{
    if n <= 2 {
        match spec_i_add(x, ifp(i_one())) {
            Ok(s) => Ok((x, s)),
            Err(e) => Err(e),
        }
    } else {
        match spec_exp_series(x, (n - 1) as nat) {
            Ok((t, s)) => match spec_i_mul(x, t) {
                Ok(p) => match spec_i_div_int(p, (n - 1) as u64) {
                    Ok(t2) => match spec_i_add(s, t2) {
                        Ok(s2) => Ok((t2, s2)),
                        Err(e) => Err(e),
                    },
                    Err(e) => Err(e),
                },
                Err(e) => Err(e),
            },
            Err(e) => Err(e),
        }
    }
}

/// A failing partial sum makes every later partial sum fail the same way.
proof fn lemma_exp_series_err(x: IFixedPoint, n: nat, m: nat)
    requires
        2 <= n <= m,
        spec_exp_series(x, n) is Err,
    ensures
        spec_exp_series(x, m) == spec_exp_series(x, n),
    decreases m - n,
{
    if m > n {
        lemma_exp_series_err(x, n, (m - 1) as nat);
    }
}

/// The degree-6 Taylor polynomial of `exp` at `x`, computed term by term.
pub open spec fn spec_exp_terms(x: IFixedPoint) -> LendingResult<IFixedPoint> {
    match spec_exp_series(x, 7) {
        Ok((_t, s)) => Ok(s),
        Err(e) => Err(e),
    }
}

/// `exp(x)` as computed by `checked_exp`: zero at or below `MIN_EXP_ARG`,
/// an `InvalidExpArg` above `MAX_EXP_ARG`, otherwise `x = q ln 2 + r` with `q`
/// the nearest integer and `exp(x) = 2^q exp(r)`, `exp(r)` from its Taylor
/// polynomial.
pub open spec fn spec_checked_exp(x: IFixedPoint) -> LendingResult<IFixedPoint> {
    if x.bits <= MIN_EXP_ARG_BITS {
        Ok(ifp(0))
    } else if x.bits > MAX_EXP_ARG_BITS {
        Err(LendingError::InvalidExpArg)
    } else {
        let rounding = if x.bits < 0 {
            ifp(-(LN_2_DIV_2_BITS as int))
        } else {
            ifp(LN_2_DIV_2_BITS as int)
        };
        match spec_i_add(x, rounding) {
            Err(e) => Err(e),
            Ok(a) => match spec_i_div(a, ifp(LN_2_BITS as int)) {
                Err(e) => Err(e),
                Ok(d) => if !(i32::MIN <= ifp_floor(d) <= i32::MAX) {
                    Err(LendingError::CastOverflow)
                } else {
                    let q = ifp_floor(d) as i32;
                    match spec_i_mul(ifp(q * i_one()), ifp(LN_2_BITS as int)) {
                        Err(e) => Err(e),
                        Ok(ql) => match spec_i_sub(x, ql) {
                            Err(e) => Err(e),
                            Ok(r) => match spec_exp_terms(r) {
                                Err(e) => Err(e),
                                Ok(exp_r) => match spec_i_shift(exp_r, q) {
                                    Some(v) => Ok(v),
                                    None => Err(LendingError::MathOverflow),
                                },
                            },
                        },
                    }
                },
            },
        }
    }
}

impl IFixedPoint {
    fn exp_7_terms(fixed: IFixedPoint) -> (r: LendingResult<IFixedPoint>)
        ensures
            r == spec_exp_terms(fixed),
    {
        let mut term = fixed;
        let mut exp_fixed = match fixed.safe_add(IFixedPoint::one()) {
            Ok(v) => v,
            Err(e) => {
                proof {
                    lemma_exp_series_err(fixed, 2, 7);
                }
                return Err(e);
            },
        };
        let mut n: u64 = 2;
        while n < 7
            invariant
                2 <= n <= 7,
                spec_exp_series(fixed, n as nat) == Ok::<(IFixedPoint, IFixedPoint), LendingError>(
                    (term, exp_fixed),
                ),
            decreases 7 - n,
        {
            let p = match fixed.safe_mul(term) {
                Ok(v) => v,
                Err(e) => {
                    proof {
                        lemma_exp_series_err(fixed, (n + 1) as nat, 7);
                    }
                    return Err(e);
                },
            };
            term = match p.safe_div(n) {
                Ok(v) => v,
                Err(e) => {
                    proof {
                        lemma_exp_series_err(fixed, (n + 1) as nat, 7);
                    }
                    return Err(e);
                },
            };
            exp_fixed = match exp_fixed.safe_add(term) {
                Ok(v) => v,
                Err(e) => {
                    proof {
                        lemma_exp_series_err(fixed, (n + 1) as nat, 7);
                    }
                    return Err(e);
                },
            };
            n = n + 1;
        }
        Ok(exp_fixed)
    }

    /// `exp(self)`, see `spec_checked_exp`.
    pub fn checked_exp(&self) -> (r: LendingResult<Self>)
        ensures
            r == spec_checked_exp(*self),
    {
        if self.bits <= MIN_EXP_ARG_BITS {
            return Ok(IFixedPoint::zero());
        } else if self.bits > MAX_EXP_ARG_BITS {
            return Err(LendingError::InvalidExpArg);
        }
        let rounding = if self.is_negative() {
            IFixedPoint::from_bits(-LN_2_DIV_2_BITS)
        } else {
            IFixedPoint::from_bits(LN_2_DIV_2_BITS)
        };
        let ln_2 = IFixedPoint::from_bits(LN_2_BITS);
        let a = match self.safe_add(rounding) {
            Ok(v) => v,
            Err(e) => return Err(e),
        };
        let d = match a.safe_div(ln_2) {
            Ok(v) => v,
            Err(e) => return Err(e),
        };
        let q = match d.checked_to_i32() {
            Ok(v) => v,
            Err(e) => return Err(e),
        };
        let ql = match IFixedPoint::from_i64(q as i64).safe_mul(ln_2) {
            Ok(v) => v,
            Err(e) => return Err(e),
        };
        let r = match self.safe_sub(ql) {
            Ok(v) => v,
            Err(e) => return Err(e),
        };
        let exp_r = match IFixedPoint::exp_7_terms(r) {
            Ok(v) => v,
            Err(e) => return Err(e),
        };
        match exp_r.checked_shift(q) {
            Some(ok) => Ok(ok),
            None => Err(LendingError::MathOverflow),
        }
    }
}

/// The shift performed by `checked_shift`.
pub open spec fn spec_i_shift(x: IFixedPoint, shift: i32) -> Option<IFixedPoint> {
    if shift < 0 {
        if shift <= -128 {
            None
        } else {
            Some(IFixedPoint { bits: x.bits >> ((-shift) as u32) })
        }
    } else {
        if shift >= 128 {
            None
        } else {
            Some(IFixedPoint { bits: x.bits << (shift as u32) })
        }
    }
}

impl UFixedPoint {
    /// The signed number in the unsigned format, when it is not negative and
    /// its integer part fits in 64 bits.
    pub fn from_ifixed(value: IFixedPoint) -> (r: Option<UFixedPoint>)
        ensures
            r == ifp_to_ufp(value),
    {
        if value.bits < 0 {
            None
        } else if value.bits > 0xffff_ffff_ffff_ffff_ffff_ffff_ffffi128 {
            None
        } else {
            Some(UFixedPoint { bits: (value.bits as u128) * 0x1_0000u128 })
        }
    }

    /// The signed number in the unsigned format; a `CastOverflow` when it is
    /// negative or too large.
    pub fn try_from_ifixed(value: IFixedPoint) -> (r: LendingResult<UFixedPoint>)
        ensures
            r == (match ifp_to_ufp(value) {
                Some(u) => Ok::<UFixedPoint, LendingError>(u),
                None => Err(LendingError::CastOverflow),
            }),
    {
        match UFixedPoint::from_ifixed(value) {
            Some(u) => Ok(u),
            None => Err(LendingError::CastOverflow),
        }
    }
}

impl SafeMath<IFixedPoint, IFixedPoint> for IFixedPoint {
    fn safe_add(self, other: IFixedPoint) -> (r: LendingResult<IFixedPoint>)
        ensures
            r == spec_i_add(self, other),
    {
        match self.bits.checked_add(other.bits) {
            Some(b) => Ok(IFixedPoint { bits: b }),
            None => Err(LendingError::AdditionOverflow),
        }
    }

    fn safe_sub(self, other: IFixedPoint) -> (r: LendingResult<IFixedPoint>)
        ensures
            r == spec_i_sub(self, other),
    {
        match self.bits.checked_sub(other.bits) {
            Some(b) => Ok(IFixedPoint { bits: b }),
            None => Err(LendingError::SubtractionOverflow),
        }
    }

    fn safe_mul(self, other: IFixedPoint) -> (r: LendingResult<IFixedPoint>)
        ensures
            r == spec_i_mul(self, other),
    {
        match i80f48_checked_mul(self.bits, other.bits) {
            Some(b) => Ok(IFixedPoint { bits: b }),
            None => Err(LendingError::MultiplicationOverflow),
        }
    }

    fn safe_div(self, other: IFixedPoint) -> (r: LendingResult<IFixedPoint>)
        ensures
            r == spec_i_div(self, other),
    {
        match i80f48_checked_div(self.bits, other.bits) {
            Some(b) => Ok(IFixedPoint { bits: b }),
            None => Err(LendingError::DivisionOverflow),
        }
    }
}

impl SafeMath<u64, IFixedPoint> for IFixedPoint {
    fn safe_add(self, other: u64) -> (r: LendingResult<IFixedPoint>)
        ensures
            r == spec_i_add_int(self, other),
    {
        self.safe_add(IFixedPoint::from_u64(other))
    }

    fn safe_sub(self, other: u64) -> (r: LendingResult<IFixedPoint>)
        ensures
            r == spec_i_sub_int(self, other),
    {
        self.safe_sub(IFixedPoint::from_u64(other))
    }

    fn safe_mul(self, other: u64) -> (r: LendingResult<IFixedPoint>)
        ensures
            r == spec_i_mul_int(self, other),
    {
        match self.bits.checked_mul(other as i128) {
            Some(b) => Ok(IFixedPoint { bits: b }),
            None => Err(LendingError::MultiplicationOverflow),
        }
    }

    fn safe_div(self, other: u64) -> (r: LendingResult<IFixedPoint>)
        ensures
            r == spec_i_div_int(self, other),
    {
        if other == 0 {
            Err(LendingError::DivisionByZero)
        } else {
            Ok(IFixedPoint { bits: trunc_div_i128(self.bits, other as u128) })
        }
    }
}

impl SafeMath<UFixedPoint, IFixedPoint> for IFixedPoint {
    fn safe_add(self, other: UFixedPoint) -> (r: LendingResult<IFixedPoint>)
        ensures
            r == spec_i_add(self, ufp_to_ifp(other)),
    {
        let o = match IFixedPoint::from_ufixed(other) {
            Some(o) => o,
            None => return Err(LendingError::CastOverflow),
        };
        self.safe_add(o)
    }

    fn safe_sub(self, other: UFixedPoint) -> (r: LendingResult<IFixedPoint>)
        ensures
            r == spec_i_sub(self, ufp_to_ifp(other)),
    {
        let o = match IFixedPoint::from_ufixed(other) {
            Some(o) => o,
            None => return Err(LendingError::CastOverflow),
        };
        self.safe_sub(o)
    }

    fn safe_mul(self, other: UFixedPoint) -> (r: LendingResult<IFixedPoint>)
        ensures
            r == spec_i_mul(self, ufp_to_ifp(other)),
    {
        let o = match IFixedPoint::from_ufixed(other) {
            Some(o) => o,
            None => return Err(LendingError::CastOverflow),
        };
        self.safe_mul(o)
    }

    fn safe_div(self, other: UFixedPoint) -> (r: LendingResult<IFixedPoint>)
        ensures
            r == spec_i_div(self, ufp_to_ifp(other)),
    {
        let o = match IFixedPoint::from_ufixed(other) {
            Some(o) => o,
            None => return Err(LendingError::CastOverflow),
        };
        self.safe_div(o)
    }
}

impl SafeMath<IFixedPoint, IFixedPoint> for u64 {
    fn safe_add(self, other: IFixedPoint) -> (r: LendingResult<IFixedPoint>)
        ensures
            r == spec_i_add(ifp(self * i_one()), other),
    {
        IFixedPoint::from_u64(self).safe_add(other)
    }

    fn safe_sub(self, other: IFixedPoint) -> (r: LendingResult<IFixedPoint>)
        ensures
            r == spec_i_sub(ifp(self * i_one()), other),
    {
        IFixedPoint::from_u64(self).safe_sub(other)
    }

    fn safe_mul(self, other: IFixedPoint) -> (r: LendingResult<IFixedPoint>)
        ensures
            r == spec_i_mul(ifp(self * i_one()), other),
    {
        IFixedPoint::from_u64(self).safe_mul(other)
    }

    fn safe_div(self, other: IFixedPoint) -> (r: LendingResult<IFixedPoint>)
        ensures
            r == spec_i_div(ifp(self * i_one()), other),
    {
        IFixedPoint::from_u64(self).safe_div(other)
    }
}

} // verus!
