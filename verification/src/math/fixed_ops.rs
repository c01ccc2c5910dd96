//! Raw arithmetic on the bit patterns of the two fixed-point formats of the
//! protocol: unsigned 64.64 (`U64F64`) and signed 80.48 (`I80F48`).
//!
//! Multiplication and division need a 256-bit intermediate product; they are
//! delegated to the `fixed` crate and stated here exactly over integers.
use fixed::types::{I80F48, U64F64};
use vstd::prelude::*;

verus! {

/// 2^64: the value of one in the unsigned format.
pub open spec fn u_one() -> int {
    0x1_0000_0000_0000_0000
}

/// 2^48: the value of one in the signed format.
pub open spec fn i_one() -> int {
    0x1_0000_0000_0000
}

pub open spec fn in_u128(x: int) -> bool {
    0 <= x <= u128::MAX
}

pub open spec fn in_i128(x: int) -> bool {
    i128::MIN <= x <= i128::MAX
}

pub open spec fn in_u64(x: int) -> bool {
    0 <= x <= u64::MAX
}

/// `x` as a `u128` when it fits.
pub open spec fn opt_u128(x: int) -> Option<u128> {
    if in_u128(x) {
        Some(x as u128)
    } else {
        None
    }
}

/// `x` as an `i128` when it fits.
pub open spec fn opt_i128(x: int) -> Option<i128> {
    if in_i128(x) {
        Some(x as i128)
    } else {
        None
    }
}

/// Integer division rounding towards zero (Rust's `/` on signed integers).
pub open spec fn trunc_div(n: int, d: int) -> int
    recommends
        d != 0,
{
    let q = if n >= 0 {
        n
    } else {
        -n
    } / if d >= 0 {
        d
    } else {
        -d
    };
    if (n >= 0) == (d > 0) {
        q
    } else {
        -q
    }
}

/// Bits of the product of two unsigned fixed-point numbers, rounded down.
pub open spec fn umul_bits(a: int, b: int) -> int {
    (a * b) / u_one()
}

/// Bits of the quotient of two unsigned fixed-point numbers, rounded down.
pub open spec fn udiv_bits(a: int, b: int) -> int {
    (a * u_one()) / b
}

/// Bits of the product of two signed fixed-point numbers, rounded towards
/// negative infinity.
pub open spec fn imul_bits(a: int, b: int) -> int {
    (a * b) / i_one()
}

/// Bits of the quotient of two signed fixed-point numbers, rounded towards zero.
pub open spec fn idiv_bits(a: int, b: int) -> int {
    trunc_div(a * i_one(), b)
}

/// Checked product in the unsigned format.
pub open spec fn u_checked_mul(a: u128, b: u128) -> Option<u128> {
    opt_u128(umul_bits(a as int, b as int))
}

/// Checked quotient in the unsigned format.
pub open spec fn u_checked_div(a: u128, b: u128) -> Option<u128> {
    if b == 0 {
        None
    } else {
        opt_u128(udiv_bits(a as int, b as int))
    }
}

/// Checked product in the signed format.
pub open spec fn i_checked_mul(a: i128, b: i128) -> Option<i128> {
    opt_i128(imul_bits(a as int, b as int))
}

/// Checked quotient in the signed format.
pub open spec fn i_checked_div(a: i128, b: i128) -> Option<i128> {
    if b == 0 {
        None
    } else {
        opt_i128(idiv_bits(a as int, b as int))
    }
}

/// `U64F64::checked_mul` on raw bits: the 256-bit product shifted right by 64,
/// `None` when it does not fit in 128 bits.
#[verifier::external_body]
pub(crate) fn u64f64_checked_mul(a: u128, b: u128) -> (r: Option<u128>)
    ensures
        r == u_checked_mul(a, b),
{
    U64F64::from_bits(a).checked_mul(U64F64::from_bits(b)).map(U64F64::to_bits)
}

/// `U64F64::checked_div` on raw bits: `a * 2^64 / b` rounded down, `None` when
/// `b` is zero or the quotient does not fit in 128 bits.
#[verifier::external_body]
pub(crate) fn u64f64_checked_div(a: u128, b: u128) -> (r: Option<u128>)
    ensures
        r == u_checked_div(a, b),
{
    U64F64::from_bits(a).checked_div(U64F64::from_bits(b)).map(U64F64::to_bits)
}

/// `I80F48::checked_mul` on raw bits: the 256-bit product shifted right
/// (arithmetically) by 48, `None` when it does not fit in an `i128`.
#[verifier::external_body]
pub(crate) fn i80f48_checked_mul(a: i128, b: i128) -> (r: Option<i128>)
    ensures
        r == i_checked_mul(a, b),
{
    I80F48::from_bits(a).checked_mul(I80F48::from_bits(b)).map(I80F48::to_bits)
}

/// `I80F48::checked_div` on raw bits: `a * 2^48 / b` rounded towards zero,
/// `None` when `b` is zero or the quotient does not fit in an `i128`.
#[verifier::external_body]
pub(crate) fn i80f48_checked_div(a: i128, b: i128) -> (r: Option<i128>)
    ensures
        r == i_checked_div(a, b),
{
    I80F48::from_bits(a).checked_div(I80F48::from_bits(b)).map(I80F48::to_bits)
}

} // verus!
