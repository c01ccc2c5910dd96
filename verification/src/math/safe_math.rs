//! Checked arithmetic that reports which operation overflowed.
use crate::error::{LendingError, LendingResult};
use crate::math::fixed_ops::in_u64;
use vstd::prelude::*;

verus! {

/// Checked arithmetic between `Self` and `Other`, producing `Output`.
///
/// Each implementation states exactly what it computes and which error it
/// returns.
pub trait SafeMath<Other, Output>: Sized {
    fn safe_add(self, other: Other) -> LendingResult<Output>;

    fn safe_sub(self, other: Other) -> LendingResult<Output>;

    fn safe_mul(self, other: Other) -> LendingResult<Output>;

    fn safe_div(self, other: Other) -> LendingResult<Output>;
}

/// `x` as a `u64` result, or `e` when it does not fit.
pub open spec fn u64_res(x: int, e: LendingError) -> LendingResult<u64> {
    if in_u64(x) {
        Ok(x as u64)
    } else {
        Err(e)
    }
}

impl SafeMath<u64, u64> for u64 {
    fn safe_add(self, other: u64) -> (r: LendingResult<u64>)
        ensures
            r == u64_res(self + other, LendingError::AdditionOverflow),
    {
        match self.checked_add(other) {
            Some(v) => Ok(v),
            None => Err(LendingError::AdditionOverflow),
        }
    }

    fn safe_sub(self, other: u64) -> (r: LendingResult<u64>)
        ensures
            r == u64_res(self - other, LendingError::SubtractionOverflow),
    {
        match self.checked_sub(other) {
            Some(v) => Ok(v),
            None => Err(LendingError::SubtractionOverflow),
        }
    }

    fn safe_mul(self, other: u64) -> (r: LendingResult<u64>)
        ensures
            r == u64_res(self * other, LendingError::MultiplicationOverflow),
    {
        match self.checked_mul(other) {
            Some(v) => Ok(v),
            None => Err(LendingError::MultiplicationOverflow),
        }
    }

    fn safe_div(self, other: u64) -> (r: LendingResult<u64>)
        ensures
            other == 0 ==> r == Err::<u64, LendingError>(LendingError::DivisionByZero),
            other != 0 ==> r == Ok::<u64, LendingError>(self / other),
    {
        if other == 0 {
            Err(LendingError::DivisionByZero)
        } else {
            Ok(self / other)
        }
    }
}

} // verus!
