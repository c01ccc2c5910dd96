//! Time and scale constants.
use crate::math::fixed_ops::i_one;
use crate::math::ifixed_point::IFixedPoint;
use vstd::prelude::*;

verus! {

pub const DAYS_PER_YEAR: u64 = 365;

pub const SECOND_PER_HOUR: u64 = 60 * 60;

pub const SECONDS_PER_DAY: u64 = 24 * 60 * 60;

pub const SECONDS_PER_YEAR: u64 = 365 * 24 * 60 * 60;

/// The largest decimal exponent supported for mints and oracle prices.
pub const MAX_EXPONENT_ABS: i64 = 18;

/// `10^n`.
pub open spec fn pow10(n: nat) -> nat
    decreases n,
{
    if n == 0 {
        1
    } else {
        10 * pow10((n - 1) as nat)
    }
}

/// `10^n` grows with `n`.
pub proof fn lemma_pow10_mono(n: nat, m: nat)
    requires
        n <= m,
    ensures
        pow10(n) <= pow10(m),
    decreases m - n,
{
    if n < m {
        lemma_pow10_mono(n, (m - 1) as nat);
    }
}

/// `10^exponent` as a signed fixed-point number, for `exponent <= 18`.
pub fn power_of_ten(exponent: u8) -> (r: IFixedPoint)
    requires
        exponent <= 18,
    ensures
        r.bits == pow10(exponent as nat) * i_one(),
{
    let mut v: u64 = 1;
    let mut i: u8 = 0;
    while i < exponent
        invariant
            i <= exponent <= 18,
            v == pow10(i as nat),
        decreases exponent - i,
    {
        proof {
            lemma_pow10_mono(i as nat, 17);
            assert(pow10(17) == 100_000_000_000_000_000) by {
                reveal_with_fuel(pow10, 18);
            }
        }
        v = v * 10;
        i = i + 1;
    }
    IFixedPoint::from_u64(v)
}

} // verus!
