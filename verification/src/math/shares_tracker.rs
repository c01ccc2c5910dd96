//! Share accounting of a vault: deposits mint shares at the current share
//! price, interest raises the share price.
use crate::error::{LendingError, LendingResult};
use crate::interest_rate::interest_rate::InterestRate;
use crate::math::fixed_ops::u_one;
use crate::math::ifixed_point::{
    ifp_to_ufp, spec_i_add, spec_i_div, spec_i_div_int, spec_i_mul, spec_i_mul_int, spec_i_sub,
    ufp_to_ifp, IFixedPoint,
};
use crate::math::rounding::RoundingMode;
use crate::math::safe_math::SafeMath;
use crate::math::ufixed_point::{
    spec_u_add, spec_u_div, spec_u_mul, spec_u_sub, ufp, ufp_round, UFixedPoint,
};
use vstd::prelude::*;

verus! {

/// The total shares of a vault and the atoms each share is worth.
#[derive(Clone, Copy, Debug, PartialEq, Eq, Structural)]
pub struct SharesTracker {
    pub total_shares: UFixedPoint,
    pub atoms_per_share: UFixedPoint,
}

/// `v` as a `u64`, saturating.
pub open spec fn sat_u64(v: int) -> u64 {
    if v > u64::MAX {
        u64::MAX
    } else {
        v as u64
    }
}

/// The shares worth `atoms` at the current share price.
pub open spec fn spec_atoms_to_shares(t: SharesTracker, atoms: u64) -> LendingResult<UFixedPoint> {
    spec_u_div(ufp(atoms * u_one()), t.atoms_per_share)
}

/// The atoms `shares` are worth at the current share price, rounded.
pub open spec fn spec_shares_to_atoms(
    t: SharesTracker,
    shares: UFixedPoint,
    rounding: RoundingMode,
) -> LendingResult<u64> {
    match spec_u_mul(shares, t.atoms_per_share) {
        Ok(x) => Ok(sat_u64(ufp_round(x, rounding))),
        Err(e) => Err(e),
    }
}

/// The atoms all shares are worth.
pub open spec fn spec_total_atoms(t: SharesTracker, rounding: RoundingMode) -> LendingResult<u64> {
    spec_shares_to_atoms(t, t.total_shares, rounding)
}

/// `t` with `total_shares` replaced.
pub open spec fn with_total(t: SharesTracker, total: UFixedPoint) -> SharesTracker {
    SharesTracker { total_shares: total, atoms_per_share: t.atoms_per_share }
}

/// `t` with `atoms_per_share` replaced.
pub open spec fn with_price(t: SharesTracker, price: UFixedPoint) -> SharesTracker {
    SharesTracker { total_shares: t.total_shares, atoms_per_share: price }
}

/// `total_shares - shares`, or `SharesOverflow`.
pub open spec fn spec_remove_shares(t: SharesTracker, shares: UFixedPoint) -> LendingResult<
    UFixedPoint,
> {
    match spec_u_sub(t.total_shares, shares) {
        Ok(n) => Ok(n),
        Err(_) => Err(LendingError::SharesOverflow),
    }
}

/// Result and new state of `deposit_atoms`.
pub open spec fn spec_deposit_atoms(t: SharesTracker, atoms: u64) -> (
    LendingResult<UFixedPoint>,
    SharesTracker,
) {
    match spec_atoms_to_shares(t, atoms) {
        Err(e) => (Err(e), t),
        Ok(s) => match spec_u_add(t.total_shares, s) {
            Err(e) => (Err(e), t),
            Ok(n) => (Ok(s), with_total(t, n)),
        },
    }
}

/// Result and new state of `withdraw_atoms`.
pub open spec fn spec_withdraw_atoms(t: SharesTracker, atoms: u64) -> (
    LendingResult<UFixedPoint>,
    SharesTracker,
) {
    match spec_atoms_to_shares(t, atoms) {
        Err(e) => (Err(e), t),
        Ok(s) => match spec_remove_shares(t, s) {
            Err(e) => (Err(e), t),
            Ok(n) => (Ok(s), with_total(t, n)),
        },
    }
}

/// Result and new state of `withdraw_atoms_capped`.
pub open spec fn spec_withdraw_atoms_capped(
    t: SharesTracker,
    atoms: u64,
    max_shares: UFixedPoint,
    rounding: RoundingMode,
) -> (LendingResult<(u64, UFixedPoint)>, SharesTracker) {
    match spec_atoms_to_shares(t, atoms) {
        Err(e) => (Err(e), t),
        Ok(s) => if s.bits > max_shares.bits {
            match spec_shares_to_atoms(t, t.total_shares, rounding) {
                Err(e) => (Err(e), t),
                Ok(a) => match spec_remove_shares(t, max_shares) {
                    Err(e) => (Err(e), t),
                    Ok(n) => (Ok((a, max_shares)), with_total(t, n)),
                },
            }
        } else {
            match spec_remove_shares(t, s) {
                Err(e) => (Err(e), t),
                Ok(n) => (Ok((atoms, s)), with_total(t, n)),
            }
        },
    }
}

/// Result and new state of `withdraw_shares`.
pub open spec fn spec_withdraw_shares(
    t: SharesTracker,
    shares: UFixedPoint,
    rounding: RoundingMode,
) -> (LendingResult<u64>, SharesTracker) {
    match spec_shares_to_atoms(t, shares, rounding) {
        Err(e) => (Err(e), t),
        Ok(a) => match spec_remove_shares(t, shares) {
            Err(e) => (Err(e), t),
            Ok(n) => (Ok(a), with_total(t, n)),
        },
    }
}

/// The share price after applying `rate`: `price + rate * price`, back in the
/// unsigned format.
pub open spec fn spec_grown_price(price: UFixedPoint, rate: InterestRate) -> LendingResult<
    UFixedPoint,
> {
    match spec_i_mul(rate.0, ufp_to_ifp(price)) {
        Err(e) => Err(e),
        Ok(interest) => match spec_i_add(interest, ufp_to_ifp(price)) {
            Err(e) => Err(e),
            Ok(s) => match ifp_to_ufp(s) {
                Some(u) => Ok(u),
                None => Err(LendingError::CastOverflow),
            },
        },
    }
}

/// Result and new state of `apply_interest_rate`.
pub open spec fn spec_apply_interest_rate(t: SharesTracker, rate: InterestRate) -> (
    LendingResult<()>,
    SharesTracker,
) {
    if t.total_shares.bits == 0 {
        (Ok(()), t)
    } else {
        match spec_grown_price(t.atoms_per_share, rate) {
            Err(e) => (Err(e), t),
            Ok(p) => (Ok(()), with_price(t, p)),
        }
    }
}

/// The share price after the interest net of `fee`, and the fee atoms.
pub open spec fn spec_net_price(
    t: SharesTracker,
    rate: InterestRate,
    fee: UFixedPoint,
    total_before: u64,
) -> LendingResult<(UFixedPoint, IFixedPoint)> {
    match spec_i_mul_int(rate.0, total_before) {
        Err(e) => Err(e),
        Ok(interest_atoms) => match spec_i_mul(interest_atoms, ufp_to_ifp(fee)) {
            Err(e) => Err(e),
            Ok(fee_atoms) => match spec_i_sub(interest_atoms, fee_atoms) {
                Err(e) => Err(e),
                Ok(net) => match spec_i_div_int(net, total_before) {
                    Err(e) => Err(e),
                    Ok(net_rate) => match spec_i_mul(net_rate, ufp_to_ifp(t.atoms_per_share)) {
                        Err(e) => Err(e),
                        Ok(net_aps) => match spec_i_add(net_aps, ufp_to_ifp(t.atoms_per_share)) {
                            Err(e) => Err(e),
                            Ok(s) => match ifp_to_ufp(s) {
                                None => Err(LendingError::CastOverflow),
                                Some(p) => Ok((p, fee_atoms)),
                            },
                        },
                    },
                },
            },
        },
    }
}

/// Result and new state of `apply_interest_rate_with_fee`.
pub open spec fn spec_apply_interest_rate_with_fee(
    t: SharesTracker,
    rate: InterestRate,
    fee: UFixedPoint,
) -> (LendingResult<UFixedPoint>, SharesTracker) {
    match spec_total_atoms(t, RoundingMode::RoundDown) {
        Err(e) => (Err(e), t),
        Ok(total_before) => if total_before == 0 {
            (Ok(ufp(0)), t)
        } else if rate.0.bits < 0 {
            match spec_apply_interest_rate(t, rate) {
                (Err(e), t2) => (Err(e), t2),
                (Ok(_), t2) => (Err(LendingError::NegativeInterestRate), t2),
            }
        } else {
            match spec_net_price(t, rate, fee, total_before) {
                Err(e) => (Err(e), t),
                Ok((p, fee_atoms)) => {
                    let t1 = with_price(t, p);
                    match spec_i_div(fee_atoms, ufp_to_ifp(p)) {
                        Err(e) => (Err(e), t1),
                        Ok(d) => match ifp_to_ufp(d) {
                            None => (Err(LendingError::CastOverflow), t1),
                            Some(fee_shares) => match spec_u_add(fee_shares, t.total_shares) {
                                Err(e) => (Err(e), t1),
                                Ok(n) => (Ok(fee_shares), with_total(t1, n)),
                            },
                        },
                    }
                },
            }
        },
    }
}

/// Result and new state of `donate_atoms`.
pub open spec fn spec_donate_atoms(t: SharesTracker, atoms: u64) -> (
    LendingResult<()>,
    SharesTracker,
) {
    if t.total_shares.bits == 0 {
        (Err(LendingError::CantModifySharePriceIfZeroShares), t)
    } else {
        match spec_u_div(ufp(atoms * u_one()), t.total_shares) {
            Err(e) => (Err(e), t),
            Ok(d) => match spec_u_add(t.atoms_per_share, d) {
                Err(e) => (Err(e), t),
                Ok(p) => (Ok(()), with_price(t, p)),
            },
        }
    }
}

/// Result and new state of `socialize_loss_atoms`.
pub open spec fn spec_socialize_loss_atoms(t: SharesTracker, atoms: u64) -> (
    LendingResult<()>,
    SharesTracker,
) {
    if t.total_shares.bits == 0 {
        (Err(LendingError::CantModifySharePriceIfZeroShares), t)
    } else {
        match spec_u_div(ufp(atoms * u_one()), t.total_shares) {
            Err(e) => (Err(e), t),
            Ok(d) => match spec_u_sub(t.atoms_per_share, d) {
                Err(e) => (Err(e), t),
                Ok(p) => (Ok(()), with_price(t, p)),
            },
        }
    }
}

impl SharesTracker {
    /// No shares, one atom per share.
    pub fn new() -> (r: Self)
        ensures
            r.total_shares.bits == 0,
            r.atoms_per_share.bits == u_one(),
    {
        SharesTracker { total_shares: UFixedPoint::from_u64(0), atoms_per_share: UFixedPoint::one() }
    }

    pub fn total_shares(&self) -> (r: UFixedPoint)
        ensures
            r == self.total_shares,
    {
        self.total_shares
    }

    pub fn atoms_per_share(&self) -> (r: UFixedPoint)
        ensures
            r == self.atoms_per_share,
    {
        self.atoms_per_share
    }

    /// Resets to no shares at one atom per share.
    pub fn initialize(&mut self)
        ensures
            final(self).total_shares.bits == 0,
            final(self).atoms_per_share.bits == u_one(),
    {
        self.total_shares = UFixedPoint::from_u64(0);
        self.atoms_per_share = UFixedPoint::one();
    }

    pub fn atoms_to_shares(&self, atoms: u64) -> (r: LendingResult<UFixedPoint>)
        ensures
            r == spec_atoms_to_shares(*self, atoms),
    {
        UFixedPoint::from_u64(atoms).safe_div(self.atoms_per_share)
    }

    pub fn shares_to_atoms(&self, shares: UFixedPoint, rounding: RoundingMode) -> (r: LendingResult<
        u64,
    >)
        ensures
            r == spec_shares_to_atoms(*self, shares, rounding),
    {
        match shares.safe_mul(self.atoms_per_share) {
            Ok(x) => x.as_u64_rounded(rounding),
            Err(e) => Err(e),
        }
    }

    pub fn total_atoms(&self, rounding: RoundingMode) -> (r: LendingResult<u64>)
        ensures
            r == spec_total_atoms(*self, rounding),
    {
        self.shares_to_atoms(self.total_shares, rounding)
    }

    /// Mints the shares worth `atoms`.
    pub fn deposit_atoms(&mut self, atoms: u64) -> (r: LendingResult<UFixedPoint>)
        ensures
            (r, *final(self)) == spec_deposit_atoms(*old(self), atoms),
    {
        let shares = match self.atoms_to_shares(atoms) {
            Ok(s) => s,
            Err(e) => return Err(e),
        };
        self.total_shares = match self.total_shares.safe_add(shares) {
            Ok(n) => n,
            Err(e) => return Err(e),
        };
        Ok(shares)
    }

    /// Burns the shares worth `atoms`; more than the total is a
    /// `SharesOverflow`.
    pub fn withdraw_atoms(&mut self, atoms: u64) -> (r: LendingResult<UFixedPoint>)
        ensures
            (r, *final(self)) == spec_withdraw_atoms(*old(self), atoms),
    {
        let shares = match self.atoms_to_shares(atoms) {
            Ok(s) => s,
            Err(e) => return Err(e),
        };
        self.total_shares = match self.total_shares.safe_sub(shares) {
            Ok(n) => n,
            Err(_) => return Err(LendingError::SharesOverflow),
        };
        Ok(shares)
    }

    /// Burns the shares worth `atoms`, at most `max_shares`; when capped,
    /// returns `max_shares` and the atoms all shares are worth.
    pub fn withdraw_atoms_capped(
        &mut self,
        atoms: u64,
        max_shares: UFixedPoint,
        rounding: RoundingMode,
    ) -> (r: LendingResult<(u64, UFixedPoint)>)
        ensures
            (r, *final(self)) == spec_withdraw_atoms_capped(*old(self), atoms, max_shares, rounding),
    {
        let shares = match self.atoms_to_shares(atoms) {
            Ok(s) => s,
            Err(e) => return Err(e),
        };
        if shares.bits > max_shares.bits {
            let capped_atoms = match self.shares_to_atoms(self.total_shares, rounding) {
                Ok(a) => a,
                Err(e) => return Err(e),
            };
            self.total_shares = match self.total_shares.safe_sub(max_shares) {
                Ok(n) => n,
                Err(_) => return Err(LendingError::SharesOverflow),
            };
            return Ok((capped_atoms, max_shares));
        }
        self.total_shares = match self.total_shares.safe_sub(shares) {
            Ok(n) => n,
            Err(_) => return Err(LendingError::SharesOverflow),
        };
        Ok((atoms, shares))
    }

    /// Burns `shares` and returns the atoms they are worth.
    pub fn withdraw_shares(&mut self, shares: UFixedPoint, rounding: RoundingMode) -> (r:
        LendingResult<u64>)
        ensures
            (r, *final(self)) == spec_withdraw_shares(*old(self), shares, rounding),
    {
        let atoms = match self.shares_to_atoms(shares, rounding) {
            Ok(a) => a,
            Err(e) => return Err(e),
        };
        self.total_shares = match self.total_shares.safe_sub(shares) {
            Ok(n) => n,
            Err(_) => return Err(LendingError::SharesOverflow),
        };
        Ok(atoms)
    }

    /// Grows the share price by `interest_rate` (nothing when there are no
    /// shares).
    pub fn apply_interest_rate(&mut self, interest_rate: InterestRate) -> (r: LendingResult<()>)
        ensures
            (r, *final(self)) == spec_apply_interest_rate(*old(self), interest_rate),
    {
        if self.total_shares.is_zero() {
            return Ok(());
        }
        let interest = match interest_rate.interest_on_ufixed(self.atoms_per_share) {
            Ok(v) => v,
            Err(e) => return Err(e),
        };
        let s = match interest.safe_add(self.atoms_per_share) {
            Ok(v) => v,
            Err(e) => return Err(e),
        };
        self.atoms_per_share = match UFixedPoint::try_from_ifixed(s) {
            Ok(v) => v,
            Err(e) => return Err(e),
        };
        Ok(())
    }

    /// Grows the share price by the interest net of `fee`, and mints the fee
    /// as new shares, which it returns. A negative rate is applied in full and
    /// reported as `NegativeInterestRate`.
    pub fn apply_interest_rate_with_fee(&mut self, interest_rate: InterestRate, fee: UFixedPoint) -> (r:
        LendingResult<UFixedPoint>)
        ensures
            (r, *final(self)) == spec_apply_interest_rate_with_fee(*old(self), interest_rate, fee),
    {
        let total_atoms_before = match self.total_atoms(RoundingMode::RoundDown) {
            Ok(v) => v,
            Err(e) => return Err(e),
        };
        if total_atoms_before == 0 {
            return Ok(UFixedPoint::from_u64(0));
        }
        if interest_rate.rate().is_negative() {
            match self.apply_interest_rate(interest_rate) {
                Ok(_) => {},
                Err(e) => return Err(e),
            }
            return Err(LendingError::NegativeInterestRate);
        }
        let interest_atoms = match interest_rate.interest_on_atoms(total_atoms_before) {
            Ok(v) => v,
            Err(e) => return Err(e),
        };
        let fee_atoms = match interest_atoms.safe_mul(fee) {
            Ok(v) => v,
            Err(e) => return Err(e),
        };
        let net_interest_atoms = match interest_atoms.safe_sub(fee_atoms) {
            Ok(v) => v,
            Err(e) => return Err(e),
        };
        let net_interest_rate = match net_interest_atoms.safe_div(total_atoms_before) {
            Ok(v) => v,
            Err(e) => return Err(e),
        };
        let net_interest_atoms_per_share = match net_interest_rate.safe_mul(self.atoms_per_share) {
            Ok(v) => v,
            Err(e) => return Err(e),
        };
        let s = match net_interest_atoms_per_share.safe_add(self.atoms_per_share) {
            Ok(v) => v,
            Err(e) => return Err(e),
        };
        self.atoms_per_share = match UFixedPoint::try_from_ifixed(s) {
            Ok(v) => v,
            Err(e) => return Err(e),
        };
        let d = match fee_atoms.safe_div(self.atoms_per_share) {
            Ok(v) => v,
            Err(e) => return Err(e),
        };
        let fee_shares = match UFixedPoint::try_from_ifixed(d) {
            Ok(v) => v,
            Err(e) => return Err(e),
        };
        self.total_shares = match fee_shares.safe_add(self.total_shares) {
            Ok(v) => v,
            Err(e) => return Err(e),
        };
        Ok(fee_shares)
    }

    /// Raises the share price so that the shares are worth `atoms` more;
    /// refused when there are no shares.
    pub fn donate_atoms(&mut self, atoms: u64) -> (r: LendingResult<()>)
        ensures
            (r, *final(self)) == spec_donate_atoms(*old(self), atoms),
    {
        if self.total_shares.is_zero() {
            return Err(LendingError::CantModifySharePriceIfZeroShares);
        }
        let additional = match UFixedPoint::from_u64(atoms).safe_div(self.total_shares) {
            Ok(v) => v,
            Err(e) => return Err(e),
        };
        self.atoms_per_share = match self.atoms_per_share.safe_add(additional) {
            Ok(v) => v,
            Err(e) => return Err(e),
        };
        Ok(())
    }

    /// Lowers the share price so that the shares are worth `atoms` less;
    /// refused when there are no shares.
    pub fn socialize_loss_atoms(&mut self, atoms: u64) -> (r: LendingResult<()>)
        ensures
            (r, *final(self)) == spec_socialize_loss_atoms(*old(self), atoms),
    {
        if self.total_shares.is_zero() {
            return Err(LendingError::CantModifySharePriceIfZeroShares);
        }
        let loss = match UFixedPoint::from_u64(atoms).safe_div(self.total_shares) {
            Ok(v) => v,
            Err(e) => return Err(e),
        };
        self.atoms_per_share = match self.atoms_per_share.safe_sub(loss) {
            Ok(v) => v,
            Err(e) => return Err(e),
        };
        Ok(())
    }
}

impl Default for SharesTracker {
    /// No shares, one atom per share.
    fn default() -> (r: Self)
        ensures
            r.total_shares.bits == 0,
            r.atoms_per_share.bits == u_one(),
    {
        SharesTracker::new()
    }
}

} // verus!
