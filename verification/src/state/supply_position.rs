//! A lender's position: supply shares of the supply vault.
use crate::error::{LendingError, LendingResult};
use crate::math::safe_math::{u64_res, SafeMath};
use crate::math::ufixed_point::{spec_u_add, spec_u_div, spec_u_mul_int, spec_u_sub, ufp, ufp_floor, UFixedPoint};
use crate::pubkey::Pubkey;
use vstd::prelude::*;

verus! {

/// A lender's position in one market.
#[derive(Default, Debug, Clone, Copy, PartialEq, Eq)]
pub struct SupplyPosition {
    /// The authority which can manage this lending position
    pub authority: Pubkey,
    /// The market this position is associated with
    pub market: Pubkey,
    /// Atoms deposited, decreased proportionally as shares are withdrawn
    pub deposited_atoms: u64,
    /// The supply shares of the supply vault owned by this position
    pub shares: UFixedPoint,
}

/// Result and new state of `withdraw`: withdrawing all shares takes out all
/// deposited atoms, fewer shares a proportional part (rounded down), more are
/// refused.
pub open spec fn spec_supply_withdraw(p: SupplyPosition, shares: UFixedPoint) -> (LendingResult<()>, SupplyPosition) {
    if shares.bits > p.shares.bits {
        (Err(LendingError::WithdrawalExceedsDeposited), p)
    } else {
        let adjusted: LendingResult<u64> = if shares.bits == p.shares.bits {
            Ok(p.deposited_atoms)
        } else {
            match spec_u_div(shares, p.shares) {
                Err(e) => Err(e),
                Ok(ratio) => match spec_u_mul_int(ratio, p.deposited_atoms) {
                    Err(e) => Err(e),
                    Ok(m) => Ok(ufp_floor(m) as u64),
                },
            }
        };
        match adjusted {
            Err(e) => (Err(e), p),
            Ok(a) => match u64_res(p.deposited_atoms - a, LendingError::SubtractionOverflow) {
                Err(e) => (Err(e), p),
                Ok(d) => {
                    let p1 = SupplyPosition { deposited_atoms: d, ..p };
                    match spec_u_sub(p.shares, shares) {
                        Err(e) => (Err(e), p1),
                        Ok(s) => (Ok(()), SupplyPosition { shares: s, ..p1 }),
                    }
                },
            },
        }
    }
}

/// Result and new state of `lend`.
pub open spec fn spec_supply_lend(p: SupplyPosition, atoms: u64, shares: UFixedPoint) -> (LendingResult<()>, SupplyPosition) {
    match u64_res(p.deposited_atoms + atoms, LendingError::AdditionOverflow) {
        Err(e) => (Err(e), p),
        Ok(d) => match spec_u_add(p.shares, shares) {
            Err(e) => (Err(e), SupplyPosition { deposited_atoms: d, ..p }),
            Ok(s) => (Ok(()), SupplyPosition { deposited_atoms: d, shares: s, ..p }),
        },
    }
}

impl SupplyPosition {
    /// An empty position of `authority` in `market`.
    pub fn new(authority: Pubkey, market: Pubkey) -> (r: Self)
        ensures
            r.authority == authority,
            r.market == market,
            r.deposited_atoms == 0,
            r.shares.bits == 0,
    {
        SupplyPosition { authority, market, deposited_atoms: 0, shares: UFixedPoint::zero() }
    }

    /// Resets to an empty position of `authority` in `market`.
    pub fn initialize(&mut self, authority: Pubkey, market: Pubkey)
        ensures
            *final(self) == SupplyPosition::spec_new(authority, market),
    {
        self.authority = authority;
        self.market = market;
        self.deposited_atoms = 0;
        self.shares = UFixedPoint::zero();
    }

    pub open spec fn spec_new(authority: Pubkey, market: Pubkey) -> SupplyPosition {
        SupplyPosition { authority, market, deposited_atoms: 0, shares: ufp(0) }
    }

    pub fn authority(&self) -> (r: &Pubkey)
        ensures
            *r == self.authority,
    {
        &self.authority
    }

    pub fn market(&self) -> (r: &Pubkey)
        ensures
            *r == self.market,
    {
        &self.market
    }

    pub fn deposited_atoms(&self) -> (r: u64)
        ensures
            r == self.deposited_atoms,
    {
        self.deposited_atoms
    }

    pub fn shares(&self) -> (r: UFixedPoint)
        ensures
            r == self.shares,
    {
        self.shares
    }

    /// Records a deposit of `atoms` that minted `shares`.
    pub fn lend(&mut self, atoms: u64, shares: UFixedPoint) -> (r: LendingResult<()>)
        ensures
            (r, *final(self)) == spec_supply_lend(*old(self), atoms, shares),
    {
        self.deposited_atoms = match self.deposited_atoms.safe_add(atoms) {
            Ok(v) => v,
            Err(e) => return Err(e),
        };
        self.shares = match self.shares.safe_add(shares) {
            Ok(v) => v,
            Err(e) => return Err(e),
        };
        Ok(())
    }

    /// Records a withdrawal of `shares`, see `spec_supply_withdraw`.
    pub fn withdraw(&mut self, shares: UFixedPoint) -> (r: LendingResult<()>)
        ensures
            (r, *final(self)) == spec_supply_withdraw(*old(self), shares),
    {
        if shares.bits > self.shares.bits {
            return Err(LendingError::WithdrawalExceedsDeposited);
        }
        let adjusted_atoms = if shares.bits == self.shares.bits {
            self.deposited_atoms
        } else {
            let ratio = match shares.safe_div(self.shares) {
                Ok(v) => v,
                Err(e) => return Err(e),
            };
            let m = match ratio.safe_mul(self.deposited_atoms) {
                Ok(v) => v,
                Err(e) => return Err(e),
            };
            match m.as_u64_rounded_down() {
                Ok(v) => v,
                Err(e) => return Err(e),
            }
        };
        self.deposited_atoms = match self.deposited_atoms.safe_sub(adjusted_atoms) {
            Ok(v) => v,
            Err(e) => return Err(e),
        };
        self.shares = match self.shares.safe_sub(shares) {
            Ok(v) => v,
            Err(e) => return Err(e),
        };
        Ok(())
    }

    /// Empties the position.
    pub fn withdraw_all(&mut self)
        ensures
            *final(self) == (SupplyPosition { deposited_atoms: 0, shares: ufp(0), ..*old(self) }),
    {
        self.deposited_atoms = 0;
        self.shares = UFixedPoint::zero();
    }
}

} // verus!
