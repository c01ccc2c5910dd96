//! A borrower's position: collateral deposited and debt owed as borrow
//! shares of the supply vault.
use crate::error::{LendingError, LendingResult};
use crate::math::fixed_ops::u_one;
use crate::math::ifixed_point::IFixedPoint;
use crate::math::safe_math::{u64_res, SafeMath};
use crate::math::ufixed_point::{
    spec_u_add, spec_u_div, spec_u_mul_int, spec_u_sub, ufp, ufp_floor, UFixedPoint,
};
use crate::operation::liquidation::LiquidationResultWithBonus;
use crate::pubkey::Pubkey;
use vstd::prelude::*;

verus! {

/// A borrower's position in one market.
#[derive(Default, Clone, Copy, Debug, PartialEq, Eq)]
pub struct BorrowPosition {
    /// The authority which can manage this borrow position
    pub authority: Pubkey,
    /// The market this position is associated with
    pub market: Pubkey,
    /// Available collateral deposited in the position
    pub collateral_deposited_atoms: u64,
    /// Initial amount borrowed in atoms, decreased proportionally as the
    /// position is repaid
    pub initial_borrowed_atoms: u64,
    /// The borrow shares of the supply vault owned by this position
    pub borrowed_shares: UFixedPoint,
    /// Collateral taken out of the vault by a pending capital sweep
    pub swept_collateral_atoms: u64,
    /// Whether a capital sweep is pending on this position
    pub capital_sweep_pending: bool,
}

/// The health of a position at given prices.
#[derive(Default, Debug, Clone, Copy, PartialEq, Eq, Structural)]
pub struct BorrowPositionHealth {
    pub ltv: IFixedPoint,
    pub borrowed_atoms: u64,
    pub collateral_atoms: u64,
    pub borrow_value: IFixedPoint,
    pub collateral_value: IFixedPoint,
}

/// A liquidation and the position's health around it.
#[derive(Default, Debug, Clone, Copy, PartialEq, Eq, Structural)]
pub struct LiquidationResultWithCtx {
    pub liquidation_result_with_bonus: LiquidationResultWithBonus,
    pub health_before_liquidation: BorrowPositionHealth,
    pub health_after_liquidation: BorrowPositionHealth,
}

/// A capital-sweep settlement and the position's health around it.
#[derive(Default, Debug, Clone, Copy, PartialEq, Eq, Structural)]
pub struct CapitalSweepSettlementResult {
    pub liquidation_result_with_bonus: LiquidationResultWithBonus,
    pub health_before_settlement: BorrowPositionHealth,
    pub health_after_settlement: BorrowPositionHealth,
    pub collateral_atoms_returned: u64,
}

/// `p` with its debt cleared.
pub open spec fn spec_repay_all(p: BorrowPosition) -> BorrowPosition {
    BorrowPosition { initial_borrowed_atoms: 0, borrowed_shares: ufp(0), ..p }
}

/// Result and new state of `repay`: repaying all shares clears the debt,
/// fewer shares reduce the initial borrow in proportion (rounded down), more
/// are refused.
pub open spec fn spec_repay(p: BorrowPosition, shares: UFixedPoint) -> (LendingResult<()>, BorrowPosition) {
    if shares.bits > p.borrowed_shares.bits {
        (Err(LendingError::RepayExceedsBorrowed), p)
    } else if shares.bits == p.borrowed_shares.bits {
        (Ok(()), spec_repay_all(p))
    } else {
        match spec_u_div(shares, p.borrowed_shares) {
            Err(e) => (Err(e), p),
            Ok(ratio) => match spec_u_mul_int(ratio, p.initial_borrowed_atoms) {
                Err(e) => (Err(e), p),
                Ok(m) => {
                    let adjusted = ufp_floor(m);
                    match u64_res(p.initial_borrowed_atoms - adjusted, LendingError::SubtractionOverflow) {
                        Err(e) => (Err(e), p),
                        Ok(initial) => {
                            let p1 = BorrowPosition { initial_borrowed_atoms: initial, ..p };
                            match spec_u_sub(p.borrowed_shares, shares) {
                                Err(e) => (Err(e), p1),
                                Ok(s) => (Ok(()), BorrowPosition { borrowed_shares: s, ..p1 }),
                            }
                        },
                    }
                },
            },
        }
    }
}

/// Result and new state of `liquidate`.
pub open spec fn spec_position_liquidate(
    p: BorrowPosition,
    shares: UFixedPoint,
    collateral: u64,
) -> (LendingResult<()>, BorrowPosition) {
    match spec_repay(p, shares) {
        (Err(e), p1) => (Err(e), p1),
        (Ok(_), p1) => match u64_res(
            p1.collateral_deposited_atoms - collateral,
            LendingError::SubtractionOverflow,
        ) {
            Err(e) => (Err(e), p1),
            Ok(c) => (Ok(()), BorrowPosition { collateral_deposited_atoms: c, ..p1 }),
        },
    }
}

/// Result and new state of `settle_capital_sweep`.
pub open spec fn spec_position_settle_capital_sweep(
    p: BorrowPosition,
    shares_repaid: UFixedPoint,
    collateral_atoms_returned: u64,
) -> (LendingResult<()>, BorrowPosition) {
    if !p.capital_sweep_pending {
        (Err(LendingError::NoCapitalSweepPending), p)
    } else {
        match spec_repay(p, shares_repaid) {
            (Err(e), p1) => (Err(e), p1),
            (Ok(_), p1) => match u64_res(
                p1.collateral_deposited_atoms + collateral_atoms_returned,
                LendingError::AdditionOverflow,
            ) {
                Err(e) => (Err(e), p1),
                Ok(c) => (
                    Ok(()),
                    BorrowPosition {
                        collateral_deposited_atoms: c,
                        swept_collateral_atoms: 0,
                        capital_sweep_pending: false,
                        ..p1
                    },
                ),
            },
        }
    }
}

/// Result and new state of `deposit_collateral`.
pub open spec fn spec_bp_deposit_collateral(p: BorrowPosition, atoms: u64) -> (LendingResult<()>, BorrowPosition) {
    match u64_res(p.collateral_deposited_atoms + atoms, LendingError::AdditionOverflow) {
        Ok(c) => (Ok(()), BorrowPosition { collateral_deposited_atoms: c, ..p }),
        Err(e) => (Err(e), p),
    }
}

/// Result and new state of `withdraw_collateral`.
pub open spec fn spec_bp_withdraw_collateral(p: BorrowPosition, atoms: u64) -> (LendingResult<()>, BorrowPosition) {
    if atoms <= p.collateral_deposited_atoms {
        (Ok(()), BorrowPosition { collateral_deposited_atoms: (p.collateral_deposited_atoms - atoms) as u64, ..p })
    } else {
        (Err(LendingError::WithdrawalExceedsDeposited), p)
    }
}

/// Result and new state of `borrow`.
pub open spec fn spec_bp_borrow(p: BorrowPosition, atoms: u64, shares: UFixedPoint) -> (LendingResult<()>, BorrowPosition) {
    match u64_res(p.initial_borrowed_atoms + atoms, LendingError::AdditionOverflow) {
        Err(e) => (Err(e), p),
        Ok(i) => match spec_u_add(p.borrowed_shares, shares) {
            Err(e) => (Err(e), BorrowPosition { initial_borrowed_atoms: i, ..p }),
            Ok(s) => (Ok(()), BorrowPosition { initial_borrowed_atoms: i, borrowed_shares: s, ..p }),
        },
    }
}

impl BorrowPosition {
    /// An empty position of `authority` in `market`.
    pub fn initialize(&mut self, authority: Pubkey, market: Pubkey)
        ensures
            final(self).authority == authority,
            final(self).market == market,
            final(self).collateral_deposited_atoms == 0,
            final(self).initial_borrowed_atoms == 0,
            final(self).borrowed_shares.bits == 0,
            final(self).swept_collateral_atoms == old(self).swept_collateral_atoms,
            final(self).capital_sweep_pending == old(self).capital_sweep_pending,
    {
        self.authority = authority;
        self.market = market;
        self.collateral_deposited_atoms = 0;
        self.initial_borrowed_atoms = 0;
        self.borrowed_shares = UFixedPoint::zero();
    }

    pub fn authority(&self) -> (r: &Pubkey)
        ensures
            *r == self.authority,
    {
        &self.authority
    }

    pub fn market(&self) -> (r: &Pubkey)
        ensures
            *r == self.market,
    {
        &self.market
    }

    pub fn borrowed_shares(&self) -> (r: UFixedPoint)
        ensures
            r == self.borrowed_shares,
    {
        self.borrowed_shares
    }

    pub fn collateral_deposited_atoms(&self) -> (r: u64)
        ensures
            r == self.collateral_deposited_atoms,
    {
        self.collateral_deposited_atoms
    }

    pub fn initial_borrowed_atoms(&self) -> (r: u64)
        ensures
            r == self.initial_borrowed_atoms,
    {
        self.initial_borrowed_atoms
    }

    pub fn swept_collateral_atoms(&self) -> (r: u64)
        ensures
            r == self.swept_collateral_atoms,
    {
        self.swept_collateral_atoms
    }

    pub fn capital_sweep_pending(&self) -> (r: bool)
        ensures
            r == self.capital_sweep_pending,
    {
        self.capital_sweep_pending
    }

    /// Refuses with `CapitalSweepPending` while a capital sweep is pending.
    pub fn ensure_capital_sweep_inactive(&self) -> (r: LendingResult<()>)
        ensures
            r == (if self.capital_sweep_pending {
                Err::<(), LendingError>(LendingError::CapitalSweepPending)
            } else {
                Ok(())
            }),
    {
        if self.capital_sweep_pending {
            Err(LendingError::CapitalSweepPending)
        } else {
            Ok(())
        }
    }

    pub fn deposit_collateral(&mut self, atoms: u64) -> (r: LendingResult<()>)
        ensures
            (r, *final(self)) == spec_bp_deposit_collateral(*old(self), atoms),
    {
        self.collateral_deposited_atoms = match self.collateral_deposited_atoms.safe_add(atoms) {
            Ok(v) => v,
            Err(e) => return Err(e),
        };
        Ok(())
    }

    /// Takes out collateral; more than deposited is `WithdrawalExceedsDeposited`.
    pub fn withdraw_collateral(&mut self, atoms: u64) -> (r: LendingResult<()>)
        ensures
            (r, *final(self)) == spec_bp_withdraw_collateral(*old(self), atoms),
    {
        self.collateral_deposited_atoms = match self.collateral_deposited_atoms.safe_sub(atoms) {
            Ok(v) => v,
            Err(_) => return Err(LendingError::WithdrawalExceedsDeposited),
        };
        Ok(())
    }

    /// Records a borrow of `atoms` that minted `shares`.
    pub fn borrow(&mut self, atoms: u64, shares: UFixedPoint) -> (r: LendingResult<()>)
        ensures
            (r, *final(self)) == spec_bp_borrow(*old(self), atoms, shares),
    {
        self.initial_borrowed_atoms = match self.initial_borrowed_atoms.safe_add(atoms) {
            Ok(v) => v,
            Err(e) => return Err(e),
        };
        self.borrowed_shares = match self.borrowed_shares.safe_add(shares) {
            Ok(v) => v,
            Err(e) => return Err(e),
        };
        Ok(())
    }

    /// Repays `shares` of the debt, see `spec_repay`.
    pub fn repay(&mut self, shares: UFixedPoint) -> (r: LendingResult<()>)
        ensures
            (r, *final(self)) == spec_repay(*old(self), shares),
    {
        if shares.bits > self.borrowed_shares.bits {
            return Err(LendingError::RepayExceedsBorrowed);
        }
        if shares.bits == self.borrowed_shares.bits {
            self.repay_all();
            return Ok(());
        }
        let ratio = match shares.safe_div(self.borrowed_shares) {
            Ok(v) => v,
            Err(e) => return Err(e),
        };
        let m = match ratio.safe_mul(self.initial_borrowed_atoms) {
            Ok(v) => v,
            Err(e) => return Err(e),
        };
        let adjusted_atoms = match m.as_u64_rounded_down() {
            Ok(v) => v,
            Err(e) => return Err(e),
        };
        self.initial_borrowed_atoms = match self.initial_borrowed_atoms.safe_sub(adjusted_atoms) {
            Ok(v) => v,
            Err(e) => return Err(e),
        };
        self.borrowed_shares = match self.borrowed_shares.safe_sub(shares) {
            Ok(v) => v,
            Err(e) => return Err(e),
        };
        Ok(())
    }

    /// Clears the debt.
    pub fn repay_all(&mut self)
        ensures
            *final(self) == spec_repay_all(*old(self)),
    {
        self.initial_borrowed_atoms = 0;
        self.borrowed_shares = UFixedPoint::zero();
    }

    /// Repays `shares_liquidated` and removes the seized collateral.
    pub fn liquidate(&mut self, shares_liquidated: UFixedPoint, collateral_atoms_liquidated: u64) -> (r:
        LendingResult<()>)
        ensures
            (r, *final(self)) == spec_position_liquidate(
                *old(self),
                shares_liquidated,
                collateral_atoms_liquidated,
            ),
    {
        match self.repay(shares_liquidated) {
            Ok(_) => {},
            Err(e) => return Err(e),
        }
        self.collateral_deposited_atoms = match self.collateral_deposited_atoms.safe_sub(
            collateral_atoms_liquidated,
        ) {
            Ok(v) => v,
            Err(e) => return Err(e),
        };
        Ok(())
    }

    /// Moves all deposited collateral out for a capital sweep and returns it;
    /// refused while a sweep is pending.
    pub fn begin_capital_sweep(&mut self) -> (r: LendingResult<u64>)
        ensures
            old(self).capital_sweep_pending ==> r == Err::<u64, LendingError>(
                LendingError::CapitalSweepPending,
            ) && *final(self) == *old(self),
            !old(self).capital_sweep_pending ==> r == Ok::<u64, LendingError>(
                old(self).collateral_deposited_atoms,
            ) && *final(self) == (BorrowPosition {
                collateral_deposited_atoms: 0,
                swept_collateral_atoms: old(self).collateral_deposited_atoms,
                capital_sweep_pending: true,
                ..*old(self)
            }),
    {
        if self.capital_sweep_pending {
            return Err(LendingError::CapitalSweepPending);
        }
        let swept = self.collateral_deposited_atoms;
        self.swept_collateral_atoms = swept;
        self.collateral_deposited_atoms = 0;
        self.capital_sweep_pending = true;
        Ok(swept)
    }

    /// Ends a capital sweep: repays `shares_repaid` and gives back
    /// `collateral_atoms_returned` as deposited collateral.
    pub fn settle_capital_sweep(&mut self, shares_repaid: UFixedPoint, collateral_atoms_returned: u64) -> (r:
        LendingResult<()>)
        ensures
            (r, *final(self)) == spec_position_settle_capital_sweep(
                *old(self),
                shares_repaid,
                collateral_atoms_returned,
            ),
    {
        if !self.capital_sweep_pending {
            return Err(LendingError::NoCapitalSweepPending);
        }
        match self.repay(shares_repaid) {
            Ok(_) => {},
            Err(e) => return Err(e),
        }
        self.collateral_deposited_atoms = match self.collateral_deposited_atoms.safe_add(
            collateral_atoms_returned,
        ) {
            Ok(v) => v,
            Err(e) => return Err(e),
        };
        self.swept_collateral_atoms = 0;
        self.capital_sweep_pending = false;
        Ok(())
    }
}

} // verus!
