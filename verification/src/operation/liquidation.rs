//! How much debt a liquidation repays and how much collateral it seizes.
use crate::error::LendingResult;
use crate::math::fixed_ops::i_one;
use crate::math::ifixed_point::{
    ifp, spec_i_add, spec_i_div, spec_i_mul, spec_i_round_down, spec_i_round_up, spec_i_sub,
    IFixedPoint,
};
use crate::math::safe_math::{u64_res, SafeMath};
use crate::oracle::oracle_price::{
    spec_borrow_atoms, spec_borrow_value, spec_collateral_atoms, spec_collateral_value, OracleRate,
};
use vstd::prelude::*;

verus! {

/// Debt to repay and collateral to seize.
#[derive(Debug, Clone, Copy, PartialEq, Eq, Structural)]
pub struct LiquidationResult {
    pub borrowed_atoms_to_repay: u64,
    pub collateral_atoms_to_liquidate: u64,
}

/// Debt to repay, collateral to seize and the liquidator's bonus collateral.
#[derive(Debug, Clone, Copy, PartialEq, Eq, Structural)]
pub struct LiquidationResultWithBonus {
    pub borrowed_atoms_to_repay: u64,
    pub collateral_atoms_to_liquidate: u64,
    pub collateral_atoms_liquidation_bonus: u64,
}

impl Default for LiquidationResult {
    /// Nothing to repay and nothing to seize.
    fn default() -> (r: Self)
        ensures
            r.borrowed_atoms_to_repay == 0,
            r.collateral_atoms_to_liquidate == 0,
    {
        LiquidationResult { borrowed_atoms_to_repay: 0, collateral_atoms_to_liquidate: 0 }
    }
}

impl Default for LiquidationResultWithBonus {
    /// Nothing to repay, nothing to seize, no bonus.
    fn default() -> (r: Self)
        ensures
            r == spec_no_liquidation(),
    {
        LiquidationResultWithBonus {
            borrowed_atoms_to_repay: 0,
            collateral_atoms_to_liquidate: 0,
            collateral_atoms_liquidation_bonus: 0,
        }
    }
}

/// The liquidation that moves nothing.
pub open spec fn spec_no_liquidation() -> LiquidationResultWithBonus {
    LiquidationResultWithBonus {
        borrowed_atoms_to_repay: 0,
        collateral_atoms_to_liquidate: 0,
        collateral_atoms_liquidation_bonus: 0,
    }
}

/// `value * max_repay / repay`, rounded down.
pub open spec fn scale_down(value: u64, max_repay: u64, repay: u64) -> u64 {
    ((value * max_repay) / (repay as int)) as u64
}

/// `r` scaled down so that it repays at most `max_repay`.
pub open spec fn spec_adjust(r: LiquidationResult, max_repay: u64) -> LiquidationResult {
    if r.borrowed_atoms_to_repay > max_repay {
        LiquidationResult {
            borrowed_atoms_to_repay: max_repay,
            collateral_atoms_to_liquidate: scale_down(
                r.collateral_atoms_to_liquidate,
                max_repay,
                r.borrowed_atoms_to_repay,
            ),
        }
    } else {
        r
    }
}

/// `r` scaled down so that it repays at most `max_repay`.
pub open spec fn spec_adjust_with_bonus(r: LiquidationResultWithBonus, max_repay: u64) -> LiquidationResultWithBonus {
    if r.borrowed_atoms_to_repay > max_repay {
        LiquidationResultWithBonus {
            borrowed_atoms_to_repay: max_repay,
            collateral_atoms_to_liquidate: scale_down(
                r.collateral_atoms_to_liquidate,
                max_repay,
                r.borrowed_atoms_to_repay,
            ),
            collateral_atoms_liquidation_bonus: scale_down(
                r.collateral_atoms_liquidation_bonus,
                max_repay,
                r.borrowed_atoms_to_repay,
            ),
        }
    } else {
        r
    }
}

/// `value * max_repay / repay` with `max_repay < repay`: at most `value`.
fn scale(value: u64, max_repay: u64, repay: u64) -> (r: u64)
    requires
        max_repay < repay,
    ensures
        r == scale_down(value, max_repay, repay),
        r <= value,
{
    assert(value * max_repay <= u128::MAX) by (nonlinear_arith)
        requires
            value <= u64::MAX,
            max_repay <= u64::MAX,
    ;
    let p = value as u128 * max_repay as u128;
    assert(p <= value * repay - value) by (nonlinear_arith)
        requires
            p == value * max_repay,
            max_repay + 1 <= repay,
            value >= 0,
    ;
    let q = p / repay as u128;
    assert(q <= value) by (nonlinear_arith)
        requires
            q == p / (repay as u128),
            p <= value * repay,
            repay > 0,
    ;
    q as u64
}

impl LiquidationResult {
    /// Caps the repaid debt at `max_repay`, scaling the seized collateral
    /// down in proportion.
    pub fn adjust_for_max_repay(&mut self, max_repay: u64)
        ensures
            *final(self) == spec_adjust(*old(self), max_repay),
            final(self).borrowed_atoms_to_repay <= max_repay || *final(self) == *old(self),
    {
        if self.borrowed_atoms_to_repay > max_repay {
            self.collateral_atoms_to_liquidate = scale(
                self.collateral_atoms_to_liquidate,
                max_repay,
                self.borrowed_atoms_to_repay,
            );
            self.borrowed_atoms_to_repay = max_repay;
        }
    }
}

impl LiquidationResultWithBonus {
    /// Caps the repaid debt at `max_repay`, scaling the seized collateral and
    /// the bonus down in proportion.
    pub fn adjust_for_max_repay(&mut self, max_repay: u64)
        ensures
            *final(self) == spec_adjust_with_bonus(*old(self), max_repay),
            final(self).collateral_atoms_to_liquidate <= old(self).collateral_atoms_to_liquidate,
            final(self).collateral_atoms_liquidation_bonus
                <= old(self).collateral_atoms_liquidation_bonus,
            final(self).borrowed_atoms_to_repay <= old(self).borrowed_atoms_to_repay,
            old(self).borrowed_atoms_to_repay > max_repay ==> final(self).borrowed_atoms_to_repay
                == max_repay,
    {
        if self.borrowed_atoms_to_repay > max_repay {
            let repay = self.borrowed_atoms_to_repay;
            self.collateral_atoms_to_liquidate = scale(
                self.collateral_atoms_to_liquidate,
                max_repay,
                repay,
            );
            self.collateral_atoms_liquidation_bonus = scale(
                self.collateral_atoms_liquidation_bonus,
                max_repay,
                repay,
            );
            self.borrowed_atoms_to_repay = max_repay;
        }
    }

    /// Collateral seized plus bonus.
    pub fn total_collateral_atoms_to_liquidate(&self) -> (r: LendingResult<u64>)
        ensures
            r == u64_res(
                self.collateral_atoms_to_liquidate + self.collateral_atoms_liquidation_bonus,
                crate::error::LendingError::AdditionOverflow,
            ),
    {
        self.collateral_atoms_to_liquidate.safe_add(self.collateral_atoms_liquidation_bonus)
    }
}

/// The value to liquidate so that the remaining position has ltv `new_ltv`:
/// `(borrow value - collateral value * new_ltv) / (1 - new_ltv)`.
pub open spec fn spec_value_to_liquidate(
    borrowed_atoms: u64,
    borrow_decimals: u8,
    supply_oracle: OracleRate,
    collateral_atoms: u64,
    collateral_decimals: u8,
    collateral_oracle: OracleRate,
    new_ltv: IFixedPoint,
) -> LendingResult<IFixedPoint> {
    match spec_borrow_value(supply_oracle, borrowed_atoms, borrow_decimals) {
        Err(e) => Err(e),
        Ok(bv) => match spec_collateral_value(collateral_oracle, collateral_atoms, collateral_decimals) {
            Err(e) => Err(e),
            Ok(cv) => match spec_i_mul(cv, new_ltv) {
                Err(e) => Err(e),
                Ok(cvl) => match spec_i_sub(bv, cvl) {
                    Err(e) => Err(e),
                    Ok(num) => match spec_i_sub(ifp(i_one()), new_ltv) {
                        Err(e) => Err(e),
                        Ok(den) => spec_i_div(num, den),
                    },
                },
            },
        },
    }
}

/// The collateral (rounded down) and the debt (rounded up) worth the value
/// to liquidate.
pub open spec fn spec_compute_liquidation(
    borrowed_atoms: u64,
    borrow_decimals: u8,
    supply_oracle: OracleRate,
    collateral_atoms: u64,
    collateral_decimals: u8,
    collateral_oracle: OracleRate,
    new_ltv: IFixedPoint,
) -> LendingResult<LiquidationResult> {
    match spec_value_to_liquidate(
        borrowed_atoms,
        borrow_decimals,
        supply_oracle,
        collateral_atoms,
        collateral_decimals,
        collateral_oracle,
        new_ltv,
    ) {
        Err(e) => Err(e),
        Ok(value) => match spec_collateral_atoms(collateral_oracle, value, collateral_decimals) {
            Err(e) => Err(e),
            Ok(ca) => match spec_borrow_atoms(supply_oracle, value, borrow_decimals) {
                Err(e) => Err(e),
                Ok(ba) => match spec_i_round_down(ca) {
                    Err(e) => Err(e),
                    Ok(c) => match spec_i_round_up(ba) {
                        Err(e) => Err(e),
                        Ok(b) => Ok(
                            LiquidationResult {
                                borrowed_atoms_to_repay: b,
                                collateral_atoms_to_liquidate: c,
                            },
                        ),
                    },
                },
            },
        },
    }
}

/// The share of the collateral matching the share of the debt repaid,
/// rounded down: seizing no more keeps the ltv from rising.
pub open spec fn spec_proportional_seize_cap(collateral_atoms: u64, repaid: u64, borrowed_atoms: u64) -> int {
    if borrowed_atoms == 0 {
        collateral_atoms as int
    } else {
        (collateral_atoms * repaid) / (borrowed_atoms as int)
    }
}

/// The liquidation with bonus: computed on the collateral net of the bonus
/// and the ltv grown by the bonus, capped at `min(max_repay, borrowed)`,
/// then the bonus on the seized collateral, cut so that the total stays
/// within the share of the collateral matching the share of the debt
/// repaid, and within the collateral.
pub open spec fn spec_compute_liquidation_with_fee(
    borrowed_atoms: u64,
    borrow_decimals: u8,
    supply_oracle: OracleRate,
    collateral_atoms: u64,
    collateral_decimals: u8,
    collateral_oracle: OracleRate,
    new_ltv_after_liquidation_fee: IFixedPoint,
    liquidation_fee: IFixedPoint,
    max_borrowed_atoms_to_repay: u64,
) -> LendingResult<LiquidationResultWithBonus> {
    match spec_i_add(ifp(i_one()), liquidation_fee) {
        Err(e) => Err(e),
        Ok(opf) => match spec_i_mul(new_ltv_after_liquidation_fee, opf) {
            Err(e) => Err(e),
            Ok(adjusted_new_ltv) => match spec_i_div(ifp(collateral_atoms * i_one()), opf) {
                Err(e) => Err(e),
                Ok(ac) => match spec_i_round_down(ac) {
                    Err(e) => Err(e),
                    Ok(adjusted_collateral) => match spec_compute_liquidation(
                        borrowed_atoms,
                        borrow_decimals,
                        supply_oracle,
                        adjusted_collateral,
                        collateral_decimals,
                        collateral_oracle,
                        adjusted_new_ltv,
                    ) {
                        Err(e) => Err(e),
                        Ok(lr0) => {
                            let cap = if max_borrowed_atoms_to_repay < borrowed_atoms {
                                max_borrowed_atoms_to_repay
                            } else {
                                borrowed_atoms
                            };
                            let lr = spec_adjust(lr0, cap);
                            match spec_i_mul(
                                ifp(lr.collateral_atoms_to_liquidate * i_one()),
                                liquidation_fee,
                            ) {
                                Err(e) => Err(e),
                                Ok(f) => match spec_i_round_down(f) {
                                    Err(e) => Err(e),
                                    Ok(full_fee_atoms) => {
                                        let seize_cap = spec_proportional_seize_cap(
                                            collateral_atoms,
                                            lr.borrowed_atoms_to_repay,
                                            borrowed_atoms,
                                        );
                                        let fee_atoms: u64 = if lr.collateral_atoms_to_liquidate + full_fee_atoms
                                            <= seize_cap {
                                            full_fee_atoms
                                        } else if lr.collateral_atoms_to_liquidate < seize_cap {
                                            (seize_cap - lr.collateral_atoms_to_liquidate) as u64
                                        } else {
                                            0
                                        };
                                        let total = lr.collateral_atoms_to_liquidate + fee_atoms;
                                        if lr.collateral_atoms_to_liquidate + full_fee_atoms > u64::MAX {
                                            Err(crate::error::LendingError::AdditionOverflow)
                                        } else if total > collateral_atoms {
                                            if lr.collateral_atoms_to_liquidate > collateral_atoms {
                                                Err(crate::error::LendingError::SubtractionOverflow)
                                            } else {
                                                Ok(
                                                    LiquidationResultWithBonus {
                                                        borrowed_atoms_to_repay: lr.borrowed_atoms_to_repay,
                                                        collateral_atoms_to_liquidate: lr.collateral_atoms_to_liquidate,
                                                        collateral_atoms_liquidation_bonus: (collateral_atoms
                                                            - lr.collateral_atoms_to_liquidate) as u64,
                                                    },
                                                )
                                            }
                                        } else {
                                            Ok(
                                                LiquidationResultWithBonus {
                                                    borrowed_atoms_to_repay: lr.borrowed_atoms_to_repay,
                                                    collateral_atoms_to_liquidate: lr.collateral_atoms_to_liquidate,
                                                    collateral_atoms_liquidation_bonus: fee_atoms,
                                                },
                                            )
                                        }
                                    },
                                },
                            }
                        },
                    },
                },
            },
        },
    }
}

/// Finds the debt to repay and the collateral to seize, both worth the value
/// to liquidate, so that the position ends at ltv `new_ltv`.
pub fn compute_liquidation(
    borrowed_atoms: u64,
    borrow_decimals: u8,
    supply_oracle: &OracleRate,
    collateral_atoms: u64,
    collateral_decimals: u8,
    collateral_oracle: &OracleRate,
    new_ltv: IFixedPoint,
) -> (r: LendingResult<LiquidationResult>)
    requires
        borrow_decimals <= 18,
        collateral_decimals <= 18,
    ensures
        r == spec_compute_liquidation(
            borrowed_atoms,
            borrow_decimals,
            *supply_oracle,
            collateral_atoms,
            collateral_decimals,
            *collateral_oracle,
            new_ltv,
        ),
{
    let bv = match supply_oracle.borrow_value(borrowed_atoms, borrow_decimals) {
        Ok(v) => v,
        Err(e) => return Err(e),
    };
    let cv = match collateral_oracle.collateral_value(collateral_atoms, collateral_decimals) {
        Ok(v) => v,
        Err(e) => return Err(e),
    };
    let cvl = match cv.safe_mul(new_ltv) {
        Ok(v) => v,
        Err(e) => return Err(e),
    };
    let num = match bv.safe_sub(cvl) {
        Ok(v) => v,
        Err(e) => return Err(e),
    };
    let den = match IFixedPoint::one().safe_sub(new_ltv) {
        Ok(v) => v,
        Err(e) => return Err(e),
    };
    let value_to_liquidate = match num.safe_div(den) {
        Ok(v) => v,
        Err(e) => return Err(e),
    };
    let ca = match collateral_oracle.collateral_atoms(value_to_liquidate, collateral_decimals) {
        Ok(v) => v,
        Err(e) => return Err(e),
    };
    let ba = match supply_oracle.borrow_atoms(value_to_liquidate, borrow_decimals) {
        Ok(v) => v,
        Err(e) => return Err(e),
    };
    let collateral_atoms_to_liquidate = match ca.as_u64_rounded_down() {
        Ok(v) => v,
        Err(e) => return Err(e),
    };
    let borrowed_atoms_to_repay = match ba.as_u64_rounded_up() {
        Ok(v) => v,
        Err(e) => return Err(e),
    };
    Ok(LiquidationResult { borrowed_atoms_to_repay, collateral_atoms_to_liquidate })
}

/// The share of the collateral matching the share of the debt repaid, see
/// `spec_proportional_seize_cap`.
fn proportional_seize_cap(collateral_atoms: u64, repaid: u64, borrowed_atoms: u64) -> (r: u64)
    requires
        repaid <= borrowed_atoms,
    ensures
        r == spec_proportional_seize_cap(collateral_atoms, repaid, borrowed_atoms),
        r <= collateral_atoms,
{
    if borrowed_atoms == 0 {
        return collateral_atoms;
    }
    proof {
        assert(collateral_atoms * repaid <= u64::MAX * u64::MAX) by (nonlinear_arith)
            requires
                collateral_atoms <= u64::MAX,
                repaid <= u64::MAX,
        ;
    }
    let product: u128 = collateral_atoms as u128 * repaid as u128;
    proof {
        assert(collateral_atoms * repaid <= collateral_atoms * borrowed_atoms) by (nonlinear_arith)
            requires
                repaid <= borrowed_atoms,
        ;
        assert((collateral_atoms * repaid) / (borrowed_atoms as int) <= collateral_atoms) by (
        nonlinear_arith)
            requires
                collateral_atoms * repaid <= collateral_atoms * borrowed_atoms,
                borrowed_atoms > 0,
        ;
    }
    (product / borrowed_atoms as u128) as u64
}

/// The liquidation with bonus, see `spec_compute_liquidation_with_fee`. It
/// never repays more than `max_borrowed_atoms_to_repay` nor the debt, and
/// never seizes (with the bonus) more than the collateral.
pub fn compute_liquidation_with_fee(
    borrowed_atoms: u64,
    borrow_decimals: u8,
    supply_oracle: &OracleRate,
    collateral_atoms: u64,
    collateral_decimals: u8,
    collateral_oracle: &OracleRate,
    new_ltv_after_liquidation_fee: IFixedPoint,
    liquidation_fee: IFixedPoint,
    max_borrowed_atoms_to_repay: u64,
) -> (r: LendingResult<LiquidationResultWithBonus>)
    requires
        borrow_decimals <= 18,
        collateral_decimals <= 18,
    ensures
        r == spec_compute_liquidation_with_fee(
            borrowed_atoms,
            borrow_decimals,
            *supply_oracle,
            collateral_atoms,
            collateral_decimals,
            *collateral_oracle,
            new_ltv_after_liquidation_fee,
            liquidation_fee,
            max_borrowed_atoms_to_repay,
        ),
        r matches Ok(l) ==> l.borrowed_atoms_to_repay <= max_borrowed_atoms_to_repay
            && l.borrowed_atoms_to_repay <= borrowed_atoms,
        r matches Ok(l) ==> l.collateral_atoms_to_liquidate + l.collateral_atoms_liquidation_bonus
            <= collateral_atoms,
        r matches Ok(l) ==> l.collateral_atoms_liquidation_bonus == 0
            || l.collateral_atoms_to_liquidate + l.collateral_atoms_liquidation_bonus
            <= spec_proportional_seize_cap(collateral_atoms, l.borrowed_atoms_to_repay, borrowed_atoms),
{
    let one_plus_liquidation_fee = match IFixedPoint::one().safe_add(liquidation_fee) {
        Ok(v) => v,
        Err(e) => return Err(e),
    };
    let adjusted_new_ltv = match new_ltv_after_liquidation_fee.safe_mul(one_plus_liquidation_fee) {
        Ok(v) => v,
        Err(e) => return Err(e),
    };
    let ac = match collateral_atoms.safe_div(one_plus_liquidation_fee) {
        Ok(v) => v,
        Err(e) => return Err(e),
    };
    let adjusted_collateral_atoms = match ac.as_u64_rounded_down() {
        Ok(v) => v,
        Err(e) => return Err(e),
    };
    let lr0 = match compute_liquidation(
        borrowed_atoms,
        borrow_decimals,
        supply_oracle,
        adjusted_collateral_atoms,
        collateral_decimals,
        collateral_oracle,
        adjusted_new_ltv,
    ) {
        Ok(v) => v,
        Err(e) => return Err(e),
    };
    let mut liquidation_result = lr0;
    let cap = if max_borrowed_atoms_to_repay < borrowed_atoms {
        max_borrowed_atoms_to_repay
    } else {
        borrowed_atoms
    };
    liquidation_result.adjust_for_max_repay(cap);
    let f = match liquidation_result.collateral_atoms_to_liquidate.safe_mul(liquidation_fee) {
        Ok(v) => v,
        Err(e) => return Err(e),
    };
    let mut collateral_atoms_fee = match f.as_u64_rounded_down() {
        Ok(v) => v,
        Err(e) => return Err(e),
    };
    let uncapped_total = match liquidation_result.collateral_atoms_to_liquidate.safe_add(
        collateral_atoms_fee,
    ) {
        Ok(v) => v,
        Err(e) => return Err(e),
    };
    let seize_cap = proportional_seize_cap(
        collateral_atoms,
        liquidation_result.borrowed_atoms_to_repay,
        borrowed_atoms,
    );
    if uncapped_total > seize_cap {
        collateral_atoms_fee = if liquidation_result.collateral_atoms_to_liquidate < seize_cap {
            seize_cap - liquidation_result.collateral_atoms_to_liquidate
        } else {
            0
        };
    }
    let total_collateral_atoms_to_liquidate = liquidation_result.collateral_atoms_to_liquidate
        + collateral_atoms_fee;
    if total_collateral_atoms_to_liquidate > collateral_atoms {
        collateral_atoms_fee = match collateral_atoms.safe_sub(
            liquidation_result.collateral_atoms_to_liquidate,
        ) {
            Ok(v) => v,
            Err(e) => return Err(e),
        };
    }
    Ok(
        LiquidationResultWithBonus {
            borrowed_atoms_to_repay: liquidation_result.borrowed_atoms_to_repay,
            collateral_atoms_to_liquidate: liquidation_result.collateral_atoms_to_liquidate,
            collateral_atoms_liquidation_bonus: collateral_atoms_fee,
        },
    )
}

} // verus!
