//! A lending market: one supplied token lent against one collateral token.
use crate::error::{LendingError, LendingResult};
use crate::interest_rate::interest_rate_kind::InterestRateCurveKind;
use crate::math::fixed_ops::{i_one, u_one};
use crate::math::ifixed_point::{ifp, spec_i_div, IFixedPoint};
use crate::math::rounding::RoundingMode;
use crate::math::safe_math::{u64_res, SafeMath};
use crate::math::shares_tracker::{
    spec_deposit_atoms, spec_shares_to_atoms, spec_withdraw_atoms, spec_withdraw_atoms_capped,
    spec_withdraw_shares,
};
use crate::math::ufixed_point::{ufp, UFixedPoint};
use crate::operation::liquidation::{
    compute_liquidation_with_fee, spec_adjust_with_bonus, spec_compute_liquidation_with_fee,
    spec_no_liquidation, LiquidationResultWithBonus,
};
use crate::oracle::oracle_config::OracleConfig;
use crate::oracle::oracle_price::{spec_borrow_value, spec_collateral_value, OracleRate};
use crate::oracle::oracle_provider::spec_feed_address;
use crate::pda::{market_seed_with_bump, spec_market_seed_without_bump};
use crate::pubkey::Pubkey;
use crate::state::borrow_position::{
    spec_bp_borrow, spec_bp_deposit_collateral, spec_bp_withdraw_collateral,
    spec_position_liquidate, spec_position_settle_capital_sweep, spec_repay, spec_repay_all,
    BorrowPosition, BorrowPositionHealth, CapitalSweepSettlementResult, LiquidationResultWithCtx,
};
use crate::state::collateral_vault::{spec_cv_deposit, spec_cv_withdraw, CollateralVault};
use crate::state::market_config::{spec_target_ltv, MarketConfig};
use crate::state::supply_position::{spec_supply_lend, spec_supply_withdraw, SupplyPosition};
use crate::state::supply_vault::{
    spec_redeem, spec_sync_clock, spec_utilisation_rate, spec_vault_socialize_loss, with_borrow,
    with_supply, SupplyVault,
};
use vstd::prelude::*;

verus! {

/// A mint and its decimals.
#[derive(Debug, Clone, Copy, PartialEq, Eq)]
pub struct TokenInfo {
    pub mint: Pubkey,
    pub decimals: u8,
}

/// A lending market.
#[derive(Debug, Clone, Copy, PartialEq, Eq)]
pub struct Market {
    pub config: MarketConfig,
    pub collateral_vault: CollateralVault,
    pub supply_vault: SupplyVault,
}

impl Market {
    /// Supported decimals on both sides and a usable interest-rate curve.
    pub open spec fn wf(&self) -> bool {
        self.supply_vault.wf() && self.collateral_vault.mint_decimals <= 18
    }
}

pub open spec fn with_sv(m: Market, sv: SupplyVault) -> Market {
    Market { supply_vault: sv, ..m }
}

pub open spec fn with_cv(m: Market, cv: CollateralVault) -> Market {
    Market { collateral_vault: cv, ..m }
}

/// The health of `bp` counting `collateral_atoms` of collateral: its debt
/// (rounded up) valued at the supply oracle's upper bound, its collateral
/// valued at the collateral oracle's lower bound, and their ratio (zero
/// without debt, the largest number when debt has no collateral value).
pub open spec fn spec_health(
    m: Market,
    bp: BorrowPosition,
    collateral_atoms: u64,
    collateral_oracle: OracleRate,
    supply_oracle: OracleRate,
) -> LendingResult<BorrowPositionHealth> {
    match spec_shares_to_atoms(
        m.supply_vault.borrow_shares_tracker,
        bp.borrowed_shares,
        RoundingMode::RoundUp,
    ) {
        Err(e) => Err(e),
        Ok(borrowed) => match spec_borrow_value(
            supply_oracle,
            borrowed,
            m.supply_vault.mint_decimals as u8,
        ) {
            Err(e) => Err(e),
            Ok(bv) => match spec_collateral_value(
                collateral_oracle,
                collateral_atoms,
                m.collateral_vault.mint_decimals as u8,
            ) {
                Err(e) => Err(e),
                Ok(cv) => {
                    let ltv: LendingResult<IFixedPoint> = if bv.bits == 0 {
                        Ok(ifp(0))
                    } else if cv.bits == 0 {
                        Ok(ifp(i128::MAX as int))
                    } else {
                        spec_i_div(bv, cv)
                    };
                    match ltv {
                        Err(e) => Err(e),
                        Ok(l) => Ok(
                            BorrowPositionHealth {
                                ltv: l,
                                collateral_atoms,
                                borrowed_atoms: borrowed,
                                borrow_value: bv,
                                collateral_value: cv,
                            },
                        ),
                    }
                },
            },
        },
    }
}

/// Refuses a capital sweep in progress.
pub open spec fn sweep_inactive(bp: BorrowPosition) -> LendingResult<()> {
    if bp.capital_sweep_pending {
        Err(LendingError::CapitalSweepPending)
    } else {
        Ok(())
    }
}

/// The health and liquidation of `bp` counting `collateral_atoms`: refused
/// while healthy; an insolvent position (ltv at least one) gives up all its
/// collateral for all its debt without bonus, capped at `max_repay_atoms`;
/// otherwise the liquidation with bonus towards the target ltv.
pub open spec fn spec_liquidation_for_collateral(
    m: Market,
    bp: BorrowPosition,
    collateral_atoms: u64,
    collateral_oracle: OracleRate,
    supply_oracle: OracleRate,
    max_repay_atoms: u64,
) -> LendingResult<(BorrowPositionHealth, LiquidationResultWithBonus)> {
    match spec_health(m, bp, collateral_atoms, collateral_oracle, supply_oracle) {
        Err(e) => Err(e),
        Ok(hb) => if hb.ltv.bits < m.config.ltv_config.unhealthy_ltv.bits {
            Err(LendingError::PositionIsHealthy)
        } else if hb.ltv.bits >= i_one() {
            Ok(
                (
                    hb,
                    spec_adjust_with_bonus(
                        LiquidationResultWithBonus {
                            borrowed_atoms_to_repay: hb.borrowed_atoms,
                            collateral_atoms_to_liquidate: hb.collateral_atoms,
                            collateral_atoms_liquidation_bonus: 0,
                        },
                        max_repay_atoms,
                    ),
                ),
            )
        } else {
            match spec_compute_liquidation_with_fee(
                hb.borrowed_atoms,
                m.supply_vault.mint_decimals as u8,
                supply_oracle,
                collateral_atoms,
                m.collateral_vault.mint_decimals as u8,
                collateral_oracle,
                spec_target_ltv(m.config.ltv_config),
                m.config.ltv_config.liquidation_bonus,
                max_repay_atoms,
            ) {
                Err(e) => Err(e),
                Ok(l) => Ok((hb, l)),
            }
        },
    }
}

/// Result and new state of `lend`.
pub open spec fn spec_market_lend(m: Market, sp: SupplyPosition, atoms: u64) -> (
    LendingResult<()>,
    Market,
    SupplyPosition,
) {
    let (r1, t) = spec_deposit_atoms(m.supply_vault.supply_shares_tracker, atoms);
    let m1 = with_sv(m, with_supply(m.supply_vault, t));
    match r1 {
        Err(e) => (Err(e), m1, sp),
        Ok(shares) => {
            let (r2, sp1) = spec_supply_lend(sp, atoms, shares);
            match r2 {
                Err(e) => (Err(e), m1, sp1),
                Ok(_) => match crate::state::supply_vault::spec_total_supply(m1.supply_vault) {
                    Err(e) => (Err(e), m1, sp1),
                    Ok(total) => if total > m.config.max_supply_atoms {
                        (Err(LendingError::MaxSupplyReached), m1, sp1)
                    } else {
                        (Ok(()), m1, sp1)
                    },
                },
            }
        },
    }
}

/// Refuses a utilisation above 100% with `WithdrawalExceedsReserves`.
pub open spec fn spec_reserves_check(sv: SupplyVault) -> LendingResult<()> {
    match spec_utilisation_rate(sv) {
        Err(e) => Err(e),
        Ok(ur) => if ur.bits > i_one() {
            Err(LendingError::WithdrawalExceedsReserves)
        } else {
            Ok(())
        },
    }
}

/// Result and new state of `withdraw`.
pub open spec fn spec_market_withdraw(m: Market, sp: SupplyPosition, atoms: u64) -> (
    LendingResult<()>,
    Market,
    SupplyPosition,
) {
    let (r1, t) = spec_withdraw_atoms(m.supply_vault.supply_shares_tracker, atoms);
    let m1 = with_sv(m, with_supply(m.supply_vault, t));
    match r1 {
        Err(e) => (Err(e), m1, sp),
        Ok(shares) => match spec_reserves_check(m1.supply_vault) {
            Err(e) => (Err(e), m1, sp),
            Ok(_) => {
                let (r2, sp1) = spec_supply_withdraw(sp, shares);
                (r2, m1, sp1)
            },
        },
    }
}

/// Result and new state of `withdraw_all`.
pub open spec fn spec_market_withdraw_all(m: Market, sp: SupplyPosition) -> (
    LendingResult<u64>,
    Market,
    SupplyPosition,
) {
    let (r1, t) = spec_withdraw_shares(
        m.supply_vault.supply_shares_tracker,
        sp.shares,
        RoundingMode::RoundDown,
    );
    let m1 = with_sv(m, with_supply(m.supply_vault, t));
    match r1 {
        Err(e) => (Err(e), m1, sp),
        Ok(atoms) => match spec_reserves_check(m1.supply_vault) {
            Err(e) => (Err(e), m1, sp),
            Ok(_) => (Ok(atoms), m1, SupplyPosition { deposited_atoms: 0, shares: ufp(0), ..sp }),
        },
    }
}

/// Result and new state of `deposit_collateral`.
pub open spec fn spec_market_deposit_collateral(m: Market, bp: BorrowPosition, atoms: u64) -> (
    LendingResult<()>,
    Market,
    BorrowPosition,
) {
    match sweep_inactive(bp) {
        Err(e) => (Err(e), m, bp),
        Ok(_) => {
            let (r1, bp1) = spec_bp_deposit_collateral(bp, atoms);
            match r1 {
                Err(e) => (Err(e), m, bp1),
                Ok(_) => {
                    let (r2, cv) = spec_cv_deposit(m.collateral_vault, atoms);
                    (r2, with_cv(m, cv), bp1)
                },
            }
        },
    }
}

/// Refuses an ltv above the max ltv with `MaxLtvReached`.
pub open spec fn spec_ltv_check(m: Market, h: BorrowPositionHealth) -> LendingResult<()> {
    if h.ltv.bits > m.config.ltv_config.max_ltv.bits {
        Err(LendingError::MaxLtvReached)
    } else {
        Ok(())
    }
}

/// Result and new state of `withdraw_collateral`.
pub open spec fn spec_market_withdraw_collateral(
    m: Market,
    bp: BorrowPosition,
    atoms: u64,
    collateral_oracle: OracleRate,
    supply_oracle: OracleRate,
) -> (LendingResult<()>, Market, BorrowPosition) {
    match sweep_inactive(bp) {
        Err(e) => (Err(e), m, bp),
        Ok(_) => {
            let (r1, bp1) = spec_bp_withdraw_collateral(bp, atoms);
            match r1 {
                Err(e) => (Err(e), m, bp1),
                Ok(_) => if bp1.collateral_deposited_atoms == 0 && bp1.borrowed_shares.bits != 0 {
                    (Err(LendingError::MaxLtvReached), m, bp1)
                } else {
                    match spec_health(
                        m,
                        bp1,
                        bp1.collateral_deposited_atoms,
                        collateral_oracle,
                        supply_oracle,
                    ) {
                        Err(e) => (Err(e), m, bp1),
                        Ok(h) => {
                            let (r2, cv) = spec_cv_withdraw(m.collateral_vault, atoms);
                            let m1 = with_cv(m, cv);
                            match r2 {
                                Err(e) => (Err(e), m1, bp1),
                                Ok(_) => (spec_ltv_check(m, h), m1, bp1),
                            }
                        },
                    }
                },
            }
        },
    }
}

/// Result and new state of `borrow`.
pub open spec fn spec_market_borrow(
    m: Market,
    bp: BorrowPosition,
    borrow_atoms: u64,
    supply_oracle: OracleRate,
    collateral_oracle: OracleRate,
) -> (LendingResult<()>, Market, BorrowPosition) {
    match sweep_inactive(bp) {
        Err(e) => (Err(e), m, bp),
        Ok(_) => {
            let (r1, t) = spec_deposit_atoms(m.supply_vault.borrow_shares_tracker, borrow_atoms);
            let m1 = with_sv(m, with_borrow(m.supply_vault, t));
            match r1 {
                Err(e) => (Err(e), m1, bp),
                Ok(shares) => {
                    let (r2, bp1) = spec_bp_borrow(bp, borrow_atoms, shares);
                    match r2 {
                        Err(e) => (Err(e), m1, bp1),
                        Ok(_) => match spec_health(
                            m1,
                            bp1,
                            bp1.collateral_deposited_atoms,
                            collateral_oracle,
                            supply_oracle,
                        ) {
                            Err(e) => (Err(e), m1, bp1),
                            Ok(h) => match spec_ltv_check(m, h) {
                                Err(e) => (Err(e), m1, bp1),
                                Ok(_) => match spec_utilisation_rate(m1.supply_vault) {
                                    Err(e) => (Err(e), m1, bp1),
                                    Ok(ur) => if ur.bits > m.config.max_utilisation_rate.bits {
                                        (Err(LendingError::MaxUtilisationRateReached), m1, bp1)
                                    } else {
                                        (Ok(()), m1, bp1)
                                    },
                                },
                            },
                        },
                    }
                },
            }
        },
    }
}

/// Result and new state of `repay`.
pub open spec fn spec_market_repay(m: Market, bp: BorrowPosition, atoms: u64) -> (
    LendingResult<()>,
    Market,
    BorrowPosition,
) {
    match sweep_inactive(bp) {
        Err(e) => (Err(e), m, bp),
        Ok(_) => {
            let (r1, t) = spec_withdraw_atoms(m.supply_vault.borrow_shares_tracker, atoms);
            let m1 = with_sv(m, with_borrow(m.supply_vault, t));
            match r1 {
                Err(e) => (Err(e), m1, bp),
                Ok(shares) => {
                    let (r2, bp1) = spec_repay(bp, shares);
                    (r2, m1, bp1)
                },
            }
        },
    }
}

/// Result and new state of `repay_all`.
pub open spec fn spec_market_repay_all(m: Market, bp: BorrowPosition) -> (
    LendingResult<u64>,
    Market,
    BorrowPosition,
) {
    match sweep_inactive(bp) {
        Err(e) => (Err(e), m, bp),
        Ok(_) => {
            let (r1, t) = spec_withdraw_shares(
                m.supply_vault.borrow_shares_tracker,
                bp.borrowed_shares,
                RoundingMode::RoundUp,
            );
            let m1 = with_sv(m, with_borrow(m.supply_vault, t));
            match r1 {
                Err(e) => (Err(e), m1, bp),
                Ok(atoms) => (Ok(atoms), m1, spec_repay_all(bp)),
            }
        },
    }
}

/// Result and new state of `liquidate`: the debt actually repaid (capped
/// by the position's shares) scales the seized collateral, and the ltv may
/// not rise.
pub open spec fn spec_market_liquidate(
    m: Market,
    bp: BorrowPosition,
    collateral_oracle: OracleRate,
    supply_oracle: OracleRate,
    max_repay_atoms: u64,
) -> (LendingResult<LiquidationResultWithCtx>, Market, BorrowPosition) {
    match sweep_inactive(bp) {
        Err(e) => (Err(e), m, bp),
        Ok(_) => match spec_liquidation_for_collateral(
            m,
            bp,
            bp.collateral_deposited_atoms,
            collateral_oracle,
            supply_oracle,
            max_repay_atoms,
        ) {
            Err(e) => (Err(e), m, bp),
            Ok((hb, liq)) => {
                let (r1, t) = spec_withdraw_atoms_capped(
                    m.supply_vault.borrow_shares_tracker,
                    liq.borrowed_atoms_to_repay,
                    bp.borrowed_shares,
                    RoundingMode::RoundUp,
                );
                let m1 = with_sv(m, with_borrow(m.supply_vault, t));
                match r1 {
                    Err(e) => (Err(e), m1, bp),
                    Ok((atoms_repaid, shares_repaid)) => {
                        let liq2 = spec_adjust_with_bonus(liq, atoms_repaid);
                        match u64_res(
                            liq2.collateral_atoms_to_liquidate + liq2.collateral_atoms_liquidation_bonus,
                            LendingError::AdditionOverflow,
                        ) {
                            Err(e) => (Err(e), m1, bp),
                            Ok(seized) => {
                                let (r2, bp1) = spec_position_liquidate(bp, shares_repaid, seized);
                                match r2 {
                                    Err(e) => (Err(e), m1, bp1),
                                    Ok(_) => {
                                        let (r3, cv) = spec_cv_withdraw(m1.collateral_vault, seized);
                                        let m2 = with_cv(m1, cv);
                                        match r3 {
                                            Err(e) => (Err(e), m2, bp1),
                                            Ok(_) => match spec_health(
                                                m2,
                                                bp1,
                                                bp1.collateral_deposited_atoms,
                                                collateral_oracle,
                                                supply_oracle,
                                            ) {
                                                Err(e) => (Err(e), m2, bp1),
                                                Ok(ha) => if ha.ltv.bits > hb.ltv.bits {
                                                    (
                                                        Err(
                                                            LendingError::InvalidLiquidationLtvShouldDecrease,
                                                        ),
                                                        m2,
                                                        bp1,
                                                    )
                                                } else {
                                                    (
                                                        Ok(
                                                            LiquidationResultWithCtx {
                                                                liquidation_result_with_bonus: liq2,
                                                                health_before_liquidation: hb,
                                                                health_after_liquidation: ha,
                                                            },
                                                        ),
                                                        m2,
                                                        bp1,
                                                    )
                                                },
                                            },
                                        }
                                    },
                                }
                            },
                        }
                    },
                }
            },
        },
    }
}

/// Result and new state of `begin_capital_sweep`: only an unhealthy but
/// solvent position (ltv in `[unhealthy, 1)`) can be swept; its collateral
/// leaves the vault.
pub open spec fn spec_market_begin_capital_sweep(
    m: Market,
    bp: BorrowPosition,
    collateral_oracle: OracleRate,
    supply_oracle: OracleRate,
) -> (LendingResult<BorrowPositionHealth>, Market, BorrowPosition) {
    match sweep_inactive(bp) {
        Err(e) => (Err(e), m, bp),
        Ok(_) => match spec_health(
            m,
            bp,
            bp.collateral_deposited_atoms,
            collateral_oracle,
            supply_oracle,
        ) {
            Err(e) => (Err(e), m, bp),
            Ok(hb) => if hb.ltv.bits < m.config.ltv_config.unhealthy_ltv.bits {
                (Err(LendingError::PositionIsHealthy), m, bp)
            } else if hb.ltv.bits >= i_one() {
                (Err(LendingError::CapitalSweepPositionInsolvent), m, bp)
            } else {
                let bp1 = BorrowPosition {
                    collateral_deposited_atoms: 0,
                    swept_collateral_atoms: bp.collateral_deposited_atoms,
                    capital_sweep_pending: true,
                    ..bp
                };
                let (r, cv) = spec_cv_withdraw(m.collateral_vault, bp.collateral_deposited_atoms);
                match r {
                    Err(e) => (Err(e), with_cv(m, cv), bp1),
                    Ok(_) => (Ok(hb), with_cv(m, cv), bp1),
                }
            },
        },
    }
}

/// The collateral a settlement gives back: the swept collateral minus what
/// the liquidation seizes.
pub open spec fn spec_returned(swept: u64, liq: LiquidationResultWithBonus) -> LendingResult<u64> {
    match u64_res(
        liq.collateral_atoms_to_liquidate + liq.collateral_atoms_liquidation_bonus,
        LendingError::AdditionOverflow,
    ) {
        Err(e) => Err(e),
        Ok(total) => u64_res(swept - total, LendingError::SubtractionOverflow),
    }
}

/// Result and new state of `settle_capital_sweep`: the swept collateral is
/// liquidated as a normal position would be (nothing when it is healthy
/// again), the rest comes back to the position, and at most
/// `max_collateral_atoms_to_return` may come back.
pub open spec fn spec_market_settle_capital_sweep(
    m: Market,
    bp: BorrowPosition,
    collateral_oracle: OracleRate,
    supply_oracle: OracleRate,
    max_repay_atoms: u64,
    max_collateral_atoms_to_return: u64,
) -> (LendingResult<CapitalSweepSettlementResult>, Market, BorrowPosition) {
    if !bp.capital_sweep_pending {
        (Err(LendingError::NoCapitalSweepPending), m, bp)
    } else {
        let swept = bp.swept_collateral_atoms;
        match spec_health(m, bp, swept, collateral_oracle, supply_oracle) {
            Err(e) => (Err(e), m, bp),
            Ok(hb) => {
                let liq_res: LendingResult<LiquidationResultWithBonus> = if hb.ltv.bits
                    < m.config.ltv_config.unhealthy_ltv.bits {
                    Ok(spec_no_liquidation())
                } else {
                    match spec_liquidation_for_collateral(
                        m,
                        bp,
                        swept,
                        collateral_oracle,
                        supply_oracle,
                        max_repay_atoms,
                    ) {
                        Err(e) => Err(e),
                        Ok((_, l)) => Ok(l),
                    }
                };
                match liq_res {
                    Err(e) => (Err(e), m, bp),
                    Ok(liq) => match spec_returned(swept, liq) {
                        Err(e) => (Err(e), m, bp),
                        Ok(returned) => if returned > max_collateral_atoms_to_return {
                            (Err(LendingError::CapitalSweepDidNotMeetRequirements), m, bp)
                        } else {
                            spec_settle_tail(
                                m,
                                bp,
                                collateral_oracle,
                                supply_oracle,
                                max_collateral_atoms_to_return,
                                hb,
                                liq,
                            )
                        },
                    },
                }
            },
        }
    }
}

/// The part of a settlement after the first collateral-return check.
pub open spec fn spec_settle_tail(
    m: Market,
    bp: BorrowPosition,
    collateral_oracle: OracleRate,
    supply_oracle: OracleRate,
    max_collateral_atoms_to_return: u64,
    hb: BorrowPositionHealth,
    liq: LiquidationResultWithBonus,
) -> (LendingResult<CapitalSweepSettlementResult>, Market, BorrowPosition) {
    let swept = bp.swept_collateral_atoms;
    let (r1, t) = spec_withdraw_atoms_capped(
        m.supply_vault.borrow_shares_tracker,
        liq.borrowed_atoms_to_repay,
        bp.borrowed_shares,
        RoundingMode::RoundUp,
    );
    let m1 = with_sv(m, with_borrow(m.supply_vault, t));
    match r1 {
        Err(e) => (Err(e), m1, bp),
        Ok((atoms_repaid, shares_repaid)) => {
            let liq2 = spec_adjust_with_bonus(liq, atoms_repaid);
            match spec_returned(swept, liq2) {
                Err(e) => (Err(e), m1, bp),
                Ok(returned) => if returned > max_collateral_atoms_to_return {
                    (Err(LendingError::CapitalSweepDidNotMeetRequirements), m1, bp)
                } else {
                    let (r2, bp1) = spec_position_settle_capital_sweep(bp, shares_repaid, returned);
                    match r2 {
                        Err(e) => (Err(e), m1, bp1),
                        Ok(_) => {
                            let (r3, cv) = spec_cv_deposit(m1.collateral_vault, returned);
                            let m2 = with_cv(m1, cv);
                            match r3 {
                                Err(e) => (Err(e), m2, bp1),
                                Ok(_) => match spec_health(
                                    m2,
                                    bp1,
                                    bp1.collateral_deposited_atoms,
                                    collateral_oracle,
                                    supply_oracle,
                                ) {
                                    Err(e) => (Err(e), m2, bp1),
                                    Ok(ha) => if ha.ltv.bits > hb.ltv.bits {
                                        (
                                            Err(LendingError::InvalidLiquidationLtvShouldDecrease),
                                            m2,
                                            bp1,
                                        )
                                    } else {
                                        (
                                            Ok(
                                                CapitalSweepSettlementResult {
                                                    liquidation_result_with_bonus: liq2,
                                                    health_before_settlement: hb,
                                                    health_after_settlement: ha,
                                                    collateral_atoms_returned: returned,
                                                },
                                            ),
                                            m2,
                                            bp1,
                                        )
                                    },
                                },
                            }
                        },
                    }
                },
            }
        },
    }
}

/// Result and new state of `socialize_loss`: only for an insolvent position
/// (ltv at least one); its debt is charged to the suppliers and its
/// collateral leaves the vault.
pub open spec fn spec_market_socialize_loss(
    m: Market,
    bp: BorrowPosition,
    collateral_oracle: OracleRate,
    supply_oracle: OracleRate,
) -> (LendingResult<(u64, u64)>, Market, BorrowPosition) {
    match sweep_inactive(bp) {
        Err(e) => (Err(e), m, bp),
        Ok(_) => match spec_health(
            m,
            bp,
            bp.collateral_deposited_atoms,
            collateral_oracle,
            supply_oracle,
        ) {
            Err(e) => (Err(e), m, bp),
            Ok(h) => if h.ltv.bits < i_one() {
                (Err(LendingError::CannotSocializeDebtForHealthyPosition), m, bp)
            } else {
                let (r1, sv1) = spec_vault_socialize_loss(m.supply_vault, bp.borrowed_shares);
                let m1 = with_sv(m, sv1);
                match r1 {
                    Err(e) => (Err(e), m1, bp),
                    Ok(debt) => {
                        let c = bp.collateral_deposited_atoms;
                        let bp1 = BorrowPosition {
                            collateral_deposited_atoms: 0,
                            ..spec_repay_all(bp)
                        };
                        let (r2, cv) = spec_cv_withdraw(m1.collateral_vault, c);
                        let m2 = with_cv(m1, cv);
                        match r2 {
                            Err(e) => (Err(e), m2, bp1),
                            Ok(_) => (Ok((debt, c)), m2, bp1),
                        }
                    },
                }
            },
        },
    }
}

/// Result and new state of redeeming fees already taken out of `sv1`.
pub open spec fn spec_market_redeem(m: Market, redeemed: (LendingResult<u64>, SupplyVault)) -> (
    LendingResult<u64>,
    Market,
) {
    let (r1, sv1) = redeemed;
    let m1 = with_sv(m, sv1);
    match r1 {
        Err(e) => (Err(e), m1),
        Ok(atoms) => match spec_reserves_check(sv1) {
            Err(e) => (Err(e), m1),
            Ok(_) => (Ok(atoms), m1),
        },
    }
}

impl Market {
    pub fn supply_token_info(&self) -> (r: TokenInfo)
        requires
            self.wf(),
        ensures
            r.mint == self.supply_vault.mint,
            r.decimals == self.supply_vault.mint_decimals,
    {
        TokenInfo { mint: *self.supply_vault.mint(), decimals: self.supply_vault.mint_decimals() }
    }

    pub fn collateral_token_info(&self) -> (r: TokenInfo)
        requires
            self.wf(),
        ensures
            r.mint == self.collateral_vault.mint,
            r.decimals == self.collateral_vault.mint_decimals,
    {
        TokenInfo {
            mint: *self.collateral_vault.mint(),
            decimals: self.collateral_vault.mint_decimals(),
        }
    }

    pub fn supply_vault(&self) -> (r: &SupplyVault)
        ensures
            *r == self.supply_vault,
    {
        &self.supply_vault
    }

    pub fn collateral_vault(&self) -> (r: &CollateralVault)
        ensures
            *r == self.collateral_vault,
    {
        &self.collateral_vault
    }

    pub fn config(&self) -> (r: &MarketConfig)
        ensures
            *r == self.config,
    {
        &self.config
    }

    /// Sets the supply oracle; refused with `InvalidOracleConfig` (and
    /// nothing changes) when the configuration is invalid.
    pub fn set_supply_oracle_config(&mut self, oracle_config: OracleConfig) -> (r: LendingResult<()>)
        ensures
            !oracle_config.spec_is_valid() ==> r == Err::<(), LendingError>(
                LendingError::InvalidOracleConfig,
            ) && *final(self) == *old(self),
            oracle_config.spec_is_valid() ==> r is Ok && *final(self) == with_sv(
                *old(self),
                SupplyVault { oracle_config, ..old(self).supply_vault },
            ),
    {
        match oracle_config.validate() {
            Ok(_) => {},
            Err(e) => return Err(e),
        }
        self.supply_vault.set_oracle_config(oracle_config);
        Ok(())
    }

    /// Sets the collateral oracle; refused with `InvalidOracleConfig` (and
    /// nothing changes) when the configuration is invalid.
    pub fn set_collateral_oracle_config(&mut self, oracle_config: OracleConfig) -> (r: LendingResult<()>)
        ensures
            !oracle_config.spec_is_valid() ==> r == Err::<(), LendingError>(
                LendingError::InvalidOracleConfig,
            ) && *final(self) == *old(self),
            oracle_config.spec_is_valid() ==> r is Ok && *final(self) == with_cv(
                *old(self),
                CollateralVault { oracle_config, ..old(self).collateral_vault },
            ),
    {
        match oracle_config.validate() {
            Ok(_) => {},
            Err(e) => return Err(e),
        }
        self.collateral_vault.set_oracle_config(oracle_config);
        Ok(())
    }

    /// The health of `borrow_position` at the given prices, see
    /// `spec_health`.
    pub fn borrow_position_health(
        &self,
        borrow_position: &BorrowPosition,
        collateral_oracle: &OracleRate,
        supply_oracle: &OracleRate,
    ) -> (r: LendingResult<BorrowPositionHealth>)
        requires
            self.wf(),
        ensures
            r == spec_health(
                *self,
                *borrow_position,
                borrow_position.collateral_deposited_atoms,
                *collateral_oracle,
                *supply_oracle,
            ),
    {
        self.borrow_position_health_with_collateral_atoms(
            borrow_position,
            borrow_position.collateral_deposited_atoms(),
            collateral_oracle,
            supply_oracle,
        )
    }

    /// The health of `borrow_position` counting `collateral_atoms`.
    pub fn borrow_position_health_with_collateral_atoms(
        &self,
        borrow_position: &BorrowPosition,
        collateral_atoms: u64,
        collateral_oracle: &OracleRate,
        supply_oracle: &OracleRate,
    ) -> (r: LendingResult<BorrowPositionHealth>)
        requires
            self.wf(),
        ensures
            r == spec_health(
                *self,
                *borrow_position,
                collateral_atoms,
                *collateral_oracle,
                *supply_oracle,
            ),
    {
        let borrowed_atoms = match self.supply_vault.borrow_shares_to_atoms(
            borrow_position.borrowed_shares(),
        ) {
            Ok(v) => v,
            Err(e) => return Err(e),
        };
        let borrow_value = match supply_oracle.borrow_value(
            borrowed_atoms,
            self.supply_vault.mint_decimals(),
        ) {
            Ok(v) => v,
            Err(e) => return Err(e),
        };
        let collateral_value = match collateral_oracle.collateral_value(
            collateral_atoms,
            self.collateral_vault.mint_decimals(),
        ) {
            Ok(v) => v,
            Err(e) => return Err(e),
        };
        let ltv = if borrow_value.is_zero() {
            IFixedPoint::zero()
        } else if collateral_value.is_zero() {
            IFixedPoint::max_value()
        } else {
            match borrow_value.safe_div(collateral_value) {
                Ok(v) => v,
                Err(e) => return Err(e),
            }
        };
        Ok(
            BorrowPositionHealth {
                ltv,
                collateral_atoms,
                borrowed_atoms,
                borrow_value,
                collateral_value,
            },
        )
    }

    /// The atoms the shares of `supply_position` are worth, rounded down.
    pub fn supply_position_info(&self, supply_position: &SupplyPosition) -> (r: LendingResult<u64>)
        ensures
            r == spec_shares_to_atoms(
                self.supply_vault.supply_shares_tracker,
                supply_position.shares,
                RoundingMode::RoundDown,
            ),
    {
        self.supply_vault.supply_shares_tracker().shares_to_atoms(
            supply_position.shares(),
            RoundingMode::RoundDown,
        )
    }

    /// Refuses an ltv above the max ltv with `MaxLtvReached`.
    pub fn position_checks_on_ltv_increase(&self, position: &BorrowPositionHealth) -> (r:
        LendingResult<()>)
        ensures
            r == spec_ltv_check(*self, *position),
    {
        if position.ltv.bits > self.config.ltv_config.max_ltv.bits {
            return Err(LendingError::MaxLtvReached);
        }
        Ok(())
    }

    /// Sets up the collateral vault, see `CollateralVault::initialize`.
    pub fn initialize_collateral_vault(
        &mut self,
        mint: Pubkey,
        mint_decimals: u64,
        vault: Pubkey,
        oracle_config: OracleConfig,
    ) -> (r: LendingResult<()>)
        ensures
            mint_decimals > 18 ==> r == Err::<(), LendingError>(LendingError::UnsupportedMintDecimals)
                && *final(self) == *old(self),
            mint_decimals <= 18 ==> r is Ok && *final(self) == with_cv(
                *old(self),
                CollateralVault { mint, mint_decimals, vault, oracle_config, ..old(self).collateral_vault },
            ),
    {
        self.collateral_vault.initialize(mint, mint_decimals, vault, oracle_config)
    }

    /// Sets up the supply vault, see `SupplyVault::initialize`.
    pub fn initlize_supply_vault(
        &mut self,
        mint: Pubkey,
        mint_decimals: u64,
        vault: Pubkey,
        oracle_config: OracleConfig,
        interest_rate: InterestRateCurveKind,
        timestamp: i64,
    ) -> (r: LendingResult<()>)
        ensures
            r is Err ==> *final(self) == *old(self),
            r is Ok ==> final(self).supply_vault.wf() && final(self).config == old(self).config
                && final(self).collateral_vault == old(self).collateral_vault
                && final(self).supply_vault.mint == mint && final(self).supply_vault.mint_decimals
                == mint_decimals && final(self).supply_vault.interest_rate_curve == interest_rate
                && final(self).supply_vault.last_update_unix_timestamp == timestamp
                && final(self).supply_vault.supply_shares_tracker.total_shares.bits == 0
                && final(self).supply_vault.borrow_shares_tracker.total_shares.bits == 0,
            r is Ok <==> (mint_decimals <= 18 && crate::interest_rate::interest_rate_kind::spec_curve_is_valid(interest_rate)
                && oracle_config.spec_is_valid()),
    {
        self.supply_vault.initialize(
            mint,
            mint_decimals,
            vault,
            oracle_config,
            interest_rate,
            timestamp,
        )
    }

    pub fn config_mut(&mut self) -> (r: &mut MarketConfig)
        ensures
            *r == old(self).config,
            *final(self) == (Market { config: *final(r), ..*old(self) }),
    {
        &mut self.config
    }

    /// Accrues interest up to `unix_timestamp` with the market's fee and the
    /// protocol's share of it.
    pub fn sync_clock(&mut self, unix_timestamp: i64) -> (r: LendingResult<()>)
        requires
            old(self).wf(),
        ensures
            ({
                let (r2, sv) = spec_sync_clock(
                    old(self).supply_vault,
                    unix_timestamp,
                    ufp((old(self).config.lending_market_fee_in_bps * u_one()) / 10_000),
                    old(self).config.protocol_fee_share_in_bps,
                );
                r == r2 && *final(self) == with_sv(*old(self), sv)
            }),
            final(self).wf(),
    {
        let fee = self.config.lending_market_fee_fixed();
        let share = self.config.protocol_fee_in_bps();
        self.supply_vault.sync_clock(unix_timestamp, fee, share)
    }

    /// Redeems the protocol fees; refused when the market would lack the
    /// reserves.
    pub fn redeem_protocol_fees(&mut self) -> (r: LendingResult<u64>)
        ensures
            (r, *final(self)) == spec_market_redeem(
                *old(self),
                spec_redeem(
                    SupplyVault { pending_protocol_fee_shares: ufp(0), ..old(self).supply_vault },
                    old(self).supply_vault.pending_protocol_fee_shares,
                ),
            ),
            final(self).wf() == old(self).wf(),
    {
        let atoms = match self.supply_vault.redeem_protocol_fees() {
            Ok(v) => v,
            Err(e) => return Err(e),
        };
        self.reserves_check(atoms)
    }

    /// Redeems the curator fees; refused when the market would lack the
    /// reserves.
    pub fn redeem_curator_fess(&mut self) -> (r: LendingResult<u64>)
        ensures
            (r, *final(self)) == spec_market_redeem(
                *old(self),
                spec_redeem(
                    SupplyVault { pending_curator_fee_shares: ufp(0), ..old(self).supply_vault },
                    old(self).supply_vault.pending_curator_fee_shares,
                ),
            ),
            final(self).wf() == old(self).wf(),
    {
        let atoms = match self.supply_vault.redeem_curator_fees() {
            Ok(v) => v,
            Err(e) => return Err(e),
        };
        self.reserves_check(atoms)
    }

    fn reserves_check(&self, atoms: u64) -> (r: LendingResult<u64>)
        ensures
            r == (match spec_reserves_check(self.supply_vault) {
                Ok(_) => Ok::<u64, LendingError>(atoms),
                Err(e) => Err(e),
            }),
    {
        let ur = match self.supply_vault.utilisation_rate() {
            Ok(v) => v,
            Err(e) => return Err(e),
        };
        if ur.bits > IFixedPoint::one().bits {
            return Err(LendingError::WithdrawalExceedsReserves);
        }
        Ok(atoms)
    }

    /// Gives `atoms` to the suppliers.
    pub fn donate_supply_atoms(&mut self, atoms: u64) -> (r: LendingResult<()>)
        ensures
            ({
                let (r2, t) = crate::math::shares_tracker::spec_donate_atoms(
                    old(self).supply_vault.supply_shares_tracker,
                    atoms,
                );
                r == r2 && *final(self) == with_sv(*old(self), with_supply(old(self).supply_vault, t))
            }),
    {
        self.supply_vault.donate_supply(atoms)
    }

    /// Supplies `atoms`; refused when the supply would exceed the market's
    /// max supply.
    pub fn lend(&mut self, supply_position: &mut SupplyPosition, atoms: u64) -> (r: LendingResult<()>)
        ensures
            (r, *final(self), *final(supply_position)) == spec_market_lend(
                *old(self),
                *old(supply_position),
                atoms,
            ),
    {
        let shares = match self.supply_vault.lend(atoms) {
            Ok(v) => v,
            Err(e) => return Err(e),
        };
        match supply_position.lend(atoms, shares) {
            Ok(_) => {},
            Err(e) => return Err(e),
        }
        let total = match self.supply_vault.total_supply() {
            Ok(v) => v,
            Err(e) => return Err(e),
        };
        if total > self.config.max_supply_atoms() {
            return Err(LendingError::MaxSupplyReached);
        }
        Ok(())
    }

    /// Withdraws `atoms` of supply; refused when the market would lack the
    /// reserves or the position the shares.
    pub fn withdraw(&mut self, supply_position: &mut SupplyPosition, atoms: u64) -> (r: LendingResult<()>)
        ensures
            (r, *final(self), *final(supply_position)) == spec_market_withdraw(
                *old(self),
                *old(supply_position),
                atoms,
            ),
    {
        let shares = match self.supply_vault.withdraw_atoms(atoms) {
            Ok(v) => v,
            Err(e) => return Err(e),
        };
        let ur = match self.supply_vault.utilisation_rate() {
            Ok(v) => v,
            Err(e) => return Err(e),
        };
        if ur.bits > IFixedPoint::one().bits {
            return Err(LendingError::WithdrawalExceedsReserves);
        }
        supply_position.withdraw(shares)
    }

    /// Withdraws all the position's supply and returns the atoms.
    pub fn withdraw_all(&mut self, supply_position: &mut SupplyPosition) -> (r: LendingResult<u64>)
        ensures
            (r, *final(self), *final(supply_position)) == spec_market_withdraw_all(
                *old(self),
                *old(supply_position),
            ),
    {
        let atoms = match self.supply_vault.withdraw_shares(supply_position.shares()) {
            Ok(v) => v,
            Err(e) => return Err(e),
        };
        let ur = match self.supply_vault.utilisation_rate() {
            Ok(v) => v,
            Err(e) => return Err(e),
        };
        if ur.bits > IFixedPoint::one().bits {
            return Err(LendingError::WithdrawalExceedsReserves);
        }
        supply_position.withdraw_all();
        Ok(atoms)
    }

    /// Deposits collateral into the position and the vault.
    pub fn deposit_collateral(&mut self, borrow_position: &mut BorrowPosition, atoms: u64) -> (r:
        LendingResult<()>)
        ensures
            (r, *final(self), *final(borrow_position)) == spec_market_deposit_collateral(
                *old(self),
                *old(borrow_position),
                atoms,
            ),
    {
        match borrow_position.ensure_capital_sweep_inactive() {
            Ok(_) => {},
            Err(e) => return Err(e),
        }
        match borrow_position.deposit_collateral(atoms) {
            Ok(_) => {},
            Err(e) => return Err(e),
        }
        self.collateral_vault.deposit_collateral(atoms)
    }

    /// Withdraws collateral; refused when the position's ltv would exceed
    /// the max ltv (or debt would be left without collateral).
    pub fn withdraw_collateral(
        &mut self,
        borrow_position: &mut BorrowPosition,
        atoms: u64,
        collateral_oracle: &OracleRate,
        supply_oracle: &OracleRate,
    ) -> (r: LendingResult<()>)
        requires
            old(self).wf(),
        ensures
            (r, *final(self), *final(borrow_position)) == spec_market_withdraw_collateral(
                *old(self),
                *old(borrow_position),
                atoms,
                *collateral_oracle,
                *supply_oracle,
            ),
    {
        match borrow_position.ensure_capital_sweep_inactive() {
            Ok(_) => {},
            Err(e) => return Err(e),
        }
        match borrow_position.withdraw_collateral(atoms) {
            Ok(_) => {},
            Err(e) => return Err(e),
        }
        if borrow_position.collateral_deposited_atoms() == 0
            && !borrow_position.borrowed_shares().is_zero() {
            return Err(LendingError::MaxLtvReached);
        }
        let health = match self.borrow_position_health(
            borrow_position,
            collateral_oracle,
            supply_oracle,
        ) {
            Ok(v) => v,
            Err(e) => return Err(e),
        };
        match self.collateral_vault.withdraw_collateral(atoms) {
            Ok(_) => {},
            Err(e) => return Err(e),
        }
        self.position_checks_on_ltv_increase(&health)
    }

    /// Borrows `borrow_atoms`; refused when the position's ltv would exceed
    /// the max ltv or the vault's utilisation its max.
    pub fn borrow(
        &mut self,
        borrow_position: &mut BorrowPosition,
        borrow_atoms: u64,
        supply_oracle: &OracleRate,
        collateral_oracle: &OracleRate,
    ) -> (r: LendingResult<()>)
        requires
            old(self).wf(),
        ensures
            (r, *final(self), *final(borrow_position)) == spec_market_borrow(
                *old(self),
                *old(borrow_position),
                borrow_atoms,
                *supply_oracle,
                *collateral_oracle,
            ),
    {
        match borrow_position.ensure_capital_sweep_inactive() {
            Ok(_) => {},
            Err(e) => return Err(e),
        }
        let shares = match self.supply_vault.borrow(borrow_atoms) {
            Ok(v) => v,
            Err(e) => return Err(e),
        };
        match borrow_position.borrow(borrow_atoms, shares) {
            Ok(_) => {},
            Err(e) => return Err(e),
        }
        let health = match self.borrow_position_health(
            borrow_position,
            collateral_oracle,
            supply_oracle,
        ) {
            Ok(v) => v,
            Err(e) => return Err(e),
        };
        match self.position_checks_on_ltv_increase(&health) {
            Ok(_) => {},
            Err(e) => return Err(e),
        }
        let ur = match self.supply_vault.utilisation_rate() {
            Ok(v) => v,
            Err(e) => return Err(e),
        };
        if ur.bits > self.config.max_utilisation_rate().bits {
            return Err(LendingError::MaxUtilisationRateReached);
        }
        Ok(())
    }

    /// Repays `atoms` of debt.
    pub fn repay(&mut self, borrow_position: &mut BorrowPosition, atoms: u64) -> (r: LendingResult<()>)
        ensures
            (r, *final(self), *final(borrow_position)) == spec_market_repay(
                *old(self),
                *old(borrow_position),
                atoms,
            ),
    {
        match borrow_position.ensure_capital_sweep_inactive() {
            Ok(_) => {},
            Err(e) => return Err(e),
        }
        let shares = match self.supply_vault.repay_atoms(atoms) {
            Ok(v) => v,
            Err(e) => return Err(e),
        };
        borrow_position.repay(shares)
    }

    /// Repays all the debt and returns the atoms owed (rounded up).
    pub fn repay_all(&mut self, borrow_position: &mut BorrowPosition) -> (r: LendingResult<u64>)
        ensures
            (r, *final(self), *final(borrow_position)) == spec_market_repay_all(
                *old(self),
                *old(borrow_position),
            ),
    {
        match borrow_position.ensure_capital_sweep_inactive() {
            Ok(_) => {},
            Err(e) => return Err(e),
        }
        let atoms = match self.supply_vault.repay_shares(borrow_position.borrowed_shares()) {
            Ok(v) => v,
            Err(e) => return Err(e),
        };
        borrow_position.repay_all();
        Ok(atoms)
    }

    /// Liquidates an unhealthy position, see `spec_market_liquidate`.
    pub fn liquidate(
        &mut self,
        borrow_position: &mut BorrowPosition,
        collateral_oracle: &OracleRate,
        supply_oracle: &OracleRate,
        max_repay_atoms: u64,
    ) -> (r: LendingResult<LiquidationResultWithCtx>)
        requires
            old(self).wf(),
        ensures
            (r, *final(self), *final(borrow_position)) == spec_market_liquidate(
                *old(self),
                *old(borrow_position),
                *collateral_oracle,
                *supply_oracle,
                max_repay_atoms,
            ),
            r matches Ok(ctx) ==> ctx.health_after_liquidation.ltv.bits
                <= ctx.health_before_liquidation.ltv.bits,
    {
        match borrow_position.ensure_capital_sweep_inactive() {
            Ok(_) => {},
            Err(e) => return Err(e),
        }
        let (health_before, liquidation) = match self.compute_liquidation_result_with_fee_for_collateral(
            borrow_position,
            borrow_position.collateral_deposited_atoms(),
            collateral_oracle,
            supply_oracle,
            max_repay_atoms,
        ) {
            Ok(v) => v,
            Err(e) => return Err(e),
        };
        let mut liquidation = liquidation;
        let (atoms_repaid, shares_repaid) = match self.supply_vault.repay_atoms_capped(
            liquidation.borrowed_atoms_to_repay,
            borrow_position.borrowed_shares(),
        ) {
            Ok(v) => v,
            Err(e) => return Err(e),
        };
        liquidation.adjust_for_max_repay(atoms_repaid);
        let collateral_seized = match liquidation.total_collateral_atoms_to_liquidate() {
            Ok(v) => v,
            Err(e) => return Err(e),
        };
        match borrow_position.liquidate(shares_repaid, collateral_seized) {
            Ok(_) => {},
            Err(e) => return Err(e),
        }
        match self.collateral_vault.withdraw_collateral(collateral_seized) {
            Ok(_) => {},
            Err(e) => return Err(e),
        }
        let health_after = match self.borrow_position_health(
            borrow_position,
            collateral_oracle,
            supply_oracle,
        ) {
            Ok(v) => v,
            Err(e) => return Err(e),
        };
        if health_after.ltv.bits > health_before.ltv.bits {
            return Err(LendingError::InvalidLiquidationLtvShouldDecrease);
        }
        Ok(
            LiquidationResultWithCtx {
                liquidation_result_with_bonus: liquidation,
                health_before_liquidation: health_before,
                health_after_liquidation: health_after,
            },
        )
    }

    /// The health and liquidation of a position, without changing anything.
    pub fn compute_liquidation_result_with_fee(
        &self,
        borrow_position: &BorrowPosition,
        collateral_oracle: &OracleRate,
        supply_oracle: &OracleRate,
        max_repay_atoms: u64,
    ) -> (r: LendingResult<(BorrowPositionHealth, LiquidationResultWithBonus)>)
        requires
            self.wf(),
        ensures
            r == (match sweep_inactive(*borrow_position) {
                Err(e) => Err(e),
                Ok(_) => spec_liquidation_for_collateral(
                    *self,
                    *borrow_position,
                    borrow_position.collateral_deposited_atoms,
                    *collateral_oracle,
                    *supply_oracle,
                    max_repay_atoms,
                ),
            }),
    {
        match borrow_position.ensure_capital_sweep_inactive() {
            Ok(_) => {},
            Err(e) => return Err(e),
        }
        self.compute_liquidation_result_with_fee_for_collateral(
            borrow_position,
            borrow_position.collateral_deposited_atoms(),
            collateral_oracle,
            supply_oracle,
            max_repay_atoms,
        )
    }

    fn compute_liquidation_result_with_fee_for_collateral(
        &self,
        borrow_position: &BorrowPosition,
        collateral_atoms: u64,
        collateral_oracle: &OracleRate,
        supply_oracle: &OracleRate,
        max_repay_atoms: u64,
    ) -> (r: LendingResult<(BorrowPositionHealth, LiquidationResultWithBonus)>)
        requires
            self.wf(),
        ensures
            r == spec_liquidation_for_collateral(
                *self,
                *borrow_position,
                collateral_atoms,
                *collateral_oracle,
                *supply_oracle,
                max_repay_atoms,
            ),
    {
        let health_before = match self.borrow_position_health_with_collateral_atoms(
            borrow_position,
            collateral_atoms,
            collateral_oracle,
            supply_oracle,
        ) {
            Ok(v) => v,
            Err(e) => return Err(e),
        };
        if health_before.ltv.bits < self.config.ltv_config().unhealthy_ltv.bits {
            return Err(LendingError::PositionIsHealthy);
        }
        let liquidation = if health_before.ltv.bits >= IFixedPoint::one().bits {
            let mut liquidation = LiquidationResultWithBonus {
                borrowed_atoms_to_repay: health_before.borrowed_atoms,
                collateral_atoms_to_liquidate: health_before.collateral_atoms,
                collateral_atoms_liquidation_bonus: 0,
            };
            liquidation.adjust_for_max_repay(max_repay_atoms);
            liquidation
        } else {
            match compute_liquidation_with_fee(
                health_before.borrowed_atoms,
                self.supply_vault.mint_decimals(),
                supply_oracle,
                collateral_atoms,
                self.collateral_vault.mint_decimals(),
                collateral_oracle,
                self.config.ltv_config().target_ltv_after_liquidation(),
                self.config.ltv_config().liquidation_bonus,
                max_repay_atoms,
            ) {
                Ok(v) => v,
                Err(e) => return Err(e),
            }
        };
        Ok((health_before, liquidation))
    }

    /// Starts a capital sweep of an unhealthy but solvent position, see
    /// `spec_market_begin_capital_sweep`.
    pub fn begin_capital_sweep(
        &mut self,
        borrow_position: &mut BorrowPosition,
        collateral_oracle: &OracleRate,
        supply_oracle: &OracleRate,
    ) -> (r: LendingResult<BorrowPositionHealth>)
        requires
            old(self).wf(),
        ensures
            (r, *final(self), *final(borrow_position)) == spec_market_begin_capital_sweep(
                *old(self),
                *old(borrow_position),
                *collateral_oracle,
                *supply_oracle,
            ),
    {
        match borrow_position.ensure_capital_sweep_inactive() {
            Ok(_) => {},
            Err(e) => return Err(e),
        }
        let health_before = match self.borrow_position_health(
            borrow_position,
            collateral_oracle,
            supply_oracle,
        ) {
            Ok(v) => v,
            Err(e) => return Err(e),
        };
        if health_before.ltv.bits < self.config.ltv_config().unhealthy_ltv.bits {
            return Err(LendingError::PositionIsHealthy);
        }
        if health_before.ltv.bits >= IFixedPoint::one().bits {
            return Err(LendingError::CapitalSweepPositionInsolvent);
        }
        let swept_collateral_atoms = match borrow_position.begin_capital_sweep() {
            Ok(v) => v,
            Err(e) => return Err(e),
        };
        match self.collateral_vault.withdraw_collateral(swept_collateral_atoms) {
            Ok(_) => {},
            Err(e) => return Err(e),
        }
        Ok(health_before)
    }

    /// Settles a capital sweep, see `spec_market_settle_capital_sweep`.
    pub fn settle_capital_sweep(
        &mut self,
        borrow_position: &mut BorrowPosition,
        collateral_oracle: &OracleRate,
        supply_oracle: &OracleRate,
        max_repay_atoms: u64,
        max_collateral_atoms_to_return: u64,
    ) -> (r: LendingResult<CapitalSweepSettlementResult>)
        requires
            old(self).wf(),
        ensures
            (r, *final(self), *final(borrow_position)) == spec_market_settle_capital_sweep(
                *old(self),
                *old(borrow_position),
                *collateral_oracle,
                *supply_oracle,
                max_repay_atoms,
                max_collateral_atoms_to_return,
            ),
            r matches Ok(s) ==> s.collateral_atoms_returned <= max_collateral_atoms_to_return,
    {
        if !borrow_position.capital_sweep_pending() {
            return Err(LendingError::NoCapitalSweepPending);
        }
        let swept_collateral_atoms = borrow_position.swept_collateral_atoms();
        let health_before = match self.borrow_position_health_with_collateral_atoms(
            borrow_position,
            swept_collateral_atoms,
            collateral_oracle,
            supply_oracle,
        ) {
            Ok(v) => v,
            Err(e) => return Err(e),
        };
        let mut liquidation = if health_before.ltv.bits
            < self.config.ltv_config().unhealthy_ltv.bits {
            LiquidationResultWithBonus {
                borrowed_atoms_to_repay: 0,
                collateral_atoms_to_liquidate: 0,
                collateral_atoms_liquidation_bonus: 0,
            }
        } else {
            match self.compute_liquidation_result_with_fee_for_collateral(
                borrow_position,
                swept_collateral_atoms,
                collateral_oracle,
                supply_oracle,
                max_repay_atoms,
            ) {
                Ok(v) => v.1,
                Err(e) => return Err(e),
            }
        };
        let total = match liquidation.total_collateral_atoms_to_liquidate() {
            Ok(v) => v,
            Err(e) => return Err(e),
        };
        let collateral_atoms_returned = match swept_collateral_atoms.safe_sub(total) {
            Ok(v) => v,
            Err(e) => return Err(e),
        };
        if collateral_atoms_returned > max_collateral_atoms_to_return {
            return Err(LendingError::CapitalSweepDidNotMeetRequirements);
        }
        let (atoms_repaid, shares_repaid) = match self.supply_vault.repay_atoms_capped(
            liquidation.borrowed_atoms_to_repay,
            borrow_position.borrowed_shares(),
        ) {
            Ok(v) => v,
            Err(e) => return Err(e),
        };
        liquidation.adjust_for_max_repay(atoms_repaid);
        let total2 = match liquidation.total_collateral_atoms_to_liquidate() {
            Ok(v) => v,
            Err(e) => return Err(e),
        };
        let adjusted_collateral_atoms_returned = match swept_collateral_atoms.safe_sub(total2) {
            Ok(v) => v,
            Err(e) => return Err(e),
        };
        if adjusted_collateral_atoms_returned > max_collateral_atoms_to_return {
            return Err(LendingError::CapitalSweepDidNotMeetRequirements);
        }
        match borrow_position.settle_capital_sweep(shares_repaid, adjusted_collateral_atoms_returned) {
            Ok(_) => {},
            Err(e) => return Err(e),
        }
        match self.collateral_vault.deposit_collateral(adjusted_collateral_atoms_returned) {
            Ok(_) => {},
            Err(e) => return Err(e),
        }
        let health_after = match self.borrow_position_health(
            borrow_position,
            collateral_oracle,
            supply_oracle,
        ) {
            Ok(v) => v,
            Err(e) => return Err(e),
        };
        if health_after.ltv.bits > health_before.ltv.bits {
            return Err(LendingError::InvalidLiquidationLtvShouldDecrease);
        }
        Ok(
            CapitalSweepSettlementResult {
                liquidation_result_with_bonus: liquidation,
                health_before_settlement: health_before,
                health_after_settlement: health_after,
                collateral_atoms_returned: adjusted_collateral_atoms_returned,
            },
        )
    }

    /// Charges the debt of an insolvent position to the suppliers, see
    /// `spec_market_socialize_loss`; returns the debt and the collateral.
    pub fn socialize_loss(
        &mut self,
        borrow_position: &mut BorrowPosition,
        collateral_oracle: &OracleRate,
        supply_oracle: &OracleRate,
    ) -> (r: LendingResult<(u64, u64)>)
        requires
            old(self).wf(),
        ensures
            (r, *final(self), *final(borrow_position)) == spec_market_socialize_loss(
                *old(self),
                *old(borrow_position),
                *collateral_oracle,
                *supply_oracle,
            ),
    {
        match borrow_position.ensure_capital_sweep_inactive() {
            Ok(_) => {},
            Err(e) => return Err(e),
        }
        let health = match self.borrow_position_health(
            borrow_position,
            collateral_oracle,
            supply_oracle,
        ) {
            Ok(v) => v,
            Err(e) => return Err(e),
        };
        if health.ltv.bits < IFixedPoint::one().bits {
            return Err(LendingError::CannotSocializeDebtForHealthyPosition);
        }
        let debt = match self.supply_vault.socialize_loss(borrow_position.borrowed_shares()) {
            Ok(v) => v,
            Err(e) => return Err(e),
        };
        let collateral_to_withdraw = borrow_position.collateral_deposited_atoms();
        borrow_position.repay_all();
        match borrow_position.withdraw_collateral(collateral_to_withdraw) {
            Ok(_) => {},
            Err(e) => return Err(e),
        }
        match self.collateral_vault.withdraw_collateral(collateral_to_withdraw) {
            Ok(_) => {},
            Err(e) => return Err(e),
        }
        Ok((debt, collateral_to_withdraw))
    }
}

impl Market {
    /// The seeds of the market's address, its bump last.
    pub fn seed(&self) -> (r: Vec<Vec<u8>>)
        ensures
            r.deep_view() == spec_market_seed_without_bump(
                self.config.curator,
                self.supply_vault.mint,
                self.collateral_vault.mint,
                self.config.index,
            ).push(self.config.bump@),
    {
        market_seed_with_bump(
            self.config.curator(),
            self.supply_vault.mint(),
            self.collateral_vault.mint(),
            self.config.index(),
            self.config.bump(),
        )
    }

    /// The canonical accounts of the supply and collateral price feeds; none
    /// when an address cannot be derived.
    pub fn get_oracle_keys(&self) -> (r: Option<(Pubkey, Pubkey)>)
        ensures
            match (
                spec_feed_address(self.supply_vault.oracle_config.oracle_provider),
                spec_feed_address(self.collateral_vault.oracle_config.oracle_provider),
            ) {
                (Some(s), Some(c)) => r matches Some((sk, ck)) && sk.0@ == s && ck.0@ == c,
                _ => r is None,
            },
    {
        let supply = match self.supply_vault.oracle_config.oracle_provider.oracle_feed_pubkey() {
            Some(k) => k,
            None => return None,
        };
        let collateral = match self.collateral_vault.oracle_config.oracle_provider.oracle_feed_pubkey() {
            Some(k) => k,
            None => return None,
        };
        Some((supply, collateral))
    }
}

} // verus!
