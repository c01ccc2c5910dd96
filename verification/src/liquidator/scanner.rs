//! The decisions of one scan over the borrow positions: which positions to
//! liquidate, how much collateral such a liquidation seizes, which venue
//! sells it, and the statistics reported at the end of the scan.
use crate::error::LendingError;
use crate::math::ifixed_point::IFixedPoint;
use crate::math::safe_math::u64_res;
use crate::operation::liquidation::LiquidationResultWithBonus;
use crate::oracle::oracle_price::OracleRate;
use crate::pubkey::Pubkey;
use crate::state::borrow_position::{BorrowPosition, BorrowPositionHealth};
use crate::state::market::{spec_liquidation_for_collateral, sweep_inactive, Market};
use vstd::prelude::*;

verus! {

/// What the scanner does with a position whose health it could read.
#[derive(Debug, Clone, Copy, PartialEq, Eq, Structural)]
pub enum PositionPlan {
    /// Its ltv is below the unhealthy ltv of the market
    Healthy,
    /// The liquidation could not be previewed
    PreviewFailed(LendingError),
    /// The liquidation would seize no collateral
    NothingToSeize,
    /// Liquidate it and sell this much seized collateral (bonus included)
    Liquidate { collateral_atoms: u64 },
}

/// Whether a position of this health may be liquidated.
pub open spec fn is_liquidatable(health: BorrowPositionHealth, unhealthy_ltv: IFixedPoint) -> bool {
    health.ltv.bits >= unhealthy_ltv.bits
}

/// The plan for a position: healthy ones are left alone; for the others
/// the liquidation is previewed with an unbounded repayment, and the
/// collateral it seizes plus the bonus is what will be sold.
pub open spec fn spec_plan_position(
    market: Market,
    position: BorrowPosition,
    health: BorrowPositionHealth,
    collateral_oracle: OracleRate,
    supply_oracle: OracleRate,
) -> PositionPlan {
    if !is_liquidatable(health, market.config.ltv_config.unhealthy_ltv) {
        PositionPlan::Healthy
    } else {
        let preview = match sweep_inactive(position) {
            Err(e) => Err(e),
            Ok(_) => spec_liquidation_for_collateral(
                market,
                position,
                position.collateral_deposited_atoms,
                collateral_oracle,
                supply_oracle,
                u64::MAX,
            ),
        };
        match preview {
            Err(e) => PositionPlan::PreviewFailed(e),
            Ok((_, l)) => match u64_res(
                l.collateral_atoms_to_liquidate + l.collateral_atoms_liquidation_bonus,
                LendingError::AdditionOverflow,
            ) {
                Err(e) => PositionPlan::PreviewFailed(e),
                Ok(seized) => if seized == 0 {
                    PositionPlan::NothingToSeize
                } else {
                    PositionPlan::Liquidate { collateral_atoms: seized }
                },
            },
        }
    }
}

/// Decides what to do with a position of the given health, see
/// `spec_plan_position`.
pub fn plan_position(
    market: &Market,
    position: &BorrowPosition,
    health: &BorrowPositionHealth,
    collateral_oracle: &OracleRate,
    supply_oracle: &OracleRate,
) -> (r: PositionPlan)
    requires
        market.wf(),
    ensures
        r == spec_plan_position(*market, *position, *health, *collateral_oracle, *supply_oracle),
{
    if health.ltv.bits < market.config.ltv_config.unhealthy_ltv.bits {
        return PositionPlan::Healthy;
    }
    let liquidation: LiquidationResultWithBonus = match market.compute_liquidation_result_with_fee(
        position,
        collateral_oracle,
        supply_oracle,
        u64::MAX,
    ) {
        Ok((_, l)) => l,
        Err(e) => return PositionPlan::PreviewFailed(e),
    };
    match liquidation.total_collateral_atoms_to_liquidate() {
        Ok(seized) => if seized == 0 {
            PositionPlan::NothingToSeize
        } else {
            PositionPlan::Liquidate { collateral_atoms: seized }
        },
        Err(e) => PositionPlan::PreviewFailed(e),
    }
}

/// Where the seized collateral is sold.
#[derive(Debug, Clone, Copy, PartialEq, Eq, Structural)]
pub enum Venue {
    /// The concentrated-liquidity pool, as a callback of the liquidation
    Clamm,
    /// The quote-signed vault, in a transaction of its own
    PropAmm,
}

/// The venue with the larger quoted output, the pool on a tie; none when
/// both quote nothing.
pub open spec fn spec_choose_venue(clamm_out: u64, propamm_out: u64) -> Option<Venue> {
    if clamm_out == 0 && propamm_out == 0 {
        None
    } else if propamm_out > clamm_out {
        Some(Venue::PropAmm)
    } else {
        Some(Venue::Clamm)
    }
}

/// Picks the venue that sells the seized collateral, see
/// `spec_choose_venue`.
pub fn choose_venue(clamm_out: u64, propamm_out: u64) -> (r: Option<Venue>)
    ensures
        r == spec_choose_venue(clamm_out, propamm_out),
{
    if clamm_out == 0 && propamm_out == 0 {
        None
    } else if propamm_out > clamm_out {
        Some(Venue::PropAmm)
    } else {
        Some(Venue::Clamm)
    }
}

/// What follows an attempt to liquidate through the vault.
#[derive(Debug, Clone, Copy, PartialEq, Eq, Structural)]
pub enum AfterPropAmm {
    /// The position was liquidated: nothing more, whatever the swap did
    Done,
    /// The liquidation did not land: try the pool route instead
    FallBackToClamm,
    /// The liquidation did not land and there is no pool route
    Skip,
}

/// The next step after the vault route: a landed liquidation is never
/// retried; a failed one falls back to the pool when it quoted a route.
pub fn after_propamm_route(liquidated: bool, clamm_available: bool) -> (r: AfterPropAmm)
    ensures
        liquidated ==> r == AfterPropAmm::Done,
        !liquidated && clamm_available ==> r == AfterPropAmm::FallBackToClamm,
        !liquidated && !clamm_available ==> r == AfterPropAmm::Skip,
{
    if liquidated {
        AfterPropAmm::Done
    } else if clamm_available {
        AfterPropAmm::FallBackToClamm
    } else {
        AfterPropAmm::Skip
    }
}

/// What a scan reports at its end.
#[derive(Debug, Clone, Copy, PartialEq, Eq)]
pub struct ScanStats {
    /// Positions found liquidatable
    pub liquidatable_count: u64,
    /// The first position seen with the largest debt: position, market, debt
    pub biggest_borrow: Option<(Pubkey, Pubkey, u64)>,
    /// The first position seen with the largest ltv: position, market, ltv
    pub highest_ltv: Option<(Pubkey, Pubkey, IFixedPoint)>,
}

/// The statistics once a position of this health is seen: a record is
/// replaced only by a strictly larger value.
pub open spec fn spec_record_health(
    s: ScanStats,
    position: Pubkey,
    market: Pubkey,
    health: BorrowPositionHealth,
) -> ScanStats {
    ScanStats {
        liquidatable_count: s.liquidatable_count,
        biggest_borrow: match s.biggest_borrow {
            Some((_, _, prev)) if health.borrowed_atoms <= prev => s.biggest_borrow,
            _ => Some((position, market, health.borrowed_atoms)),
        },
        highest_ltv: match s.highest_ltv {
            Some((_, _, prev)) if health.ltv.bits <= prev.bits => s.highest_ltv,
            _ => Some((position, market, health.ltv)),
        },
    }
}

impl ScanStats {
    /// Nothing seen yet.
    pub fn new() -> (r: ScanStats)
        ensures
            r.liquidatable_count == 0,
            r.biggest_borrow is None,
            r.highest_ltv is None,
    {
        ScanStats { liquidatable_count: 0, biggest_borrow: None, highest_ltv: None }
    }

    /// Takes a position whose health could be read into the records.
    pub fn record_health(&mut self, position: Pubkey, market: Pubkey, health: &BorrowPositionHealth)
        ensures
            *final(self) == spec_record_health(*old(self), position, market, *health),
    {
        let replace_borrow = match self.biggest_borrow {
            Some((_, _, prev)) => health.borrowed_atoms > prev,
            None => true,
        };
        if replace_borrow {
            self.biggest_borrow = Some((position, market, health.borrowed_atoms));
        }
        let replace_ltv = match self.highest_ltv {
            Some((_, _, prev)) => health.ltv.bits > prev.bits,
            None => true,
        };
        if replace_ltv {
            self.highest_ltv = Some((position, market, health.ltv));
        }
    }

    /// Counts one more liquidatable position.
    pub fn record_liquidatable(&mut self)
        requires
            old(self).liquidatable_count < u64::MAX,
        ensures
            *final(self) == (ScanStats {
                liquidatable_count: (old(self).liquidatable_count + 1) as u64,
                ..*old(self)
            }),
    {
        self.liquidatable_count = self.liquidatable_count + 1;
    }
}

} // verus!
