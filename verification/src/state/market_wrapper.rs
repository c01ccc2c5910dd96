//! A market together with the two prices it was checked against: every
//! operation that needs prices goes through it.
use crate::error::LendingResult;
use crate::event::{DoubleMarketTransactionEvent, SingleMarketTransactionEvent};
use crate::operation::liquidation::LiquidationResultWithBonus;
use crate::oracle::oracle_price::OracleRate;
use crate::oracle::oracle_provider::{spec_load_and_validate, AccountView};
use crate::pubkey::Pubkey;
use crate::state::borrow_position::{
    BorrowPosition, BorrowPositionHealth, LiquidationResultWithCtx,
};
use crate::state::market::{
    spec_health, spec_liquidation_for_collateral, spec_market_borrow, spec_market_deposit_collateral,
    spec_market_lend, spec_market_liquidate, spec_market_repay, spec_market_repay_all,
    spec_market_socialize_loss, spec_market_withdraw, spec_market_withdraw_all,
    spec_market_withdraw_collateral, sweep_inactive, with_sv, Market,
};
use crate::math::fixed_ops::u_one;
use crate::math::ufixed_point::ufp;
use crate::state::supply_vault::spec_sync_clock;
use crate::state::supply_position::SupplyPosition;
use crate::state::supply_vault::spec_get_summary;
use vstd::prelude::*;

verus! {

/// A market whose two prices were read from their feeds and checked.
#[derive(Debug, Clone, Copy)]
pub struct MarketWrapper {
    market: Market,
    supply_oracle: OracleRate,
    collateral_oracle: OracleRate,
}

impl MarketWrapper {
    pub closed spec fn spec_market(&self) -> Market {
        self.market
    }

    pub closed spec fn spec_supply_oracle(&self) -> OracleRate {
        self.supply_oracle
    }

    pub closed spec fn spec_collateral_oracle(&self) -> OracleRate {
        self.collateral_oracle
    }

    /// A market with two prices the caller has already read and checked.
    pub fn new(market: Market, supply_oracle: OracleRate, collateral_oracle: OracleRate) -> (r:
        MarketWrapper)
        ensures
            r.spec_market() == market,
            r.spec_supply_oracle() == supply_oracle,
            r.spec_collateral_oracle() == collateral_oracle,
    {
        MarketWrapper { market, supply_oracle, collateral_oracle }
    }

    /// Reads and checks both prices of `market` at `unix_timestamp`, the
    /// supply price first; refused with the first error.
    pub fn try_new(
        market: Market,
        supply_oracle: &AccountView,
        collateral_oracle: &AccountView,
        unix_timestamp: i64,
    ) -> (r: LendingResult<MarketWrapper>)
        ensures
            match spec_load_and_validate(
                market.supply_vault.oracle_config,
                *supply_oracle.key,
                supply_oracle.data@,
                *supply_oracle.owner,
                unix_timestamp,
            ) {
                Err(e) => r == Err::<MarketWrapper, _>(e),
                Ok(s) => match spec_load_and_validate(
                    market.collateral_vault.oracle_config,
                    *collateral_oracle.key,
                    collateral_oracle.data@,
                    *collateral_oracle.owner,
                    unix_timestamp,
                ) {
                    Err(e) => r == Err::<MarketWrapper, _>(e),
                    Ok(c) => r matches Ok(w) && w.spec_market() == market && w.spec_supply_oracle()
                        == s && w.spec_collateral_oracle() == c,
                },
            },
    {
        let supply = match market.supply_vault.oracle_config.load_and_validate_oracle_rate(
            supply_oracle,
            unix_timestamp,
        ) {
            Ok(v) => v,
            Err(e) => return Err(e),
        };
        let collateral = match market.collateral_vault.oracle_config.load_and_validate_oracle_rate(
            collateral_oracle,
            unix_timestamp,
        ) {
            Ok(v) => v,
            Err(e) => return Err(e),
        };
        Ok(MarketWrapper { market, supply_oracle: supply, collateral_oracle: collateral })
    }

    pub fn market(&self) -> (r: &Market)
        ensures
            *r == self.spec_market(),
    {
        &self.market
    }

    pub fn collateral_oracle(&self) -> (r: &OracleRate)
        ensures
            *r == self.spec_collateral_oracle(),
    {
        &self.collateral_oracle
    }

    pub fn supply_oracle(&self) -> (r: &OracleRate)
        ensures
            *r == self.spec_supply_oracle(),
    {
        &self.supply_oracle
    }

    /// The health of a position at the checked prices.
    pub fn borrow_position_health(&self, borrow_position: &BorrowPosition) -> (r: LendingResult<
        BorrowPositionHealth,
    >)
        requires
            self.spec_market().wf(),
        ensures
            r == spec_health(
                self.spec_market(),
                *borrow_position,
                borrow_position.collateral_deposited_atoms,
                self.spec_collateral_oracle(),
                self.spec_supply_oracle(),
            ),
    {
        self.market.borrow_position_health(
            borrow_position,
            &self.collateral_oracle,
            &self.supply_oracle,
        )
    }

    /// The event of an operation moving `atoms` of `mint`: the summary of
    /// the supply vault, the collateral held and both prices.
    pub fn get_single_market_transaction_event(
        &self,
        market: &Pubkey,
        user: &Pubkey,
        position: &Pubkey,
        mint: &Pubkey,
        atoms: u64,
    ) -> (r: LendingResult<SingleMarketTransactionEvent>)
        ensures
            match spec_get_summary(self.spec_market().supply_vault) {
                Err(e) => r == Err::<SingleMarketTransactionEvent, _>(e),
                Ok(summary) => r == Ok::<_, crate::error::LendingError>(
                    SingleMarketTransactionEvent {
                        market: *market,
                        user: *user,
                        position: *position,
                        mint: *mint,
                        amount: atoms,
                        supply_vault_summary: summary,
                        collateral_vault_atoms: self.spec_market().collateral_vault.total_collateral_atoms,
                        supply_oracle_rate: self.spec_supply_oracle(),
                        collateral_oracle_rate: self.spec_collateral_oracle(),
                    },
                ),
            },
    {
        let summary = match self.market.supply_vault().get_summary() {
            Ok(v) => v,
            Err(e) => return Err(e),
        };
        Ok(
            SingleMarketTransactionEvent {
                market: *market,
                user: *user,
                position: *position,
                mint: *mint,
                amount: atoms,
                supply_vault_summary: summary,
                collateral_vault_atoms: self.market.collateral_vault().total_collateral_atoms(),
                supply_oracle_rate: self.supply_oracle,
                collateral_oracle_rate: self.collateral_oracle,
            },
        )
    }

    /// The event of an operation moving `amount_in` of `mint_in` and
    /// `amount_out` of `mint_out`.
    pub fn get_double_market_transaction_event(
        &self,
        market: &Pubkey,
        user: &Pubkey,
        position: &Pubkey,
        mint_in: &Pubkey,
        amount_in: u64,
        mint_out: &Pubkey,
        amount_out: u64,
    ) -> (r: LendingResult<DoubleMarketTransactionEvent>)
        ensures
            match spec_get_summary(self.spec_market().supply_vault) {
                Err(e) => r == Err::<DoubleMarketTransactionEvent, _>(e),
                Ok(summary) => r == Ok::<_, crate::error::LendingError>(
                    DoubleMarketTransactionEvent {
                        market: *market,
                        user: *user,
                        position: *position,
                        mint_in: *mint_in,
                        amount_in,
                        mint_out: *mint_out,
                        amount_out,
                        supply_vault_summary: summary,
                        collateral_vault_atoms: self.spec_market().collateral_vault.total_collateral_atoms,
                        supply_oracle_rate: self.spec_supply_oracle(),
                        collateral_oracle_rate: self.spec_collateral_oracle(),
                    },
                ),
            },
    {
        let summary = match self.market.supply_vault().get_summary() {
            Ok(v) => v,
            Err(e) => return Err(e),
        };
        Ok(
            DoubleMarketTransactionEvent {
                market: *market,
                user: *user,
                position: *position,
                mint_in: *mint_in,
                amount_in,
                mint_out: *mint_out,
                amount_out,
                supply_vault_summary: summary,
                collateral_vault_atoms: self.market.collateral_vault().total_collateral_atoms(),
                supply_oracle_rate: self.supply_oracle,
                collateral_oracle_rate: self.collateral_oracle,
            },
        )
    }

    /// A copy owning its market.
    pub fn owned(&self) -> (r: MarketWrapper)
        ensures
            r.spec_market() == self.spec_market(),
            r.spec_supply_oracle() == self.spec_supply_oracle(),
            r.spec_collateral_oracle() == self.spec_collateral_oracle(),
    {
        MarketWrapper {
            market: self.market,
            supply_oracle: self.supply_oracle,
            collateral_oracle: self.collateral_oracle,
        }
    }

    /// The health and liquidation of a position at the checked prices,
    /// without changing anything.
    pub fn compute_liquidation_result_with_fee(
        &self,
        borrow_position: &BorrowPosition,
        max_repay_atoms: u64,
    ) -> (r: LendingResult<(BorrowPositionHealth, LiquidationResultWithBonus)>)
        requires
            self.spec_market().wf(),
        ensures
            r == (match sweep_inactive(*borrow_position) {
                Err(e) => Err(e),
                Ok(_) => spec_liquidation_for_collateral(
                    self.spec_market(),
                    *borrow_position,
                    borrow_position.collateral_deposited_atoms,
                    self.spec_collateral_oracle(),
                    self.spec_supply_oracle(),
                    max_repay_atoms,
                ),
            }),
    {
        self.market.compute_liquidation_result_with_fee(
            borrow_position,
            &self.collateral_oracle,
            &self.supply_oracle,
            max_repay_atoms,
        )
    }

    pub fn market_mut(&mut self) -> (r: &mut Market)
        ensures
            *r == old(self).spec_market(),
            final(self).spec_market() == *final(r),
            final(self).spec_supply_oracle() == old(self).spec_supply_oracle(),
            final(self).spec_collateral_oracle() == old(self).spec_collateral_oracle(),
    {
        &mut self.market
    }

    /// Accrues interest up to `unix_timestamp`, see `Market::sync_clock`.
    pub fn sync_clock(&mut self, unix_timestamp: i64) -> (r: LendingResult<()>)
        requires
            old(self).spec_market().wf(),
        ensures
            ({
                let m = old(self).spec_market();
                let (r2, sv) = spec_sync_clock(
                    m.supply_vault,
                    unix_timestamp,
                    ufp((m.config.lending_market_fee_in_bps * u_one()) / 10_000),
                    m.config.protocol_fee_share_in_bps,
                );
                r == r2 && final(self).spec_market() == with_sv(m, sv)
            }),
            final(self).spec_market().wf(),
            final(self).spec_supply_oracle() == old(self).spec_supply_oracle(),
            final(self).spec_collateral_oracle() == old(self).spec_collateral_oracle(),
    {
        self.market.sync_clock(unix_timestamp)
    }

    pub fn lend(&mut self, supply_position: &mut SupplyPosition, atoms: u64) -> (r: LendingResult<()>)
        ensures
            (r, final(self).spec_market(), *final(supply_position)) == spec_market_lend(
                old(self).spec_market(),
                *old(supply_position),
                atoms,
            ),
            final(self).spec_supply_oracle() == old(self).spec_supply_oracle(),
            final(self).spec_collateral_oracle() == old(self).spec_collateral_oracle(),
    {
        self.market.lend(supply_position, atoms)
    }

    pub fn withdraw_collateral(&mut self, borrow_position: &mut BorrowPosition, atoms: u64) -> (r:
        LendingResult<()>)
        requires
            old(self).spec_market().wf(),
        ensures
            (r, final(self).spec_market(), *final(borrow_position))
                == spec_market_withdraw_collateral(
                old(self).spec_market(),
                *old(borrow_position),
                atoms,
                old(self).spec_collateral_oracle(),
                old(self).spec_supply_oracle(),
            ),
            final(self).spec_supply_oracle() == old(self).spec_supply_oracle(),
            final(self).spec_collateral_oracle() == old(self).spec_collateral_oracle(),
    {
        self.market.withdraw_collateral(
            borrow_position,
            atoms,
            &self.collateral_oracle,
            &self.supply_oracle,
        )
    }

    pub fn deposit_collateral(&mut self, borrow_position: &mut BorrowPosition, atoms: u64) -> (r:
        LendingResult<()>)
        ensures
            (r, final(self).spec_market(), *final(borrow_position)) == spec_market_deposit_collateral(
                old(self).spec_market(),
                *old(borrow_position),
                atoms,
            ),
            final(self).spec_supply_oracle() == old(self).spec_supply_oracle(),
            final(self).spec_collateral_oracle() == old(self).spec_collateral_oracle(),
    {
        self.market.deposit_collateral(borrow_position, atoms)
    }

    pub fn withdraw(&mut self, supply_position: &mut SupplyPosition, atoms: u64) -> (r: LendingResult<
        (),
    >)
        ensures
            (r, final(self).spec_market(), *final(supply_position)) == spec_market_withdraw(
                old(self).spec_market(),
                *old(supply_position),
                atoms,
            ),
            final(self).spec_supply_oracle() == old(self).spec_supply_oracle(),
            final(self).spec_collateral_oracle() == old(self).spec_collateral_oracle(),
    {
        self.market.withdraw(supply_position, atoms)
    }

    pub fn withdraw_all(&mut self, supply_position: &mut SupplyPosition) -> (r: LendingResult<u64>)
        ensures
            (r, final(self).spec_market(), *final(supply_position)) == spec_market_withdraw_all(
                old(self).spec_market(),
                *old(supply_position),
            ),
            final(self).spec_supply_oracle() == old(self).spec_supply_oracle(),
            final(self).spec_collateral_oracle() == old(self).spec_collateral_oracle(),
    {
        self.market.withdraw_all(supply_position)
    }

    pub fn borrow(&mut self, borrow_position: &mut BorrowPosition, borrow_atoms: u64) -> (r:
        LendingResult<()>)
        requires
            old(self).spec_market().wf(),
        ensures
            (r, final(self).spec_market(), *final(borrow_position)) == spec_market_borrow(
                old(self).spec_market(),
                *old(borrow_position),
                borrow_atoms,
                old(self).spec_supply_oracle(),
                old(self).spec_collateral_oracle(),
            ),
            final(self).spec_supply_oracle() == old(self).spec_supply_oracle(),
            final(self).spec_collateral_oracle() == old(self).spec_collateral_oracle(),
    {
        self.market.borrow(borrow_position, borrow_atoms, &self.supply_oracle, &self.collateral_oracle)
    }

    pub fn repay(&mut self, borrow_position: &mut BorrowPosition, atoms: u64) -> (r: LendingResult<
        (),
    >)
        ensures
            (r, final(self).spec_market(), *final(borrow_position)) == spec_market_repay(
                old(self).spec_market(),
                *old(borrow_position),
                atoms,
            ),
            final(self).spec_supply_oracle() == old(self).spec_supply_oracle(),
            final(self).spec_collateral_oracle() == old(self).spec_collateral_oracle(),
    {
        self.market.repay(borrow_position, atoms)
    }

    pub fn repay_all(&mut self, borrow_position: &mut BorrowPosition) -> (r: LendingResult<u64>)
        ensures
            (r, final(self).spec_market(), *final(borrow_position)) == spec_market_repay_all(
                old(self).spec_market(),
                *old(borrow_position),
            ),
            final(self).spec_supply_oracle() == old(self).spec_supply_oracle(),
            final(self).spec_collateral_oracle() == old(self).spec_collateral_oracle(),
    {
        self.market.repay_all(borrow_position)
    }

    pub fn liquidate(&mut self, borrow_position: &mut BorrowPosition, max_repay_atoms: u64) -> (r:
        LendingResult<LiquidationResultWithCtx>)
        requires
            old(self).spec_market().wf(),
        ensures
            (r, final(self).spec_market(), *final(borrow_position)) == spec_market_liquidate(
                old(self).spec_market(),
                *old(borrow_position),
                old(self).spec_collateral_oracle(),
                old(self).spec_supply_oracle(),
                max_repay_atoms,
            ),
            final(self).spec_supply_oracle() == old(self).spec_supply_oracle(),
            final(self).spec_collateral_oracle() == old(self).spec_collateral_oracle(),
    {
        self.market.liquidate(
            borrow_position,
            &self.collateral_oracle,
            &self.supply_oracle,
            max_repay_atoms,
        )
    }

    pub fn socialize_loss(&mut self, borrow_position: &mut BorrowPosition) -> (r: LendingResult<
        (u64, u64),
    >)
        requires
            old(self).spec_market().wf(),
        ensures
            (r, final(self).spec_market(), *final(borrow_position)) == spec_market_socialize_loss(
                old(self).spec_market(),
                *old(borrow_position),
                old(self).spec_collateral_oracle(),
                old(self).spec_supply_oracle(),
            ),
            final(self).spec_supply_oracle() == old(self).spec_supply_oracle(),
            final(self).spec_collateral_oracle() == old(self).spec_collateral_oracle(),
    {
        self.market.socialize_loss(borrow_position, &self.collateral_oracle, &self.supply_oracle)
    }
}

impl Market {
    /// This market with both prices read and checked, see
    /// `MarketWrapper::try_new`.
    pub fn wrapper(
        &self,
        supply_oracle: &AccountView,
        collateral_oracle: &AccountView,
        unix_timestamp: i64,
    ) -> (r: LendingResult<MarketWrapper>)
        ensures
            r matches Ok(w) ==> w.spec_market() == *self,
            r is Ok <==> (spec_load_and_validate(
                self.supply_vault.oracle_config,
                *supply_oracle.key,
                supply_oracle.data@,
                *supply_oracle.owner,
                unix_timestamp,
            ) is Ok && spec_load_and_validate(
                self.collateral_vault.oracle_config,
                *collateral_oracle.key,
                collateral_oracle.data@,
                *collateral_oracle.owner,
                unix_timestamp,
            ) is Ok),
    {
        MarketWrapper::try_new(*self, supply_oracle, collateral_oracle, unix_timestamp)
    }
}

} // verus!
