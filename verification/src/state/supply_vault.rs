//! The vault of the supplied token: supply and borrow shares, interest
//! accrual and pending fees.
use crate::error::{LendingError, LendingResult};
use crate::interest_rate::interest_rate::{spec_map_rate, InterestRate};
use crate::interest_rate::interest_rate_kind::{
    spec_borrow_rate_per_second, spec_curve_is_valid, InterestRateCurveKind,
};
use crate::interest_rate::interest_rate_per_second::{spec_compounding, InterestRatePerSecond};
use crate::interest_rate::lending_interest_rate::MarketBorrowRateParameters;
use crate::math::bps::bps_from_fixed_point;
use crate::math::fixed_ops::i_one;
use crate::math::ifixed_point::{ifp, spec_i_div, spec_i_mul, IFixedPoint};
use crate::math::rounding::RoundingMode;
use crate::math::safe_math::SafeMath;
use crate::math::shares_tracker::{
    spec_apply_interest_rate, spec_apply_interest_rate_with_fee, spec_deposit_atoms,
    spec_donate_atoms, spec_shares_to_atoms, spec_socialize_loss_atoms, spec_total_atoms,
    spec_withdraw_atoms, spec_withdraw_atoms_capped, spec_withdraw_shares, SharesTracker,
};
use crate::math::ufixed_point::{spec_u_add, spec_u_mul_int, spec_u_sub, ufp, UFixedPoint};
use crate::oracle::oracle_config::OracleConfig;
use crate::pubkey::Pubkey;
use vstd::prelude::*;

verus! {

/// The vault of the supplied token.
#[derive(Debug, Clone, Copy, PartialEq, Eq)]
pub struct SupplyVault {
    /// The mint of the supply token
    pub mint: Pubkey,
    /// The decimals of the supply token
    pub mint_decimals: u64,
    /// The token account that holds the supply tokens
    pub vault: Pubkey,
    /// The oracle config of the supply token
    pub oracle_config: OracleConfig,
    /// Lending shares and the atoms they are worth
    pub supply_shares_tracker: SharesTracker,
    /// Borrow shares and the atoms they owe
    pub borrow_shares_tracker: SharesTracker,
    /// The interest rate curve of this vault
    pub interest_rate_curve: InterestRateCurveKind,
    /// The last borrow interest rate per second
    pub last_borrow_interest_rate: InterestRatePerSecond,
    /// The last time the vault was updated (in seconds)
    pub last_update_unix_timestamp: i64,
    /// Protocol fee shares not redeemed yet
    pub pending_protocol_fee_shares: UFixedPoint,
    /// Curator fee shares not redeemed yet
    pub pending_curator_fee_shares: UFixedPoint,
}

/// A snapshot of a supply vault.
#[derive(Debug, Clone, Copy, PartialEq, Eq, Default, Structural)]
pub struct SupplyVaultSummary {
    pub last_update_unix_timestamp: i64,
    pub total_supply: u64,
    pub total_borrow: u64,
    pub pending_curator_fee_atoms: u64,
    pub pending_protocol_fee_atoms: u64,
    pub utilisation_rate: IFixedPoint,
    pub borrow_interest_rate: InterestRatePerSecond,
    pub lending_interest_rate: InterestRatePerSecond,
}

impl SupplyVault {
    /// Supported decimals and a usable curve.
    pub open spec fn wf(&self) -> bool {
        self.mint_decimals <= 18 && spec_curve_is_valid(self.interest_rate_curve)
    }
}

/// A snapshot of the vault: its supply and debt, utilisation, pending fees
/// and rates; the first error met on the way otherwise.
pub open spec fn spec_get_summary(v: SupplyVault) -> LendingResult<SupplyVaultSummary> {
    match spec_total_supply(v) {
        Err(e) => Err(e),
        Ok(total_supply) => match spec_total_borrow(v) {
            Err(e) => Err(e),
            Ok(total_borrow) => match spec_compute_utilisation_rate(total_borrow, total_supply) {
                Err(e) => Err(e),
                Ok(utilisation_rate) => match spec_shares_to_atoms(
                    v.supply_shares_tracker,
                    v.pending_curator_fee_shares,
                    RoundingMode::RoundDown,
                ) {
                    Err(e) => Err(e),
                    Ok(pending_curator_fee_atoms) => match spec_shares_to_atoms(
                        v.supply_shares_tracker,
                        v.pending_protocol_fee_shares,
                        RoundingMode::RoundDown,
                    ) {
                        Err(e) => Err(e),
                        Ok(pending_protocol_fee_atoms) => match spec_i_mul(
                            v.last_borrow_interest_rate.0,
                            utilisation_rate,
                        ) {
                            Err(e) => Err(e),
                            Ok(lending) => Ok(
                                SupplyVaultSummary {
                                    last_update_unix_timestamp: v.last_update_unix_timestamp,
                                    total_supply,
                                    total_borrow,
                                    pending_curator_fee_atoms,
                                    pending_protocol_fee_atoms,
                                    utilisation_rate,
                                    borrow_interest_rate: v.last_borrow_interest_rate,
                                    lending_interest_rate: InterestRatePerSecond(lending),
                                },
                            ),
                        },
                    },
                },
            },
        },
    }
}

/// Supply rounded down.
pub open spec fn spec_total_supply(v: SupplyVault) -> LendingResult<u64> {
    spec_total_atoms(v.supply_shares_tracker, RoundingMode::RoundDown)
}

/// Debt rounded up.
pub open spec fn spec_total_borrow(v: SupplyVault) -> LendingResult<u64> {
    spec_total_atoms(v.borrow_shares_tracker, RoundingMode::RoundUp)
}

/// `borrowed / supply`; zero when nothing is borrowed and the supply is zero.
pub open spec fn spec_compute_utilisation_rate(borrowed: u64, supply: u64) -> LendingResult<IFixedPoint> {
    match spec_i_div(ifp(borrowed * i_one()), ifp(supply * i_one())) {
        Ok(v) => Ok(v),
        Err(e) => if borrowed != 0 {
            Err(e)
        } else {
            Ok(ifp(0))
        },
    }
}

/// Debt over supply.
pub open spec fn spec_utilisation_rate(v: SupplyVault) -> LendingResult<IFixedPoint> {
    match spec_total_supply(v) {
        Err(e) => Err(e),
        Ok(s) => match spec_total_borrow(v) {
            Err(e) => Err(e),
            Ok(b) => spec_compute_utilisation_rate(b, s),
        },
    }
}

pub open spec fn with_supply(v: SupplyVault, t: SharesTracker) -> SupplyVault {
    SupplyVault { supply_shares_tracker: t, ..v }
}

pub open spec fn with_borrow(v: SupplyVault, t: SharesTracker) -> SupplyVault {
    SupplyVault { borrow_shares_tracker: t, ..v }
}

/// Result and new state of `sync_clock`: interest accrues on the debt over
/// the elapsed time, the supply earns it scaled by the utilisation rate and
/// net of the lending fee, and the fee shares are split between protocol
/// and curator.
pub open spec fn spec_sync_clock(
    v: SupplyVault,
    unix_timestamp: i64,
    fee: UFixedPoint,
    protocol_bps: u16,
) -> (LendingResult<()>, SupplyVault) {
    if unix_timestamp <= v.last_update_unix_timestamp {
        (Ok(()), v)
    } else {
        let elapsed = (unix_timestamp - v.last_update_unix_timestamp) as u64;
        match spec_utilisation_rate(v) {
            Err(e) => (Err(e), v),
            Ok(ur) => {
                let params = MarketBorrowRateParameters {
                    utilisation_rate: ur,
                    elapsed_seconds_since_last_update: elapsed,
                };
                let (br_res, curve2) = spec_borrow_rate_per_second(v.interest_rate_curve, params);
                let v1 = SupplyVault { interest_rate_curve: curve2, ..v };
                match br_res {
                    Err(e) => (Err(e), v1),
                    Ok(br) => match spec_compounding(br, elapsed) {
                        Err(e) => (Err(e), v1),
                        Ok(brd) => {
                            let (r1, borrow2) = spec_apply_interest_rate(v.borrow_shares_tracker, brd);
                            let v2 = with_borrow(v1, borrow2);
                            match r1 {
                                Err(e) => (Err(e), v2),
                                Ok(_) => match spec_map_rate(spec_i_mul(brd.0, ur)) {
                                    Err(e) => (Err(e), v2),
                                    Ok(lir) => {
                                        let (r2, supply2) = spec_apply_interest_rate_with_fee(
                                            v.supply_shares_tracker,
                                            lir,
                                            fee,
                                        );
                                        let v3 = with_supply(v2, supply2);
                                        match r2 {
                                            Err(e) => (Err(e), v3),
                                            Ok(fee_shares) => spec_split_fee(
                                                v3,
                                                fee_shares,
                                                protocol_bps,
                                                br,
                                                unix_timestamp,
                                            ),
                                        }
                                    },
                                },
                            }
                        },
                    },
                }
            },
        }
    }
}

/// The protocol share of `fee_shares` (`bps` of it).
pub open spec fn spec_protocol_share(fee_shares: UFixedPoint, bps: u16) -> LendingResult<UFixedPoint> {
    match spec_u_mul_int(fee_shares, bps as u64) {
        Ok(m) => Ok(ufp(m.bits as int / 10_000)),
        Err(e) => Err(e),
    }
}

/// Splits the fee shares between protocol and curator and records the rate
/// and time of the update.
pub open spec fn spec_split_fee(
    v: SupplyVault,
    fee_shares: UFixedPoint,
    protocol_bps: u16,
    rate: InterestRatePerSecond,
    unix_timestamp: i64,
) -> (LendingResult<()>, SupplyVault) {
    match spec_protocol_share(fee_shares, protocol_bps) {
        Err(e) => (Err(e), v),
        Ok(pfs) => match spec_u_sub(fee_shares, pfs) {
            Err(e) => (Err(e), v),
            Ok(cfs) => match spec_u_add(v.pending_protocol_fee_shares, pfs) {
                Err(e) => (Err(e), v),
                Ok(pp) => {
                    let v4 = SupplyVault { pending_protocol_fee_shares: pp, ..v };
                    match spec_u_add(v.pending_curator_fee_shares, cfs) {
                        Err(e) => (Err(e), v4),
                        Ok(pc) => (
                            Ok(()),
                            SupplyVault {
                                pending_curator_fee_shares: pc,
                                last_borrow_interest_rate: rate,
                                last_update_unix_timestamp: unix_timestamp,
                                ..v4
                            },
                        ),
                    }
                },
            },
        },
    }
}

/// Result and new state of redeeming pending fee `shares` (already zeroed
/// in `v`).
pub open spec fn spec_redeem(v: SupplyVault, shares: UFixedPoint) -> (LendingResult<u64>, SupplyVault) {
    let (r, t) = spec_withdraw_shares(v.supply_shares_tracker, shares, RoundingMode::RoundDown);
    (r, with_supply(v, t))
}

/// Result and new state of `socialize_loss`.
pub open spec fn spec_vault_socialize_loss(v: SupplyVault, debt_shares: UFixedPoint) -> (
    LendingResult<u64>,
    SupplyVault,
) {
    let (r1, b) = spec_withdraw_shares(v.borrow_shares_tracker, debt_shares, RoundingMode::RoundUp);
    let v1 = with_borrow(v, b);
    match r1 {
        Err(e) => (Err(e), v1),
        Ok(debt) => {
            let (r2, s) = spec_socialize_loss_atoms(v.supply_shares_tracker, debt);
            match r2 {
                Err(e) => (Err(e), with_supply(v1, s)),
                Ok(_) => (Ok(debt), with_supply(v1, s)),
            }
        },
    }
}

impl SupplyVault {
    /// Sets up the vault; refused when the decimals exceed 18
    /// (`UnsupportedMintDecimals`), the curve is invalid (`InvalidCurve`) or
    /// the oracle configuration is invalid (`InvalidOracleConfig`).
    pub fn initialize(
        &mut self,
        mint: Pubkey,
        mint_decimals: u64,
        vault: Pubkey,
        oracle_config: OracleConfig,
        interest_rate: InterestRateCurveKind,
        timestamp: i64,
    ) -> (r: LendingResult<()>)
        ensures
            mint_decimals > 18 ==> r == Err::<(), LendingError>(LendingError::UnsupportedMintDecimals),
            mint_decimals <= 18 && !spec_curve_is_valid(interest_rate) ==> r == Err::<
                (),
                LendingError,
            >(LendingError::InvalidCurve),
            mint_decimals <= 18 && spec_curve_is_valid(interest_rate) && !oracle_config.spec_is_valid()
                ==> r == Err::<(), LendingError>(LendingError::InvalidOracleConfig),
            r is Ok <==> (mint_decimals <= 18 && spec_curve_is_valid(interest_rate)
                && oracle_config.spec_is_valid()),
            r is Err ==> *final(self) == *old(self),
            r is Ok ==> *final(self) == (SupplyVault {
                mint,
                mint_decimals,
                vault,
                oracle_config,
                interest_rate_curve: interest_rate,
                supply_shares_tracker: SharesTracker { total_shares: ufp(0), atoms_per_share: ufp(0x1_0000_0000_0000_0000) },
                borrow_shares_tracker: SharesTracker { total_shares: ufp(0), atoms_per_share: ufp(0x1_0000_0000_0000_0000) },
                last_update_unix_timestamp: timestamp,
                ..*old(self)
            }) && final(self).wf(),
    {
        if mint_decimals > 18 {
            return Err(LendingError::UnsupportedMintDecimals);
        }
        if !interest_rate.is_valid() {
            return Err(LendingError::InvalidCurve);
        }
        match oracle_config.validate() {
            Ok(_) => {},
            Err(e) => return Err(e),
        }
        self.mint = mint;
        self.mint_decimals = mint_decimals;
        self.vault = vault;
        self.oracle_config = oracle_config;
        self.interest_rate_curve = interest_rate;
        self.supply_shares_tracker.initialize();
        self.borrow_shares_tracker.initialize();
        self.last_update_unix_timestamp = timestamp;
        Ok(())
    }

    pub fn vault(&self) -> (r: &Pubkey)
        ensures
            *r == self.vault,
    {
        &self.vault
    }

    pub fn mint(&self) -> (r: &Pubkey)
        ensures
            *r == self.mint,
    {
        &self.mint
    }

    pub fn mint_decimals(&self) -> (r: u8)
        requires
            self.mint_decimals <= 18,
        ensures
            r == self.mint_decimals,
    {
        self.mint_decimals as u8
    }

    pub fn supply_shares_tracker(&self) -> (r: &SharesTracker)
        ensures
            *r == self.supply_shares_tracker,
    {
        &self.supply_shares_tracker
    }

    pub fn borrow_shares_tracker(&self) -> (r: &SharesTracker)
        ensures
            *r == self.borrow_shares_tracker,
    {
        &self.borrow_shares_tracker
    }

    pub fn interest_rate_curve(&self) -> (r: &InterestRateCurveKind)
        ensures
            *r == self.interest_rate_curve,
    {
        &self.interest_rate_curve
    }

    pub fn oracle_config(&self) -> (r: &OracleConfig)
        ensures
            *r == self.oracle_config,
    {
        &self.oracle_config
    }

    pub fn set_oracle_config(&mut self, oracle_config: OracleConfig)
        ensures
            *final(self) == (SupplyVault { oracle_config, ..*old(self) }),
    {
        self.oracle_config = oracle_config;
    }

    pub fn last_borrow_interest_rate(&self) -> (r: InterestRatePerSecond)
        ensures
            r == self.last_borrow_interest_rate,
    {
        self.last_borrow_interest_rate
    }

    /// Supply, rounded down.
    pub fn total_supply(&self) -> (r: LendingResult<u64>)
        ensures
            r == spec_total_supply(*self),
    {
        self.supply_shares_tracker.total_atoms(RoundingMode::RoundDown)
    }

    /// Debt, rounded up.
    pub fn total_borrow(&self) -> (r: LendingResult<u64>)
        ensures
            r == spec_total_borrow(*self),
    {
        self.borrow_shares_tracker.total_atoms(RoundingMode::RoundUp)
    }

    /// Debt over supply.
    pub fn utilisation_rate(&self) -> (r: LendingResult<IFixedPoint>)
        ensures
            r == spec_utilisation_rate(*self),
    {
        let total_supply = match self.total_supply() {
            Ok(v) => v,
            Err(e) => return Err(e),
        };
        let total_borrowed = match self.total_borrow() {
            Ok(v) => v,
            Err(e) => return Err(e),
        };
        Self::compute_utilisation_rate(total_borrowed, total_supply)
    }

    /// The debt `shares` owe, rounded up.
    pub fn borrow_shares_to_atoms(&self, shares: UFixedPoint) -> (r: LendingResult<u64>)
        ensures
            r == spec_shares_to_atoms(self.borrow_shares_tracker, shares, RoundingMode::RoundUp),
    {
        self.borrow_shares_tracker.shares_to_atoms(shares, RoundingMode::RoundUp)
    }

    /// A snapshot of the vault.
    pub fn get_summary(&self) -> (r: LendingResult<SupplyVaultSummary>)
        ensures
            r == spec_get_summary(*self),
            r is Ok ==> r->Ok_0.last_update_unix_timestamp == self.last_update_unix_timestamp
                && Ok::<u64, LendingError>(r->Ok_0.total_supply) == spec_total_supply(*self)
                && Ok::<u64, LendingError>(r->Ok_0.total_borrow) == spec_total_borrow(*self)
                && Ok::<IFixedPoint, LendingError>(r->Ok_0.utilisation_rate) == spec_utilisation_rate(*self)
                && Ok::<u64, LendingError>(r->Ok_0.pending_curator_fee_atoms) == spec_shares_to_atoms(
                self.supply_shares_tracker,
                self.pending_curator_fee_shares,
                RoundingMode::RoundDown,
            ) && Ok::<u64, LendingError>(r->Ok_0.pending_protocol_fee_atoms) == spec_shares_to_atoms(
                self.supply_shares_tracker,
                self.pending_protocol_fee_shares,
                RoundingMode::RoundDown,
            ) && r->Ok_0.borrow_interest_rate == self.last_borrow_interest_rate
                && Ok::<IFixedPoint, LendingError>(r->Ok_0.lending_interest_rate.0) == spec_i_mul(
                self.last_borrow_interest_rate.0,
                r->Ok_0.utilisation_rate,
            ),
            r is Err ==> spec_total_supply(*self) is Err || spec_total_borrow(*self) is Err
                || spec_utilisation_rate(*self) is Err || spec_shares_to_atoms(
                self.supply_shares_tracker,
                self.pending_curator_fee_shares,
                RoundingMode::RoundDown,
            ) is Err || spec_shares_to_atoms(
                self.supply_shares_tracker,
                self.pending_protocol_fee_shares,
                RoundingMode::RoundDown,
            ) is Err || (spec_utilisation_rate(*self) is Ok && spec_i_mul(
                self.last_borrow_interest_rate.0,
                spec_utilisation_rate(*self)->Ok_0,
            ) is Err),
    {
        let total_supply = match self.total_supply() {
            Ok(v) => v,
            Err(e) => return Err(e),
        };
        let total_borrow = match self.total_borrow() {
            Ok(v) => v,
            Err(e) => return Err(e),
        };
        let utilisation_rate = match Self::compute_utilisation_rate(total_borrow, total_supply) {
            Ok(v) => v,
            Err(e) => return Err(e),
        };
        let pending_curator_fee_atoms = match self.supply_shares_tracker.shares_to_atoms(
            self.pending_curator_fee_shares,
            RoundingMode::RoundDown,
        ) {
            Ok(v) => v,
            Err(e) => return Err(e),
        };
        let pending_protocol_fee_atoms = match self.supply_shares_tracker.shares_to_atoms(
            self.pending_protocol_fee_shares,
            RoundingMode::RoundDown,
        ) {
            Ok(v) => v,
            Err(e) => return Err(e),
        };
        let lending_interest_rate = match self.last_borrow_interest_rate.adjust_for_utilisation_rate(
            utilisation_rate,
        ) {
            Ok(v) => v,
            Err(e) => return Err(e),
        };
        Ok(
            SupplyVaultSummary {
                last_update_unix_timestamp: self.last_update_unix_timestamp,
                total_supply,
                total_borrow,
                utilisation_rate,
                pending_curator_fee_atoms,
                pending_protocol_fee_atoms,
                borrow_interest_rate: self.last_borrow_interest_rate,
                lending_interest_rate,
            },
        )
    }

    /// `total_borrowed / total_supply`, zero when nothing is borrowed.
    pub fn compute_utilisation_rate(total_borrowed: u64, total_supply: u64) -> (r: LendingResult<
        IFixedPoint,
    >)
        ensures
            r == spec_compute_utilisation_rate(total_borrowed, total_supply),
    {
        match IFixedPoint::from_ratio(total_borrowed, total_supply) {
            Ok(v) => Ok(v),
            Err(e) => if total_borrowed != 0 {
                Err(e)
            } else {
                Ok(IFixedPoint::zero())
            },
        }
    }

    /// Accrues interest up to `unix_timestamp`, see `spec_sync_clock`.
    pub fn sync_clock(
        &mut self,
        unix_timestamp: i64,
        lending_market_fee: UFixedPoint,
        fee_percent_for_protocol_in_bps: u16,
    ) -> (r: LendingResult<()>)
        requires
            old(self).wf(),
        ensures
            (r, *final(self)) == spec_sync_clock(
                *old(self),
                unix_timestamp,
                lending_market_fee,
                fee_percent_for_protocol_in_bps,
            ),
            final(self).wf(),
    {
        if unix_timestamp <= self.last_update_unix_timestamp {
            return Ok(());
        }
        let elapsed = (unix_timestamp as i128 - self.last_update_unix_timestamp as i128) as u64;
        let utilisation_rate = match self.utilisation_rate() {
            Ok(v) => v,
            Err(e) => return Err(e),
        };
        let params = MarketBorrowRateParameters {
            utilisation_rate,
            elapsed_seconds_since_last_update: elapsed,
        };
        let borrow_interest_rate = match self.interest_rate_curve.borrow_rate_per_second(params) {
            Ok(v) => v,
            Err(e) => return Err(e),
        };
        let borrow_rate_during_elapsed = match borrow_interest_rate.coumpounding_interest_rate_during_elapsed_seconds(
            elapsed,
        ) {
            Ok(v) => v,
            Err(e) => return Err(e),
        };
        match self.borrow_shares_tracker.apply_interest_rate(borrow_rate_during_elapsed) {
            Ok(_) => {},
            Err(e) => return Err(e),
        }
        let lending_interest_rate_during_elapsed = match borrow_rate_during_elapsed.adjust_for_utilisation_rate(
            utilisation_rate,
        ) {
            Ok(v) => v,
            Err(e) => return Err(e),
        };
        let fee_shares = match self.supply_shares_tracker.apply_interest_rate_with_fee(
            lending_interest_rate_during_elapsed,
            lending_market_fee,
        ) {
            Ok(v) => v,
            Err(e) => return Err(e),
        };
        let protocol_fee_shares = match bps_from_fixed_point(
            fee_percent_for_protocol_in_bps as u64,
            fee_shares,
        ) {
            Ok(v) => v,
            Err(e) => return Err(e),
        };
        let curator_fee_shares = match fee_shares.safe_sub(protocol_fee_shares) {
            Ok(v) => v,
            Err(e) => return Err(e),
        };
        self.pending_protocol_fee_shares = match self.pending_protocol_fee_shares.safe_add(
            protocol_fee_shares,
        ) {
            Ok(v) => v,
            Err(e) => return Err(e),
        };
        self.pending_curator_fee_shares = match self.pending_curator_fee_shares.safe_add(
            curator_fee_shares,
        ) {
            Ok(v) => v,
            Err(e) => return Err(e),
        };
        self.last_borrow_interest_rate = borrow_interest_rate;
        self.last_update_unix_timestamp = unix_timestamp;
        Ok(())
    }

    /// Mints supply shares for `atoms`.
    pub fn lend(&mut self, atoms: u64) -> (r: LendingResult<UFixedPoint>)
        ensures
            ({
                let (r2, t) = spec_deposit_atoms(old(self).supply_shares_tracker, atoms);
                r == r2 && *final(self) == with_supply(*old(self), t)
            }),
    {
        self.supply_shares_tracker.deposit_atoms(atoms)
    }

    /// Burns supply `shares` for the atoms they are worth, rounded down.
    pub fn withdraw_shares(&mut self, shares: UFixedPoint) -> (r: LendingResult<u64>)
        ensures
            ({
                let (r2, t) = spec_withdraw_shares(
                    old(self).supply_shares_tracker,
                    shares,
                    RoundingMode::RoundDown,
                );
                r == r2 && *final(self) == with_supply(*old(self), t)
            }),
    {
        self.supply_shares_tracker.withdraw_shares(shares, RoundingMode::RoundDown)
    }

    /// Burns the supply shares worth `atoms`.
    pub fn withdraw_atoms(&mut self, atoms: u64) -> (r: LendingResult<UFixedPoint>)
        ensures
            ({
                let (r2, t) = spec_withdraw_atoms(old(self).supply_shares_tracker, atoms);
                r == r2 && *final(self) == with_supply(*old(self), t)
            }),
    {
        self.supply_shares_tracker.withdraw_atoms(atoms)
    }

    /// Mints borrow shares for `atoms` of debt.
    pub fn borrow(&mut self, atoms: u64) -> (r: LendingResult<UFixedPoint>)
        ensures
            ({
                let (r2, t) = spec_deposit_atoms(old(self).borrow_shares_tracker, atoms);
                r == r2 && *final(self) == with_borrow(*old(self), t)
            }),
    {
        self.borrow_shares_tracker.deposit_atoms(atoms)
    }

    /// Burns borrow `shares` for the debt they owe, rounded up.
    pub fn repay_shares(&mut self, shares: UFixedPoint) -> (r: LendingResult<u64>)
        ensures
            ({
                let (r2, t) = spec_withdraw_shares(
                    old(self).borrow_shares_tracker,
                    shares,
                    RoundingMode::RoundUp,
                );
                r == r2 && *final(self) == with_borrow(*old(self), t)
            }),
    {
        self.borrow_shares_tracker.withdraw_shares(shares, RoundingMode::RoundUp)
    }

    /// Burns the borrow shares worth `atoms`.
    pub fn repay_atoms(&mut self, atoms: u64) -> (r: LendingResult<UFixedPoint>)
        ensures
            ({
                let (r2, t) = spec_withdraw_atoms(old(self).borrow_shares_tracker, atoms);
                r == r2 && *final(self) == with_borrow(*old(self), t)
            }),
    {
        self.borrow_shares_tracker.withdraw_atoms(atoms)
    }

    /// Burns the borrow shares worth `atoms`, at most `max_shares`.
    pub fn repay_atoms_capped(&mut self, atoms: u64, max_shares: UFixedPoint) -> (r: LendingResult<
        (u64, UFixedPoint),
    >)
        ensures
            ({
                let (r2, t) = spec_withdraw_atoms_capped(
                    old(self).borrow_shares_tracker,
                    atoms,
                    max_shares,
                    RoundingMode::RoundUp,
                );
                r == r2 && *final(self) == with_borrow(*old(self), t)
            }),
    {
        self.borrow_shares_tracker.withdraw_atoms_capped(atoms, max_shares, RoundingMode::RoundUp)
    }

    /// Redeems the pending protocol fee shares (zeroed even when the
    /// withdrawal fails).
    pub fn redeem_protocol_fees(&mut self) -> (r: LendingResult<u64>)
        ensures
            (r, *final(self)) == spec_redeem(
                SupplyVault { pending_protocol_fee_shares: ufp(0), ..*old(self) },
                old(self).pending_protocol_fee_shares,
            ),
    {
        let shares = self.pending_protocol_fee_shares;
        self.pending_protocol_fee_shares = UFixedPoint::zero();
        self.withdraw_shares(shares)
    }

    /// Redeems the pending curator fee shares (zeroed even when the
    /// withdrawal fails).
    pub fn redeem_curator_fees(&mut self) -> (r: LendingResult<u64>)
        ensures
            (r, *final(self)) == spec_redeem(
                SupplyVault { pending_curator_fee_shares: ufp(0), ..*old(self) },
                old(self).pending_curator_fee_shares,
            ),
    {
        let shares = self.pending_curator_fee_shares;
        self.pending_curator_fee_shares = UFixedPoint::zero();
        self.withdraw_shares(shares)
    }

    /// Cancels the debt of `debt_shares` and charges it to the suppliers.
    pub fn socialize_loss(&mut self, debt_shares: UFixedPoint) -> (r: LendingResult<u64>)
        ensures
            (r, *final(self)) == spec_vault_socialize_loss(*old(self), debt_shares),
    {
        let debt = match self.borrow_shares_tracker.withdraw_shares(debt_shares, RoundingMode::RoundUp) {
            Ok(v) => v,
            Err(e) => return Err(e),
        };
        match self.supply_shares_tracker.socialize_loss_atoms(debt) {
            Ok(_) => {},
            Err(e) => return Err(e),
        }
        Ok(debt)
    }

    /// Gives `atoms` to the suppliers.
    pub fn donate_supply(&mut self, atoms: u64) -> (r: LendingResult<()>)
        ensures
            ({
                let (r2, t) = spec_donate_atoms(old(self).supply_shares_tracker, atoms);
                r == r2 && *final(self) == with_supply(*old(self), t)
            }),
    {
        self.supply_shares_tracker.donate_atoms(atoms)
    }
}

} // verus!
