#![allow(dead_code, unused_imports, unused_variables, unused_mut, non_snake_case)]

use autara_lib::constant::{SECONDS_PER_DAY, SECONDS_PER_YEAR};
use autara_lib::error::LendingError;
use autara_lib::interest_rate::interest_rate::InterestRate;
use autara_lib::interest_rate::interest_rate_kind::InterestRateCurveKind;
use autara_lib::interest_rate::interest_rate_per_second::InterestRatePerSecond;
use autara_lib::math::bps::{bps_to_fixed_point, percent_to_bps};
use autara_lib::math::ifixed_point::IFixedPoint;
use autara_lib::math::rounding::RoundingMode;
use autara_lib::math::safe_math::SafeMath;
use autara_lib::math::shares_tracker::SharesTracker;
use autara_lib::math::ufixed_point::UFixedPoint;
use autara_lib::oracle::oracle_config::{
    OracleConfig, OracleProvider, OracleValidationConfig, PythProvider,
};
use autara_lib::oracle::oracle_price::OracleRate;
use autara_lib::pubkey::Pubkey;
use autara_lib::state::borrow_position::BorrowPosition;
use autara_lib::state::collateral_vault::CollateralVault;
use autara_lib::state::global_config::GlobalConfig;
use autara_lib::state::market::Market;
use autara_lib::state::market_config::{LtvConfig, MarketConfig};
use autara_lib::state::supply_position::SupplyPosition;
use autara_lib::state::supply_vault::SupplyVault;
use fixed::types::{I80F48, U64F64};
use std::hash::{BuildHasher, Hasher};
use autara_lib::state::market_wrapper::MarketWrapper;

const EPS: f64 = 1e-6;

fn assert_eq_float(left: f64, right: f64, max_relative_error: f64) {
    let abs_relative_error = (left - right).abs() / right;
    if abs_relative_error > max_relative_error {
        panic!(
            "assertion failed: left {:?} right {:?} max_relative_error {} abs_relative_error {:?}",
            left, right, max_relative_error, abs_relative_error
        );
    }
}

trait FixedExt: Sized {
    const MAX: Self;
    const MIN: Self;
    fn lit(s: &str) -> Self;
    fn from_num<N: fixed::traits::ToFixed>(n: N) -> Self;
    fn to_float(&self) -> f64;
}

impl FixedExt for IFixedPoint {
    const MAX: Self = IFixedPoint { bits: i128::MAX };
    const MIN: Self = IFixedPoint { bits: i128::MIN };
    fn lit(s: &str) -> Self {
        IFixedPoint::from_bits(I80F48::lit(s).to_bits())
    }
    fn from_num<N: fixed::traits::ToFixed>(n: N) -> Self {
        IFixedPoint::from_bits(I80F48::from_num(n).to_bits())
    }
    fn to_float(&self) -> f64 {
        I80F48::from_bits(self.bits).to_num::<f64>()
    }
}

impl FixedExt for UFixedPoint {
    const MAX: Self = UFixedPoint { bits: u128::MAX };
    const MIN: Self = UFixedPoint { bits: 0 };
    fn lit(s: &str) -> Self {
        UFixedPoint::from_bits(U64F64::lit(s).to_bits())
    }
    fn from_num<N: fixed::traits::ToFixed>(n: N) -> Self {
        UFixedPoint::from_bits(U64F64::from_num(n).to_bits())
    }
    fn to_float(&self) -> f64 {
        U64F64::from_bits(self.bits).to_num::<f64>()
    }
}

trait NewUnique {
    fn new_unique() -> Self;
}

impl NewUnique for Pubkey {
    fn new_unique() -> Self {
        let mut bytes = [0u8; 32];
        for chunk in bytes.chunks_mut(8) {
            let mut h = std::collections::hash_map::RandomState::new().build_hasher();
            h.write_u8(0);
            chunk.copy_from_slice(&h.finish().to_le_bytes());
        }
        Pubkey(bytes)
    }
}

trait Zeroed {
    fn zeroed() -> Self;
}

impl Zeroed for BorrowPosition {
    fn zeroed() -> Self {
        BorrowPosition::default()
    }
}

impl Zeroed for SupplyPosition {
    fn zeroed() -> Self {
        SupplyPosition::default()
    }
}

trait ApproxRate {
    fn approximate_from_apy(apy: f64) -> Self;
}

impl ApproxRate for InterestRatePerSecond {
    fn approximate_from_apy(apy: f64) -> Self {
        let ln = IFixedPoint::from_num((apy + 1.).ln());
        InterestRatePerSecond(ln.safe_div(SECONDS_PER_YEAR).unwrap())
    }
}

trait ApproxCurve {
    fn new_approximate_fixed_apy(apy: f64) -> Self;
}

impl ApproxCurve for InterestRateCurveKind {
    fn new_approximate_fixed_apy(apy: f64) -> Self {
        InterestRateCurveKind::Fixed(InterestRatePerSecond::approximate_from_apy(apy))
    }
}

fn USDC(amount: f64) -> u64 {
    (amount * 1_000_000.0) as u64
}

fn BTC(amount: f64) -> u64 {
    (amount * 100_000_000.0) as u64
}

const USDC_DECIMALS: u64 = 6;
const BTC_DECIMALS: u64 = 8;
const BTC_FEED_ID: [u8; 32] = [1; 32];
const USD_FEED_ID: [u8; 32] = [2; 32];

fn default_btc_oracle_rate() -> OracleRate {
    OracleRate::new(IFixedPoint::from_num(100_000.0), IFixedPoint::from_num(100.0))
}

fn default_usd_oracle_rate() -> OracleRate {
    OracleRate::new(IFixedPoint::from_num(1.0), IFixedPoint::from_num(0.001))
}

fn btc_oracle_config() -> OracleConfig {
    OracleConfig::new(
        OracleProvider::Pyth(PythProvider { feed_id: BTC_FEED_ID, program_id: Pubkey(BTC_FEED_ID) }),
        OracleValidationConfig::default(),
    )
}

fn usd_oracle_config() -> OracleConfig {
    OracleConfig::new(
        OracleProvider::Pyth(PythProvider { feed_id: USD_FEED_ID, program_id: Pubkey(USD_FEED_ID) }),
        OracleValidationConfig::default(),
    )
}

fn create_btc_collateral_vault() -> CollateralVault {
    CollateralVault {
        mint: Pubkey::new_unique(),
        mint_decimals: BTC_DECIMALS,
        vault: Pubkey::new_unique(),
        total_collateral_atoms: 0,
        oracle_config: btc_oracle_config(),
    }
}

fn create_usdc_supply_vault() -> SupplyVault {
    SupplyVault {
        mint: Pubkey::new_unique(),
        mint_decimals: USDC_DECIMALS,
        vault: Pubkey::new_unique(),
        oracle_config: usd_oracle_config(),
        supply_shares_tracker: SharesTracker::default(),
        borrow_shares_tracker: SharesTracker::default(),
        last_borrow_interest_rate: InterestRatePerSecond::approximate_from_apy(10.),
        interest_rate_curve: InterestRateCurveKind::new_approximate_fixed_apy(0.1),
        last_update_unix_timestamp: 0,
        pending_protocol_fee_shares: UFixedPoint::zero(),
        pending_curator_fee_shares: UFixedPoint::zero(),
    }
}

fn test_global_config() -> GlobalConfig {
    GlobalConfig::new(Pubkey::new_unique(), Pubkey::new_unique(), 1000)
}

fn test_config() -> MarketConfig {
    MarketConfig {
        bump: [0; 1],
        index: [0; 1],
        curator: Pubkey::new_unique(),
        ltv_config: LtvConfig {
            max_ltv: IFixedPoint::from_num(0.8),
            unhealthy_ltv: IFixedPoint::from_num(0.9),
            liquidation_bonus: IFixedPoint::from_num(0.05),
        },
        max_utilisation_rate: IFixedPoint::from_num(0.95),
        lending_market_fee_in_bps: percent_to_bps(10) as u16,
        protocol_fee_share_in_bps: percent_to_bps(50) as u16,
        max_supply_atoms: u64::MAX,
    }
}

fn create_empty_btc_usdc_market() -> Market {
    Market {
        collateral_vault: create_btc_collateral_vault(),
        supply_vault: create_usdc_supply_vault(),
        config: test_config(),
    }
}

fn create_btc_usdc_market() -> Market {
    let mut market = create_empty_btc_usdc_market();
    let mut supply_position = SupplyPosition::default();
    market.lend(&mut supply_position, USDC(10_000_000.)).unwrap();
    market
}



    fn btc_usd_market() -> MarketWrapper {
        MarketWrapper::new(
            create_empty_btc_usdc_market(),
            default_usd_oracle_rate(),
            default_btc_oracle_rate(),
        )
    }

#[test]
    fn x_deposit_then_withdraw_step_by_step() {
        let mut market = btc_usd_market();
        let mut positions = [SupplyPosition::zeroed(); 5];
        let base = USDC(100_000.);
        for (i, position) in positions.iter_mut().enumerate() {
            let usdc_supplied = (i + 1) as u64 * base;
            market.lend(position, usdc_supplied).unwrap();
            assert_eq!(position.deposited_atoms(), usdc_supplied);
        }
        let supply_snapshot = market.market().supply_vault().get_summary().unwrap();
        assert_eq!(
            supply_snapshot.total_supply,
            base * (positions.len() as u64 * (positions.len() as u64 + 1)) / 2
        );
        for _ in 0..10 {
            for (i, position) in positions.iter_mut().enumerate() {
                let to_withdraw = (i + 1) as u64 * base / 10;
                market.withdraw(position, to_withdraw).unwrap();
            }
        }
        let supply_snapshot = market.market().supply_vault().get_summary().unwrap();
        assert_eq!(supply_snapshot.total_supply, 0);
    }

#[test]
    fn deposit_borrow_compounds_repay_withdraw() {
        let mut market = btc_usd_market();
        let mut supply_position_one = SupplyPosition::zeroed();
        let mut supply_position_two = SupplyPosition::zeroed();
        let mut borrow_position = BorrowPosition::zeroed();
        let usdc_supplied_one = USDC(1_000_000.);
        let usdc_supplied_two = USDC(500_000.);
        market
            .lend(&mut supply_position_one, usdc_supplied_one)
            .unwrap();
        market
            .lend(&mut supply_position_two, usdc_supplied_two)
            .unwrap();
        let btc_collateral = BTC(1.);
        market
            .deposit_collateral(&mut borrow_position, btc_collateral)
            .unwrap();
        market.borrow(&mut borrow_position, USDC(50_000.)).unwrap();
        let utilisation = market
            .market()
            .supply_vault()
            .get_summary()
            .unwrap()
            .utilisation_rate
            .to_float();
        let health = market.borrow_position_health(&borrow_position).unwrap();
        market.sync_clock(SECONDS_PER_YEAR as i64).unwrap();
        let health_after_one_year = market.borrow_position_health(&borrow_position).unwrap();
        assert_eq_float(
            (health_after_one_year.borrowed_atoms - health.borrowed_atoms) as f64
                / health.borrowed_atoms as f64,
            0.10,   // 10% apy
            0.0001  // 1bps error
        );
        market.repay_all(&mut borrow_position).unwrap();
        let position_one_withdrawn = market.withdraw_all(&mut supply_position_one).unwrap();
        assert_eq_float(
            (position_one_withdrawn - usdc_supplied_one) as f64 / usdc_supplied_one as f64,
            0.10 * 0.9 * utilisation, // 10% apy with 10% fees
            0.0001                    // 1bps error
        );
        let position_two_withdrawn = market.withdraw_all(&mut supply_position_two).unwrap();
        assert_eq_float(
            (position_two_withdrawn - usdc_supplied_two) as f64 / usdc_supplied_two as f64,
            0.10 * 0.9 * utilisation, //  10% apy with 10% fees
            0.0001                    // 1bps error
        );
        let curator_fee = market.market_mut().redeem_curator_fess().unwrap() as f64;
        assert_eq_float(
            curator_fee,
            (position_one_withdrawn - usdc_supplied_one + position_two_withdrawn
                - usdc_supplied_two) as f64
                / 0.9
                * 0.05
        , EPS);
        let protocol_fee = market.market_mut().redeem_protocol_fees().unwrap() as f64;
        assert_eq_float(
            protocol_fee,
            (position_one_withdrawn - usdc_supplied_one + position_two_withdrawn
                - usdc_supplied_two) as f64
                / 0.9
                * 0.05
        , EPS);
    }

#[test]
    fn check_cant_liquidated_healthy_position() {
        let mut market = btc_usd_market();
        let mut supply_position = SupplyPosition::zeroed();
        let mut borrow_position = BorrowPosition::zeroed();
        let usdc_supplied = USDC(1_000_000.);
        market.lend(&mut supply_position, usdc_supplied).unwrap();
        let btc_collateral = BTC(1.);
        market
            .deposit_collateral(&mut borrow_position, btc_collateral)
            .unwrap();
        market.borrow(&mut borrow_position, USDC(50_000.)).unwrap();
        assert_eq!(
            market
                .liquidate(&mut borrow_position, USDC(25_000.))
                .unwrap_err(),
            LendingError::PositionIsHealthy
        );
    }

#[test]
    fn check_can_liquidated_unhealthy_position() {
        for oracle_rate in [1, 10, 100, 1000, 10000, 20000, 50000, 55000] {
            let mut market = btc_usd_market();
            let mut supply_position = SupplyPosition::zeroed();
            let mut borrow_position = BorrowPosition::zeroed();
            let usdc_supplied = USDC(1_000_000.);
            market.lend(&mut supply_position, usdc_supplied).unwrap();
            let btc_collateral = BTC(1.);
            market
                .deposit_collateral(&mut borrow_position, btc_collateral)
                .unwrap();
            market.borrow(&mut borrow_position, USDC(50_000.)).unwrap();
            market = MarketWrapper::new(*market.market(), *market.supply_oracle(), OracleRate::new(IFixedPoint::from_num(oracle_rate), IFixedPoint::from_num(0)));
            market
                .liquidate(&mut borrow_position, USDC(25_000.))
                .unwrap();
        }
    }

#[test]
    fn check_cant_withdraw_more_than_deposited_if_no_compound() {
        for deposit in [1u64, 10, 100, 10u64.pow(5), 10u64.pow(10), 10u64.pow(18)] {
            for initial_supply in [
                1u64,
                20,
                300,
                4 * 10u64.pow(5),
                5 * 10u64.pow(10),
                6 * 10u64.pow(18),
            ] {
                for steps in [1, 2, 3, 10] {
                    let mut market = btc_usd_market();
                    let mut initial_position = SupplyPosition::zeroed();
                    let mut position = SupplyPosition::zeroed();
                    market.lend(&mut initial_position, initial_supply).unwrap();
                    market.lend(&mut position, deposit).unwrap();
                    let withdraw_per_step = deposit / steps;
                    let mut total_withdrawn = 0;
                    for _ in 0..steps - 1 {
                        market.withdraw(&mut position, withdraw_per_step).unwrap();
                        total_withdrawn += withdraw_per_step;
                    }
                    market
                        .withdraw(&mut position, deposit - total_withdrawn)
                        .unwrap();
                    let withdraw = market.withdraw_all(&mut initial_position).unwrap();
                    market.withdraw(&mut position, 1).unwrap_err();
                    assert_eq!(withdraw, initial_supply);
                }
            }
        }
    }

#[test]
    fn check_cant_repay_more_than_borrowed() {
        for borrow_amount in [1u64, 10, 100, 1000] {
            for steps in [1, 2, 3, 10] {
                let mut market = btc_usd_market();
                let mut supply_position = SupplyPosition::zeroed();
                let mut borrow_position = BorrowPosition::zeroed();

                // Provide large liquidity to the market (similar to working test)
                let supply_amount = USDC(1_000_000.);
                market.lend(&mut supply_position, supply_amount).unwrap();

                // Deposit collateral (use same amount as working test)
                let btc_collateral = BTC(1.);
                market
                    .deposit_collateral(&mut borrow_position, btc_collateral)
                    .unwrap();

                // Borrow the test amount (keep it small)
                market
                    .borrow(&mut borrow_position, USDC(borrow_amount as f64))
                    .unwrap();

                // Repay step by step
                let repay_per_step = borrow_amount / steps;
                let mut total_repaid = 0;
                for _ in 0..steps - 1 {
                    market
                        .repay(&mut borrow_position, USDC(repay_per_step as f64))
                        .unwrap();
                    total_repaid += repay_per_step;
                }
                // Repay the remaining amount
                market
                    .repay(
                        &mut borrow_position,
                        USDC((borrow_amount - total_repaid) as f64),
                    )
                    .unwrap();

                // This should fail - trying to repay more than borrowed
                market.repay(&mut borrow_position, USDC(1.)).unwrap_err();
            }
        }
    }

#[test]
    fn cant_socialize_loss_healthy_position() {
        let mut market = btc_usd_market();
        let mut supply_position = SupplyPosition::zeroed();
        let mut borrow_position = BorrowPosition::zeroed();
        let usdc_supplied = USDC(1_000_000.);
        market.lend(&mut supply_position, usdc_supplied).unwrap();
        let btc_collateral = BTC(1.);
        market
            .deposit_collateral(&mut borrow_position, btc_collateral)
            .unwrap();
        market.borrow(&mut borrow_position, USDC(50_000.)).unwrap();
        assert_eq!(
            market.socialize_loss(&mut borrow_position).unwrap_err(),
            LendingError::CannotSocializeDebtForHealthyPosition
        );
    }

#[test]
    fn can_socialize_loss_unhealthy_position() {
        let mut market = btc_usd_market();
        let mut supply_position = SupplyPosition::zeroed();
        let mut borrow_position = BorrowPosition::zeroed();
        let usdc_supplied = USDC(1_000_000.);
        market.lend(&mut supply_position, usdc_supplied).unwrap();
        let btc_collateral = BTC(1.);
        market
            .deposit_collateral(&mut borrow_position, btc_collateral)
            .unwrap();
        market.borrow(&mut borrow_position, USDC(50_000.)).unwrap();
        market = MarketWrapper::new(*market.market(), *market.supply_oracle(), OracleRate::new(IFixedPoint::from_num(0.001), IFixedPoint::from_num(0)));
        let (collateral_atoms, repaid_atoms) = market.socialize_loss(&mut borrow_position).unwrap();
        assert!(collateral_atoms > 0);
        assert!(repaid_atoms > 0);
    }

#[test]
    fn borrow_near_max_ltv_then_price_drop_triggers_liquidation() {
        let mut market = btc_usd_market();
        let mut supply_position = SupplyPosition::zeroed();
        let mut borrow_position = BorrowPosition::zeroed();
        market.lend(&mut supply_position, USDC(1_000_000.)).unwrap();
        market
            .deposit_collateral(&mut borrow_position, BTC(1.))
            .unwrap();
        // BTC lower_bound = 99,900, max_ltv = 80%, borrow 79k to stay under
        market.borrow(&mut borrow_position, USDC(79_000.)).unwrap();
        let health = market.borrow_position_health(&borrow_position).unwrap();
        assert!(health.ltv < market.market().config().ltv_config().max_ltv);
        // Price drop to 60k makes LTV = 79k/60k = 131% > unhealthy_ltv (90%)
        market = MarketWrapper::new(*market.market(), *market.supply_oracle(), OracleRate::new(IFixedPoint::from_num(60_000), IFixedPoint::from_num(0)));
        let health_after = market.borrow_position_health(&borrow_position).unwrap();
        assert!(health_after.ltv > market.market().config().ltv_config().unhealthy_ltv);
        market
            .liquidate(&mut borrow_position, USDC(10_000.))
            .unwrap();
    }

#[test]
    fn dust_amounts_dont_break_accounting() {
        let mut market = btc_usd_market();
        let mut supply_position = SupplyPosition::zeroed();
        let mut borrow_position = BorrowPosition::zeroed();
        // Supply 1 atom
        market.lend(&mut supply_position, 10u64.pow(10)).unwrap();
        market.lend(&mut supply_position, 1).unwrap();
        assert_eq!(
            market.market().supply_vault().total_supply().unwrap(),
            10u64.pow(10) + 1
        );
        // Withdraw 1 atom
        market.withdraw(&mut supply_position, 1).unwrap();
        assert_eq!(
            market.market().supply_vault().total_supply().unwrap(),
            10u64.pow(10)
        );
        // Deposit 1 satoshi
        market.deposit_collateral(&mut borrow_position, 1).unwrap();
        assert_eq!(
            market.market().collateral_vault().total_collateral_atoms(),
            1
        );
    }

#[test]
    fn interest_accrual_after_long_period() {
        let mut market = btc_usd_market();
        let mut supply_position = SupplyPosition::zeroed();
        let mut borrow_position = BorrowPosition::zeroed();
        market.lend(&mut supply_position, USDC(1_000_000.)).unwrap();
        market
            .deposit_collateral(&mut borrow_position, BTC(10.))
            .unwrap();
        market.borrow(&mut borrow_position, USDC(100_000.)).unwrap();
        let debt_before = market
            .borrow_position_health(&borrow_position)
            .unwrap()
            .borrowed_atoms;
        // 10 years of interest at 10% APY
        market.sync_clock(10 * SECONDS_PER_YEAR as i64).unwrap();
        let debt_after = market
            .borrow_position_health(&borrow_position)
            .unwrap()
            .borrowed_atoms;
        // After 10 years at 10% APY, debt should be ~2.59x original (1.1^10)
        let ratio = debt_after as f64 / debt_before as f64;
        assert!(ratio > 2.5 && ratio < 2.7);
    }

#[test]
    fn collateral_price_crash_to_near_zero() {
        let mut market = btc_usd_market();
        let mut supply_position = SupplyPosition::zeroed();
        let mut borrow_position = BorrowPosition::zeroed();
        market.lend(&mut supply_position, USDC(1_000_000.)).unwrap();
        market
            .deposit_collateral(&mut borrow_position, BTC(1.))
            .unwrap();
        market.borrow(&mut borrow_position, USDC(50_000.)).unwrap();
        // Price crashes to $1 (99.999% drop)
        market = MarketWrapper::new(*market.market(), *market.supply_oracle(), OracleRate::new(IFixedPoint::from_num(1), IFixedPoint::from_num(0)));
        // Position is deeply underwater, socialize the loss
        // Returns (debt_atoms, collateral_atoms)
        let (debt_atoms, collateral_atoms) = market.socialize_loss(&mut borrow_position).unwrap();
        assert_eq!(collateral_atoms, BTC(1.));
        assert!(debt_atoms >= USDC(50_000.)); // debt includes any accrued interest
                                              // Supplier takes the loss
        let withdrawn = market.withdraw_all(&mut supply_position).unwrap();
        assert!(withdrawn < USDC(1_000_000.));
    }

#[test]
    fn multiple_borrowers_compete_for_liquidity() {
        let mut market = btc_usd_market();
        let mut supply = SupplyPosition::zeroed();
        let mut borrow1 = BorrowPosition::zeroed();
        let mut borrow2 = BorrowPosition::zeroed();
        market.lend(&mut supply, USDC(100_000.)).unwrap();
        market.deposit_collateral(&mut borrow1, BTC(1.)).unwrap();
        market.deposit_collateral(&mut borrow2, BTC(1.)).unwrap();
        // First borrower takes 50%
        market.borrow(&mut borrow1, USDC(50_000.)).unwrap();
        // Second borrower takes another 40%
        market.borrow(&mut borrow2, USDC(40_000.)).unwrap();
        // Utilization at 90%
        let util = market
            .market()
            .supply_vault()
            .utilisation_rate()
            .unwrap()
            .to_float();
        assert!(util > 0.89 && util < 0.91);
        // Third borrow of 15k should fail (exceeds available)
        let result = market.borrow(&mut borrow1, USDC(15_000.));
        assert!(result.is_err());
    }

#[test]
    fn partial_liquidation_reduces_ltv() {
        let mut market = btc_usd_market();
        let mut supply = SupplyPosition::zeroed();
        let mut borrow = BorrowPosition::zeroed();
        market.lend(&mut supply, USDC(1_000_000.)).unwrap();
        market.deposit_collateral(&mut borrow, BTC(1.)).unwrap();
        market.borrow(&mut borrow, USDC(70_000.)).unwrap();
        // Price drops significantly to trigger liquidation (70k / 75k = 93% > 90%)
        market = MarketWrapper::new(*market.market(), *market.supply_oracle(), OracleRate::new(IFixedPoint::from_num(75_000), IFixedPoint::from_num(0)));
        let health_before = market.borrow_position_health(&borrow).unwrap();
        assert!(health_before.ltv > market.market().config().ltv_config().unhealthy_ltv);
        // Partial liquidation
        let result = market.liquidate(&mut borrow, USDC(10_000.)).unwrap();
        assert!(result.liquidation_result_with_bonus.borrowed_atoms_to_repay > 0);
        // Position should be healthier after
        let health_after = market.borrow_position_health(&borrow).unwrap();
        assert!(health_after.ltv < health_before.ltv);
    }

