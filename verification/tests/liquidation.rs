#![allow(dead_code, unused_imports, unused_variables, unused_mut, non_snake_case)]

use autara_lib::constant::{SECONDS_PER_DAY, SECONDS_PER_YEAR};
use autara_lib::error::LendingError;
use autara_lib::interest_rate::interest_rate::InterestRate;
use autara_lib::interest_rate::interest_rate_kind::InterestRateCurveKind;
use autara_lib::interest_rate::interest_rate_per_second::InterestRatePerSecond;
use autara_lib::math::bps::{bps_to_fixed_point, percent_to_bps};
use autara_lib::math::ifixed_point::IFixedPoint;
use autara_lib::math::rounding::RoundingMode;
use autara_lib::math::safe_math::SafeMath;
use autara_lib::math::shares_tracker::SharesTracker;
use autara_lib::math::ufixed_point::UFixedPoint;
use autara_lib::oracle::oracle_config::{
    OracleConfig, OracleProvider, OracleValidationConfig, PythProvider,
};
use autara_lib::oracle::oracle_price::OracleRate;
use autara_lib::pubkey::Pubkey;
use autara_lib::state::borrow_position::BorrowPosition;
use autara_lib::state::collateral_vault::CollateralVault;
use autara_lib::state::global_config::GlobalConfig;
use autara_lib::state::market::Market;
use autara_lib::state::market_config::{LtvConfig, MarketConfig};
use autara_lib::state::supply_position::SupplyPosition;
use autara_lib::state::supply_vault::SupplyVault;
use fixed::types::{I80F48, U64F64};
use std::hash::{BuildHasher, Hasher};
use autara_lib::operation::liquidation::{compute_liquidation, compute_liquidation_with_fee, LiquidationResult, LiquidationResultWithBonus};

const EPS: f64 = 1e-6;

fn assert_eq_float(left: f64, right: f64, max_relative_error: f64) {
    let abs_relative_error = (left - right).abs() / right;
    if abs_relative_error > max_relative_error {
        panic!(
            "assertion failed: left {:?} right {:?} max_relative_error {} abs_relative_error {:?}",
            left, right, max_relative_error, abs_relative_error
        );
    }
}

trait FixedExt: Sized {
    const MAX: Self;
    const MIN: Self;
    fn lit(s: &str) -> Self;
    fn from_num<N: fixed::traits::ToFixed>(n: N) -> Self;
    fn to_float(&self) -> f64;
}

impl FixedExt for IFixedPoint {
    const MAX: Self = IFixedPoint { bits: i128::MAX };
    const MIN: Self = IFixedPoint { bits: i128::MIN };
    fn lit(s: &str) -> Self {
        IFixedPoint::from_bits(I80F48::lit(s).to_bits())
    }
    fn from_num<N: fixed::traits::ToFixed>(n: N) -> Self {
        IFixedPoint::from_bits(I80F48::from_num(n).to_bits())
    }
    fn to_float(&self) -> f64 {
        I80F48::from_bits(self.bits).to_num::<f64>()
    }
}

impl FixedExt for UFixedPoint {
    const MAX: Self = UFixedPoint { bits: u128::MAX };
    const MIN: Self = UFixedPoint { bits: 0 };
    fn lit(s: &str) -> Self {
        UFixedPoint::from_bits(U64F64::lit(s).to_bits())
    }
    fn from_num<N: fixed::traits::ToFixed>(n: N) -> Self {
        UFixedPoint::from_bits(U64F64::from_num(n).to_bits())
    }
    fn to_float(&self) -> f64 {
        U64F64::from_bits(self.bits).to_num::<f64>()
    }
}

trait NewUnique {
    fn new_unique() -> Self;
}

impl NewUnique for Pubkey {
    fn new_unique() -> Self {
        let mut bytes = [0u8; 32];
        for chunk in bytes.chunks_mut(8) {
            let mut h = std::collections::hash_map::RandomState::new().build_hasher();
            h.write_u8(0);
            chunk.copy_from_slice(&h.finish().to_le_bytes());
        }
        Pubkey(bytes)
    }
}

trait Zeroed {
    fn zeroed() -> Self;
}

impl Zeroed for BorrowPosition {
    fn zeroed() -> Self {
        BorrowPosition::default()
    }
}

impl Zeroed for SupplyPosition {
    fn zeroed() -> Self {
        SupplyPosition::default()
    }
}

trait ApproxRate {
    fn approximate_from_apy(apy: f64) -> Self;
}

impl ApproxRate for InterestRatePerSecond {
    fn approximate_from_apy(apy: f64) -> Self {
        let ln = IFixedPoint::from_num((apy + 1.).ln());
        InterestRatePerSecond(ln.safe_div(SECONDS_PER_YEAR).unwrap())
    }
}

trait ApproxCurve {
    fn new_approximate_fixed_apy(apy: f64) -> Self;
}

impl ApproxCurve for InterestRateCurveKind {
    fn new_approximate_fixed_apy(apy: f64) -> Self {
        InterestRateCurveKind::Fixed(InterestRatePerSecond::approximate_from_apy(apy))
    }
}

fn USDC(amount: f64) -> u64 {
    (amount * 1_000_000.0) as u64
}

fn BTC(amount: f64) -> u64 {
    (amount * 100_000_000.0) as u64
}

const USDC_DECIMALS: u64 = 6;
const BTC_DECIMALS: u64 = 8;
const BTC_FEED_ID: [u8; 32] = [1; 32];
const USD_FEED_ID: [u8; 32] = [2; 32];

fn default_btc_oracle_rate() -> OracleRate {
    OracleRate::new(IFixedPoint::from_num(100_000.0), IFixedPoint::from_num(100.0))
}

fn default_usd_oracle_rate() -> OracleRate {
    OracleRate::new(IFixedPoint::from_num(1.0), IFixedPoint::from_num(0.001))
}

fn btc_oracle_config() -> OracleConfig {
    OracleConfig::new(
        OracleProvider::Pyth(PythProvider { feed_id: BTC_FEED_ID, program_id: Pubkey(BTC_FEED_ID) }),
        OracleValidationConfig::default(),
    )
}

fn usd_oracle_config() -> OracleConfig {
    OracleConfig::new(
        OracleProvider::Pyth(PythProvider { feed_id: USD_FEED_ID, program_id: Pubkey(USD_FEED_ID) }),
        OracleValidationConfig::default(),
    )
}

fn create_btc_collateral_vault() -> CollateralVault {
    CollateralVault {
        mint: Pubkey::new_unique(),
        mint_decimals: BTC_DECIMALS,
        vault: Pubkey::new_unique(),
        total_collateral_atoms: 0,
        oracle_config: btc_oracle_config(),
    }
}

fn create_usdc_supply_vault() -> SupplyVault {
    SupplyVault {
        mint: Pubkey::new_unique(),
        mint_decimals: USDC_DECIMALS,
        vault: Pubkey::new_unique(),
        oracle_config: usd_oracle_config(),
        supply_shares_tracker: SharesTracker::default(),
        borrow_shares_tracker: SharesTracker::default(),
        last_borrow_interest_rate: InterestRatePerSecond::approximate_from_apy(10.),
        interest_rate_curve: InterestRateCurveKind::new_approximate_fixed_apy(0.1),
        last_update_unix_timestamp: 0,
        pending_protocol_fee_shares: UFixedPoint::zero(),
        pending_curator_fee_shares: UFixedPoint::zero(),
    }
}

fn test_global_config() -> GlobalConfig {
    GlobalConfig::new(Pubkey::new_unique(), Pubkey::new_unique(), 1000)
}

fn test_config() -> MarketConfig {
    MarketConfig {
        bump: [0; 1],
        index: [0; 1],
        curator: Pubkey::new_unique(),
        ltv_config: LtvConfig {
            max_ltv: IFixedPoint::from_num(0.8),
            unhealthy_ltv: IFixedPoint::from_num(0.9),
            liquidation_bonus: IFixedPoint::from_num(0.05),
        },
        max_utilisation_rate: IFixedPoint::from_num(0.95),
        lending_market_fee_in_bps: percent_to_bps(10) as u16,
        protocol_fee_share_in_bps: percent_to_bps(50) as u16,
        max_supply_atoms: u64::MAX,
    }
}

fn create_empty_btc_usdc_market() -> Market {
    Market {
        collateral_vault: create_btc_collateral_vault(),
        supply_vault: create_usdc_supply_vault(),
        config: test_config(),
    }
}

fn create_btc_usdc_market() -> Market {
    let mut market = create_empty_btc_usdc_market();
    let mut supply_position = SupplyPosition::default();
    market.lend(&mut supply_position, USDC(10_000_000.)).unwrap();
    market
}

    struct LiquidationSetup {
        borrow_decimals: u8,
        supply_oracle: OracleRate,
        collateral_decimals: u8,
        collateral_oracle: OracleRate,
        desired_ltv: IFixedPoint,
    }

    impl LiquidationSetup {
        fn new() -> Self {
            Self {
                borrow_decimals: USDC_DECIMALS as u8,
                supply_oracle: OracleRate::new(IFixedPoint::lit("1"), IFixedPoint::lit("0")),
                collateral_decimals: BTC_DECIMALS as u8,
                collateral_oracle: OracleRate::new(
                    IFixedPoint::lit("100000"),
                    IFixedPoint::lit("0"),
                ),
                desired_ltv: IFixedPoint::lit("0.5"),
            }
        }

        fn calculate_ltv(&self, borrowed_atoms: u64, collateral_atoms: u64) -> IFixedPoint {
            if borrowed_atoms == 0 {
                return IFixedPoint::zero();
            }
            self.supply_oracle
                .borrow_value(borrowed_atoms, self.borrow_decimals)
                .unwrap()
                .safe_div(
                    self.collateral_oracle
                        .collateral_value(collateral_atoms, self.collateral_decimals)
                        .unwrap(),
                )
                .unwrap()
        }

        fn calculate_ltv_after_liquidation(
            &self,
            borrowed_atoms: u64,
            collateral_atoms: u64,
            borrowed_atoms_to_repay: u64,
            collateral_atoms_to_liquidate: u64,
            collateral_atoms_liquidation_fee: u64,
        ) -> IFixedPoint {
            let borrowed_atoms_after_liquidation = borrowed_atoms - borrowed_atoms_to_repay;
            let collateral_atoms_after_liquidation =
                collateral_atoms - collateral_atoms_to_liquidate - collateral_atoms_liquidation_fee;
            self.calculate_ltv(
                borrowed_atoms_after_liquidation,
                collateral_atoms_after_liquidation,
            )
        }

        fn assert_ltv_close_to_target(&self, actual_ltv: IFixedPoint, target_ltv: IFixedPoint) {
            assert!(actual_ltv <= target_ltv);
            assert!(actual_ltv > target_ltv.safe_sub(IFixedPoint::lit("0.000001")).unwrap());
        }
    }



#[test]
    fn check_adjust_for_max_repay() {
        let mut liquidation_result = LiquidationResultWithBonus {
            borrowed_atoms_to_repay: 1000,
            collateral_atoms_to_liquidate: 2000,
            collateral_atoms_liquidation_bonus: 100,
        };
        liquidation_result.adjust_for_max_repay(500);
        assert_eq!(liquidation_result.borrowed_atoms_to_repay, 500);
        assert_eq!(liquidation_result.collateral_atoms_to_liquidate, 1000);
        assert_eq!(liquidation_result.collateral_atoms_liquidation_bonus, 50);
    }

#[test]
    fn check_ltv_post_liquidation() {
        let setup = LiquidationSetup::new();
        let borrowed_atoms = USDC(80000.);
        let collateral_atoms = BTC(1.);
        let LiquidationResult {
            collateral_atoms_to_liquidate,
            borrowed_atoms_to_repay,
        } = compute_liquidation(
            borrowed_atoms,
            setup.borrow_decimals,
            &setup.supply_oracle,
            collateral_atoms,
            setup.collateral_decimals,
            &setup.collateral_oracle,
            setup.desired_ltv,
        )
        .unwrap();
        assert_eq!(collateral_atoms_to_liquidate, 60000000);
        assert_eq!(borrowed_atoms_to_repay, 60000000000);
        assert!(borrowed_atoms_to_repay < borrowed_atoms);
        let ltv_after_liquidation = setup.calculate_ltv_after_liquidation(
            borrowed_atoms,
            collateral_atoms,
            borrowed_atoms_to_repay,
            collateral_atoms_to_liquidate,
            0,
        );
        setup.assert_ltv_close_to_target(ltv_after_liquidation, setup.desired_ltv);
    }

#[test]
    fn check_liquidation_with_fee() {
        let setup = LiquidationSetup::new();
        let borrowed_atoms = USDC(80000.);
        let collateral_atoms = BTC(1.);
        let fee = IFixedPoint::lit("0.1");
        let liquidation_result = compute_liquidation_with_fee(
            borrowed_atoms,
            setup.borrow_decimals,
            &setup.supply_oracle,
            collateral_atoms,
            setup.collateral_decimals,
            &setup.collateral_oracle,
            setup.desired_ltv,
            fee,
            u64::MAX,
        )
        .unwrap();
        let ltv_after_liquidation = setup.calculate_ltv_after_liquidation(
            borrowed_atoms,
            collateral_atoms,
            liquidation_result.borrowed_atoms_to_repay,
            liquidation_result.collateral_atoms_to_liquidate,
            liquidation_result.collateral_atoms_liquidation_bonus,
        );
        setup.assert_ltv_close_to_target(ltv_after_liquidation, setup.desired_ltv);
        assert!(liquidation_result.borrowed_atoms_to_repay < borrowed_atoms);
        assert!(
            liquidation_result
                .total_collateral_atoms_to_liquidate()
                .unwrap()
                < collateral_atoms
        );
    }

#[test]
    fn check_full_liquidation_with_reduced_fee() {
        let setup = LiquidationSetup::new();
        let borrowed_atoms = USDC(90910.);
        let collateral_atoms = BTC(1.);
        let fee = IFixedPoint::lit("0.1");
        let liquidation_result = compute_liquidation_with_fee(
            borrowed_atoms,
            setup.borrow_decimals,
            &setup.supply_oracle,
            collateral_atoms,
            setup.collateral_decimals,
            &setup.collateral_oracle,
            setup.desired_ltv,
            fee,
            u64::MAX,
        )
        .unwrap();
        let ltv_after_liquidation = setup.calculate_ltv_after_liquidation(
            borrowed_atoms,
            collateral_atoms,
            liquidation_result.borrowed_atoms_to_repay,
            liquidation_result.collateral_atoms_to_liquidate,
            liquidation_result.collateral_atoms_liquidation_bonus,
        );
        let liquidation_fee =
            liquidation_result.collateral_atoms_liquidation_bonus as f64 / collateral_atoms as f64;
        assert!(liquidation_fee < fee.to_float() - 0.0001);
        assert!(ltv_after_liquidation.is_zero());
        assert!(liquidation_result.borrowed_atoms_to_repay == borrowed_atoms);
        assert!(
            liquidation_result
                .total_collateral_atoms_to_liquidate()
                .unwrap()
                == collateral_atoms
        );
    }

