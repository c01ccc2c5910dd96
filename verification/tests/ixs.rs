use autara_lib::ixs::borrow::{deposit_apl_collateral_ix, repay_apl_ix, withdraw_apl_collateral_ix};
use autara_lib::ixs::borrow::{withdraw_repay_apl_ix, WithdrawRepayAplInstruction};
use autara_lib::ixs::admin::reedeem_protocol_fees_ix;
use autara_lib::liquidator::propamm::{execute_trade_instruction, PropAmm, Quote, Side};
use autara_lib::event::{AutaraEvent, DonateSupplyEvent, SocializeLossEvent};
use autara_lib::interest_rate::adaptive_curve::AdaptiveInterestRateCurve;
use autara_lib::interest_rate::interest_rate_kind::InterestRateCurveKind;
use autara_lib::interest_rate::interest_rate_per_second::InterestRatePerSecond;
use autara_lib::interest_rate::polyline::{PolylineInterestRateCurve, PolylineInterestRatePoint};
use autara_lib::ixs::admin::{create_global_config_ix, update_global_config_ix, UpdateGlobalConfigInstruction};
use autara_lib::ixs::borrow::{borrow_apl_ix, borrow_deposit_apl_ix, create_borrow_position_ix, BorrowDepositAplInstruction};
use autara_lib::ixs::instruction::{AccountMeta, Instruction};
use autara_lib::ixs::liquidation::{liquidate_ix, socialize_loss_ix};
use autara_lib::ixs::log::log_ix;
use autara_lib::ixs::market::{create_market_ix, reedeem_curator_fees_ix, update_config_ix, CreateMarketInstruction, UpdateConfigInstruction};
use autara_lib::ixs::supply::{create_supply_position_ix, donate_supply_ix, supply_apl_ix, withdraw_supply_ix};
use autara_lib::ixs::types::AurataInstruction;
use autara_lib::ixs::wire::put_fixed;
use autara_lib::math::ifixed_point::IFixedPoint;
use autara_lib::oracle::oracle_config::{OracleConfig, OracleProvider, OracleValidationConfig, PythProvider};
use autara_lib::pubkey::Pubkey;
use autara_lib::state::market_config::LtvConfig;
use autara_lib::token::{create_ata_ix, get_associated_token_address, TokenInfo};

fn key(b: u8) -> Pubkey {
    Pubkey([b; 32])
}

fn arch(k: Pubkey) -> arch_program::pubkey::Pubkey {
    arch_program::pubkey::Pubkey(k.0)
}

fn token_program() -> Pubkey {
    Pubkey(apl_token::id().0)
}

fn zero_oracle_config() -> OracleConfig {
    OracleConfig {
        oracle_provider: OracleProvider::Pyth(PythProvider { feed_id: [0; 32], program_id: Pubkey([0; 32]) }),
        validation_config: OracleValidationConfig {
            max_age: None,
            min_relative_confidence: None,
            min_signature_threshold: None,
        },
    }
}

fn wire_len_of_curve(c: &InterestRateCurveKind) -> usize {
    let mut out = Vec::new();
    c.write_to(&mut out);
    out.len()
}

#[test]
fn opaque_blob_sizes_match_idl() {
    let mut fixed = Vec::new();
    put_fixed(&mut fixed, IFixedPoint { bits: 0 });
    assert_eq!(fixed.len(), 16, "IFixedPoint");
    let mut ltv = Vec::new();
    LtvConfig::default().write_to(&mut ltv);
    assert_eq!(ltv.len(), 48, "LtvConfig = 3x IFixedPoint");
    let mut oracle = Vec::new();
    zero_oracle_config().write_to(&mut oracle);
    assert_eq!(oracle.len(), 257, "OracleConfig");
}

#[test]
fn interest_rate_curve_kind_variant_sizes_match_idl() {
    let zero = IFixedPoint { bits: 0 };
    let point = PolylineInterestRatePoint { utilization_rate_bps: 0, borrow_rate_bps: 0 };
    let fixed = InterestRateCurveKind::Fixed(InterestRatePerSecond(zero));
    let polyline = InterestRateCurveKind::Polyline(PolylineInterestRateCurve { points: [point; 8] });
    let adaptive = InterestRateCurveKind::Adaptive(AdaptiveInterestRateCurve {
        rate_at_target: InterestRatePerSecond(zero),
    });
    assert_eq!(wire_len_of_curve(&fixed), 1 + 16);
    assert_eq!(wire_len_of_curve(&polyline), 1 + 64);
    assert_eq!(wire_len_of_curve(&adaptive), 1 + 16);
}

#[test]
fn supply_apl_ix_layout() {
    let ix = supply_apl_ix(key(1), key(2), key(3), key(4), key(5), key(6), key(7), key(8), 1234);
    let mut expected = vec![2u8];
    expected.extend_from_slice(&1234u64.to_le_bytes());
    assert_eq!(ix.data, expected);
    assert_eq!(ix.program_id, key(1));
    assert_eq!(ix.accounts.len(), 9);
    assert_eq!(ix.accounts[0], AccountMeta { pubkey: key(2), is_signer: false, is_writable: true });
    assert_eq!(ix.accounts[2], AccountMeta { pubkey: key(4), is_signer: true, is_writable: false });
    assert_eq!(ix.accounts[5].pubkey, token_program());
    assert_ne!(ix.accounts[5].pubkey, key(0));
    assert_eq!(ix.accounts[8], AccountMeta { pubkey: key(1), is_signer: false, is_writable: false });
}

#[test]
fn withdraw_supply_ix_writes_flag() {
    let ix = withdraw_supply_ix(key(1), key(2), key(3), key(4), key(5), key(6), key(7), key(8), 7, true);
    assert_eq!(ix.data, vec![3u8, 7, 0, 0, 0, 0, 0, 0, 0, 1]);
}

#[test]
fn donate_supply_ix_layout() {
    let ix = donate_supply_ix(key(1), key(2), key(3), key(4), key(5), 9);
    assert_eq!(ix.data[0], 19);
    assert_eq!(ix.accounts.len(), 6);
    assert_eq!(ix.accounts[4].pubkey, token_program());
    assert!(ix.accounts[1].is_signer);
}

#[test]
fn create_supply_position_ix_uses_derived_address() {
    let program = key(9);
    let (position, ix) = create_supply_position_ix(program, key(2), key(3), key(4)).unwrap();
    let (expected, bump) = arch_program::pubkey::Pubkey::find_program_address(
        &[b"supply_position", &key(2).0, &key(3).0],
        &arch(program),
    );
    assert_eq!(position.0, expected.0);
    assert_eq!(ix.data, vec![1u8, bump]);
    assert_eq!(ix.accounts[1], AccountMeta { pubkey: position, is_signer: false, is_writable: true });
    assert_eq!(ix.accounts[4].pubkey.0, arch_program::system_program::SYSTEM_PROGRAM_ID.0);
}

#[test]
fn create_borrow_position_ix_uses_derived_address() {
    let program = key(9);
    let (position, ix) = create_borrow_position_ix(program, key(2), key(3), key(4)).unwrap();
    let (expected, bump) = arch_program::pubkey::Pubkey::find_program_address(
        &[b"borrow_position", &key(2).0, &key(3).0],
        &arch(program),
    );
    assert_eq!(position.0, expected.0);
    assert_eq!(ix.data, vec![4u8, bump]);
}

#[test]
fn borrow_apl_ix_layout() {
    let ix = borrow_apl_ix(key(1), key(2), key(3), key(4), key(5), key(6), key(7), key(8), 5);
    assert_eq!(ix.data[0], 7);
    assert_eq!(ix.accounts[1], AccountMeta { pubkey: key(4), is_signer: false, is_writable: true });
    assert_eq!(ix.accounts[2], AccountMeta { pubkey: key(3), is_signer: true, is_writable: false });
}

fn callback() -> Instruction {
    Instruction {
        program_id: key(40),
        accounts: vec![
            AccountMeta { pubkey: key(41), is_signer: false, is_writable: true },
            AccountMeta { pubkey: key(42), is_signer: true, is_writable: false },
        ],
        data: vec![5, 6, 7],
    }
}

#[test]
fn liquidate_ix_appends_callback_accounts() {
    let ix = liquidate_ix(
        key(1), key(2), key(3), key(4), key(5), key(6), key(7), key(8), key(10), key(11), 100, 90,
        Some(callback()),
    );
    assert_eq!(ix.accounts.len(), 11 + 1 + 2);
    assert_eq!(ix.accounts[11], AccountMeta { pubkey: key(40), is_signer: false, is_writable: false });
    assert_eq!(ix.accounts[12], callback().accounts[0]);
    assert_eq!(ix.accounts[13], callback().accounts[1]);
    let mut expected = vec![10u8];
    expected.extend_from_slice(&100u64.to_le_bytes());
    expected.extend_from_slice(&90u64.to_le_bytes());
    expected.push(1);
    expected.extend_from_slice(&key(40).0);
    expected.extend_from_slice(&2u32.to_le_bytes());
    expected.extend_from_slice(&key(41).0);
    expected.extend_from_slice(&[0, 1]);
    expected.extend_from_slice(&key(42).0);
    expected.extend_from_slice(&[1, 0]);
    expected.extend_from_slice(&3u32.to_le_bytes());
    expected.extend_from_slice(&[5, 6, 7]);
    assert_eq!(ix.data, expected);
}

#[test]
fn liquidate_ix_data_reads_back() {
    let ix = liquidate_ix(
        key(1), key(2), key(3), key(4), key(5), key(6), key(7), key(8), key(10), key(11), 100, 90,
        Some(callback()),
    );
    match AurataInstruction::try_from_slice(&ix.data) {
        Some(AurataInstruction::Liquidate(l)) => {
            assert_eq!(l.max_borrowed_atoms_to_repay, 100);
            assert_eq!(l.min_collateral_atoms_to_receive, 90);
            let cb = l.ix_callback.unwrap();
            assert_eq!(cb.program_id, key(40));
            assert_eq!(cb.accounts, callback().accounts);
            assert_eq!(cb.data, vec![5, 6, 7]);
        }
        other => panic!("unexpected {:?}", other),
    }
}

#[test]
fn borrow_deposit_apl_ix_appends_callback_accounts_without_program() {
    let ix = borrow_deposit_apl_ix(
        key(1), key(2), key(3), key(4), key(5), key(6), key(7), key(8), key(10), key(11),
        BorrowDepositAplInstruction { deposit_amount: 1, borrow_amount: 2, ix_callback: Some(callback()) },
    );
    assert_eq!(ix.accounts.len(), 13);
    assert_eq!(ix.accounts[11], callback().accounts[0]);
    assert_eq!(ix.data[0], 16);
}

#[test]
fn socialize_loss_ix_layout() {
    let ix = socialize_loss_ix(key(1), key(2), key(3), key(4), key(5), key(6), key(7), key(8));
    assert_eq!(ix.data, vec![18u8]);
    assert_eq!(ix.accounts[2], AccountMeta { pubkey: key(4), is_signer: true, is_writable: false });
}

#[test]
fn reedeem_curator_fees_ix_layout() {
    let ix = reedeem_curator_fees_ix(key(1), key(2), key(3), key(4), key(5));
    assert_eq!(ix.data, vec![13u8]);
    assert_eq!(ix.accounts[0], AccountMeta { pubkey: key(3), is_signer: true, is_writable: false });
}

#[test]
fn create_global_config_ix_layout() {
    let program = key(9);
    let (config, ix) = create_global_config_ix(program, key(2), key(3), key(4), 500).unwrap();
    let (expected, bump) =
        arch_program::pubkey::Pubkey::find_program_address(&[b"global_config"], &arch(program));
    assert_eq!(config.0, expected.0);
    let mut data = vec![12u8, bump];
    data.extend_from_slice(&key(3).0);
    data.extend_from_slice(&key(4).0);
    data.extend_from_slice(&500u16.to_le_bytes());
    assert_eq!(ix.data, data);
}

#[test]
fn update_global_config_ix_data_reads_back() {
    let update = UpdateGlobalConfigInstruction {
        accept_nomination: true,
        nominated_admin: Some(key(5)),
        fee_receiver: None,
        protocol_fee_share_in_bps: Some(250),
    };
    let ix = update_global_config_ix(key(9), key(2), update).unwrap();
    assert_eq!(ix.data.len(), 1 + 1 + 33 + 1 + 3);
    match AurataInstruction::try_from_slice(&ix.data) {
        Some(AurataInstruction::UpdateGlobalConfig(u)) => assert_eq!(u, update),
        other => panic!("unexpected {:?}", other),
    }
}

fn create_market_args() -> CreateMarketInstruction {
    CreateMarketInstruction {
        market_bump: 0,
        index: 3,
        ltv_config: LtvConfig {
            max_ltv: IFixedPoint { bits: 1 << 47 },
            unhealthy_ltv: IFixedPoint { bits: 3 << 46 },
            liquidation_bonus: IFixedPoint { bits: 1 << 43 },
        },
        max_utilisation_rate: IFixedPoint { bits: 1 << 48 },
        supply_oracle_config: OracleConfig::new_pyth([7; 32], key(20)),
        collateral_oracle_config: OracleConfig::new_chaos([8; 32], key(21), 3),
        interest_rate: InterestRateCurveKind::Fixed(InterestRatePerSecond(IFixedPoint { bits: 12345 })),
        lending_market_fee_in_bps: 1000,
    }
}

#[test]
fn create_market_ix_sets_bump_and_token_accounts() {
    let program = key(9);
    let (market, ix) =
        create_market_ix(create_market_args(), key(30), key(31), program, key(32), key(33)).unwrap();
    let (expected, bump) = arch_program::pubkey::Pubkey::find_program_address(
        &[b"market", &key(32).0, &key(30).0, &key(31).0, &[3]],
        &arch(program),
    );
    assert_eq!(market.0, expected.0);
    assert_eq!(ix.data[0], 0);
    assert_eq!(ix.data[1], bump);
    assert_eq!(ix.data[2], 3);
    assert_eq!(ix.data.len(), 1 + 2 + 48 + 16 + 257 + 257 + 17 + 2);
    let (supply_ata, _) = apl_associated_token_account::get_associated_token_address_and_bump_seed(
        &expected,
        &arch(key(30)),
        &apl_associated_token_account::id(),
    );
    assert_eq!(ix.accounts[5].pubkey.0, supply_ata.0);
    assert_eq!(ix.accounts[9].pubkey.0, apl_associated_token_account::id().0);
    assert_eq!(ix.accounts.len(), 12);
}

#[test]
fn create_market_data_reads_back() {
    let (_, ix) =
        create_market_ix(create_market_args(), key(30), key(31), key(9), key(32), key(33)).unwrap();
    match AurataInstruction::try_from_slice(&ix.data) {
        Some(AurataInstruction::CreateMarket(c)) => {
            let mut args = create_market_args();
            args.market_bump = ix.data[1];
            assert_eq!(c, args);
        }
        other => panic!("unexpected {:?}", other),
    }
}

#[test]
fn zero_oracle_setting_reads_back_as_none() {
    let mut args = create_market_args();
    args.supply_oracle_config.validation_config.max_age = Some(0);
    let (_, ix) = create_market_ix(args, key(30), key(31), key(9), key(32), key(33)).unwrap();
    match AurataInstruction::try_from_slice(&ix.data) {
        Some(AurataInstruction::CreateMarket(c)) => {
            assert_eq!(c.supply_oracle_config.validation_config.max_age, None);
        }
        other => panic!("unexpected {:?}", other),
    }
}

#[test]
fn update_config_ix_uses_given_oracles_when_unchanged() {
    let ix = update_config_ix(key(9), key(2), key(3), UpdateConfigInstruction::default(), key(4), key(5))
        .unwrap();
    assert_eq!(ix.accounts[3].pubkey, key(4));
    assert_eq!(ix.accounts[4].pubkey, key(5));
    assert_eq!(ix.data, vec![9u8, 0, 0, 0, 0, 0, 0]);
}

#[test]
fn update_config_ix_reads_new_feed_address() {
    let config = UpdateConfigInstruction {
        supply_oracle_config: Some(OracleConfig::new_pyth([7; 32], key(20))),
        ..UpdateConfigInstruction::default()
    };
    let ix = update_config_ix(key(9), key(2), key(3), config, key(4), key(5)).unwrap();
    assert_ne!(ix.accounts[3].pubkey, key(4));
    let expected = OracleProvider::Pyth(PythProvider { feed_id: [7; 32], program_id: key(20) })
        .oracle_feed_pubkey()
        .unwrap();
    assert_eq!(ix.accounts[3].pubkey, expected);
}

#[test]
fn try_from_slice_rejects_bad_data() {
    assert!(AurataInstruction::try_from_slice(&[]).is_none());
    assert!(AurataInstruction::try_from_slice(&[20]).is_none());
    assert!(AurataInstruction::try_from_slice(&[11, 0]).is_none());
    assert!(AurataInstruction::try_from_slice(&[3, 1, 0, 0, 0, 0, 0, 0, 0, 2]).is_none());
    assert!(AurataInstruction::try_from_slice(&[2, 1, 0, 0]).is_none());
    assert!(matches!(AurataInstruction::try_from_slice(&[11]), Some(AurataInstruction::Log)));
}

#[test]
fn logged_event_reads_back() {
    let event = AutaraEvent::SocializeLoss(SocializeLossEvent {
        market: key(1),
        position: key(2),
        debt_socialized: 10,
        collateral_liquidated: 20,
    });
    let ix = log_ix(&key(9), &key(1), event);
    assert_eq!(ix.data.len(), 1 + 1 + 80);
    assert_eq!(ix.data[0], 11);
    assert_eq!(ix.data[1], 11);
    assert_eq!(AutaraEvent::from_bytes(&ix.data), Some(event));
    assert_eq!(ix.accounts, vec![AccountMeta { pubkey: key(1), is_signer: true, is_writable: false }]);
}

#[test]
fn event_from_bytes_needs_log_tag() {
    let event = AutaraEvent::DonateSupply(DonateSupplyEvent { market: key(1), donor: key(2), mint: key(3), amount: 4 });
    let mut data = log_ix(&key(9), &key(1), event).data;
    assert_eq!(data[1], 12);
    data.push(99);
    assert_eq!(AutaraEvent::from_bytes(&data), Some(event));
    data[0] = 10;
    assert_eq!(AutaraEvent::from_bytes(&data), None);
    assert_eq!(AutaraEvent::from_bytes(&[11, 13]), None);
    assert_eq!(AutaraEvent::from_bytes(&[11, 12, 0]), None);
}

#[test]
fn associated_token_address_matches_token_program() {
    let ours = get_associated_token_address(&key(3), &key(4)).unwrap();
    let (theirs, _) = apl_associated_token_account::get_associated_token_address_and_bump_seed(
        &arch(key(3)),
        &arch(key(4)),
        &apl_associated_token_account::id(),
    );
    assert_eq!(ours.0, theirs.0);
    let info = TokenInfo { mint: key(4), decimals: 6 };
    assert_eq!(info.get_associated_token_address(&key(3)), Some(ours));
}

#[test]
fn create_ata_ix_matches_token_program() {
    let ix = create_ata_ix(&key(1), None, &key(3), &key(4)).unwrap();
    let ata = get_associated_token_address(&key(3), &key(4)).unwrap();
    let theirs = apl_associated_token_account::create_associated_token_account(
        &arch(key(1)),
        &arch(ata),
        &arch(key(3)),
        &arch(key(4)),
        &apl_token::id(),
        &arch_program::system_program::SYSTEM_PROGRAM_ID,
    );
    assert_eq!(ix.program_id.0, theirs.program_id.0);
    assert_eq!(ix.data, theirs.data);
    assert_eq!(ix.accounts.len(), theirs.accounts.len());
    for (a, b) in ix.accounts.iter().zip(theirs.accounts.iter()) {
        assert_eq!(a.pubkey.0, b.pubkey.0);
        assert_eq!(a.is_signer, b.is_signer);
        assert_eq!(a.is_writable, b.is_writable);
    }
    let given = create_ata_ix(&key(1), Some(&key(7)), &key(3), &key(4)).unwrap();
    assert_eq!(given.accounts[1].pubkey, key(7));
}

#[test]
fn collateral_and_repay_ix_layouts() {
    let deposit = deposit_apl_collateral_ix(key(1), key(2), key(3), key(4), key(5), key(6), key(7), key(8), 11);
    let mut expected = vec![5u8];
    expected.extend_from_slice(&11u64.to_le_bytes());
    assert_eq!(deposit.data, expected);
    assert_eq!(deposit.accounts[3], AccountMeta { pubkey: key(5), is_signer: false, is_writable: true });
    let withdraw = withdraw_apl_collateral_ix(key(1), key(2), key(3), key(4), key(5), key(6), key(7), key(8), 11, false);
    assert_eq!(withdraw.data[0], 6);
    assert_eq!(withdraw.data[9], 0);
    let repay = repay_apl_ix(key(1), key(2), key(4), key(3), key(5), key(6), key(7), key(8), 11, true);
    assert_eq!(repay.data[0], 8);
    assert_eq!(repay.data[9], 1);
    assert_eq!(repay.accounts[1], AccountMeta { pubkey: key(4), is_signer: false, is_writable: true });
    assert_eq!(repay.accounts[2], AccountMeta { pubkey: key(3), is_signer: true, is_writable: false });
    assert_eq!(repay.accounts[5].pubkey, token_program());
}

#[test]
fn withdraw_repay_apl_ix_data_reads_back() {
    let args = WithdrawRepayAplInstruction {
        repay_amount: 3,
        withdraw_amount: 4,
        repay_all: false,
        withdraw_all: true,
        ix_callback: None,
    };
    let ix = withdraw_repay_apl_ix(key(1), key(2), key(3), key(4), key(5), key(6), key(7), key(8), key(10), key(11), args);
    assert_eq!(ix.accounts.len(), 11);
    assert_eq!(ix.data.len(), 1 + 8 + 8 + 1 + 1 + 1);
    match AurataInstruction::try_from_slice(&ix.data) {
        Some(AurataInstruction::WithdrawRepayApl(w)) => {
            assert_eq!((w.repay_amount, w.withdraw_amount, w.repay_all, w.withdraw_all), (3, 4, false, true));
            assert!(w.ix_callback.is_none());
        }
        other => panic!("unexpected {:?}", other),
    }
}

#[test]
fn reedeem_protocol_fees_ix_reads_global_config() {
    let program = key(9);
    let ix = reedeem_protocol_fees_ix(program, key(2), key(3), key(4), key(5)).unwrap();
    let (config, _) = arch_program::pubkey::Pubkey::find_program_address(&[b"global_config"], &arch(program));
    assert_eq!(ix.data, vec![14u8]);
    assert_eq!(ix.accounts[1], AccountMeta { pubkey: Pubkey(config.0), is_signer: false, is_writable: false });
    assert_eq!(ix.accounts[0], AccountMeta { pubkey: key(3), is_signer: true, is_writable: true });
}

#[test]
fn execute_trade_instruction_layout() {
    let quote = Quote {
        base_mint: key(1),
        quote_mint: key(2),
        side: Side::Sell,
        base_amount: 5,
        quote_amount: 6,
        user_pubkey: key(3),
        expiry_ts: 7,
        nonce: 8,
    };
    let ix = execute_trade_instruction(quote, key(20), key(21), key(22), key(23), key(24), key(25), key(26), key(27), key(28), key(29), key(30));
    assert_eq!(ix.data.len(), 1 + 32 + 32 + 1 + 8 + 8 + 32 + 16 + 8);
    assert_eq!(ix.data[0], 2);
    assert_eq!(ix.data[65], 1);
    assert_eq!(&ix.data[66..74], &5u64.to_le_bytes());
    assert_eq!(&ix.data[114..130], &7u128.to_le_bytes());
    assert_eq!(ix.accounts.len(), 12);
    assert!(ix.accounts[1].is_signer && ix.accounts[2].is_signer);
    assert_eq!(ix.accounts[11].pubkey, token_program());
}

#[test]
fn user_nonce_pda_matches_derivation() {
    let venue = PropAmm {
        program_id: key(50),
        config_pubkey: key(51),
        quote_signer_pk: key(52),
        base_mint: key(53),
        quote_mint: key(54),
        base_vault: key(55),
        quote_vault: key(56),
        base_decimals: 8,
        quote_decimals: 6,
    };
    let (expected, _) = arch_program::pubkey::Pubkey::find_program_address(
        &[b"user_nonce", &key(51).0, &key(3).0],
        &arch(key(50)),
    );
    assert_eq!(venue.user_nonce_pda(&key(3)), Some(Pubkey(expected.0)));
}

#[test]
fn events_are_read_from_the_program_instructions_only() {
    let first = AutaraEvent::DonateSupply(DonateSupplyEvent { market: key(1), donor: key(2), mint: key(3), amount: 4 });
    let second = AutaraEvent::SocializeLoss(SocializeLossEvent {
        market: key(1),
        position: key(2),
        debt_socialized: 5,
        collateral_liquidated: 6,
    });
    let program = key(9);
    let entries = vec![
        (program, log_ix(&program, &key(1), first).data),
        (key(8), log_ix(&key(8), &key(1), second).data),
        (program, vec![2u8, 0, 0]),
        (program, log_ix(&program, &key(1), second).data),
    ];
    let events = autara_lib::event::AutaraEvents::from_instructions(&entries, |k: &Pubkey| *k == program);
    assert_eq!(events.events, vec![first, second]);
    let both = autara_lib::event::AutaraEvents::from_instructions(&entries, |k: &Pubkey| {
        *k == program || *k == key(8)
    });
    assert_eq!(both.events, vec![first, second, second]);
}
