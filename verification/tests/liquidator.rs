use autara_lib::ixs::types::AurataInstructionTag;
use autara_lib::liquidator::config::{
    min_collateral_after_slippage, network_from_name, parse_hex_pubkey, BitcoinNetwork,
    LiquidatorConfig, LiquidatorError, TokenFilter,
};
use autara_lib::liquidator::propamm::{PropAmm, Side};
use autara_lib::liquidator::router::{pick_best_quote, should_refresh_pools};
use autara_lib::liquidator::runner::{circuit_breaker_tripped, next_consecutive_failures, PollOutcome};
use autara_lib::liquidator::scanner::{after_propamm_route, choose_venue, AfterPropAmm, ScanStats, Venue};
use autara_lib::math::ifixed_point::IFixedPoint;
use autara_lib::pda::{
    find_borrow_position_pda, find_global_config_pda, find_market_pda, find_supply_position_pda,
    market_seed_with_bump,
};
use autara_lib::pubkey::Pubkey;
use autara_lib::state::borrow_position::BorrowPositionHealth;

fn hex_of(bytes: &[u8]) -> String {
    bytes.iter().map(|b| format!("{:02x}", b)).collect()
}

fn health(ltv_bits: i128, borrowed_atoms: u64) -> BorrowPositionHealth {
    BorrowPositionHealth {
        ltv: IFixedPoint::from_bits(ltv_bits),
        borrowed_atoms,
        collateral_atoms: 0,
        borrow_value: IFixedPoint::zero(),
        collateral_value: IFixedPoint::zero(),
    }
}

#[test]
fn slippage_haircut() {
    assert_eq!(min_collateral_after_slippage(1_000_000, 100), 990_000);
    assert_eq!(min_collateral_after_slippage(100, 10_000), 0);
    assert_eq!(min_collateral_after_slippage(100, 0), 100);
}

#[test]
fn slippage_haircut_saturates_and_caps() {
    assert_eq!(min_collateral_after_slippage(100, 65_535), 0);
    assert_eq!(min_collateral_after_slippage(u64::MAX, 0), u64::MAX / 10_000);
    assert_eq!(min_collateral_after_slippage(u64::MAX, 5_000), u64::MAX / 10_000);
}

#[test]
fn token_filter_empty_allows_all() {
    let f = TokenFilter::from_config(&[]).unwrap();
    let a = Pubkey([1; 32]);
    let b = Pubkey([2; 32]);
    assert!(f.allows_market(&a, &b));
    assert!(!f.is_active());
}

#[test]
fn token_filter_requires_match() {
    let a = Pubkey([1; 32]);
    let b = Pubkey([2; 32]);
    let c = Pubkey([3; 32]);
    let f = TokenFilter::from_config(&[hex_of(&a.0)]).unwrap();
    assert!(f.is_active());
    assert!(f.allows_market(&a, &b));
    assert!(f.allows_market(&c, &a));
    assert!(!f.allows_market(&b, &c));
}

#[test]
fn token_filter_refuses_bad_hex() {
    let list = vec!["0102".to_string(), "zz".to_string()];
    assert_eq!(TokenFilter::from_config(&list).unwrap_err(), LiquidatorError::InvalidHexPubkey);
    assert_eq!(TokenFilter::from_config(&["abc".to_string()]).unwrap_err(), LiquidatorError::InvalidHexPubkey);
}

#[test]
fn hex_pubkey_is_decoded_and_padded() {
    let k = parse_hex_pubkey("0aFF").unwrap();
    let mut expected = [0u8; 32];
    expected[0] = 0x0a;
    expected[1] = 0xff;
    assert_eq!(k, Pubkey(expected));
    let full = parse_hex_pubkey(&hex_of(&[7u8; 32])).unwrap();
    assert_eq!(full, Pubkey([7u8; 32]));
    assert_eq!(parse_hex_pubkey("0g").unwrap_err(), LiquidatorError::InvalidHexPubkey);
}

#[test]
fn network_names_are_matched_without_case() {
    assert_eq!(network_from_name("regtest"), Ok(BitcoinNetwork::Regtest));
    assert_eq!(network_from_name("TestNet"), Ok(BitcoinNetwork::Testnet4));
    assert_eq!(network_from_name("testnet4"), Ok(BitcoinNetwork::Testnet4));
    assert_eq!(network_from_name("MAINNET"), Ok(BitcoinNetwork::Bitcoin));
    assert_eq!(network_from_name("bitcoin"), Ok(BitcoinNetwork::Bitcoin));
    assert_eq!(network_from_name("signet"), Err(LiquidatorError::UnknownNetwork));
    let config = LiquidatorConfig {
        rpc_url: String::new(),
        autara_program_id: String::new(),
        liquidator_keypair: String::new(),
        network: "Regtest".to_string(),
        dry_run: true,
        poll_interval_secs: 5,
        slippage_bps: 100,
        min_lamports: 50_000,
        max_consecutive_failures: 5,
        restrict_tokens: vec![],
    };
    assert_eq!(config.bitcoin_network(), Ok(BitcoinNetwork::Regtest));
}

#[test]
fn venue_with_the_larger_output_wins() {
    assert_eq!(choose_venue(0, 0), None);
    assert_eq!(choose_venue(10, 11), Some(Venue::PropAmm));
    assert_eq!(choose_venue(10, 10), Some(Venue::Clamm));
    assert_eq!(choose_venue(0, 3), Some(Venue::PropAmm));
    assert_eq!(choose_venue(5, 0), Some(Venue::Clamm));
}

#[test]
fn failed_vault_route_falls_back_only_before_liquidating() {
    assert_eq!(after_propamm_route(true, true), AfterPropAmm::Done);
    assert_eq!(after_propamm_route(false, true), AfterPropAmm::FallBackToClamm);
    assert_eq!(after_propamm_route(false, false), AfterPropAmm::Skip);
}

#[test]
fn scan_stats_keep_the_first_largest() {
    let p1 = Pubkey([1; 32]);
    let p2 = Pubkey([2; 32]);
    let m = Pubkey([9; 32]);
    let mut stats = ScanStats::new();
    stats.record_health(p1, m, &health(10, 500));
    stats.record_health(p2, m, &health(10, 500));
    assert_eq!(stats.biggest_borrow, Some((p1, m, 500)));
    assert_eq!(stats.highest_ltv, Some((p1, m, IFixedPoint::from_bits(10))));
    stats.record_health(p2, m, &health(11, 400));
    assert_eq!(stats.biggest_borrow, Some((p1, m, 500)));
    assert_eq!(stats.highest_ltv, Some((p2, m, IFixedPoint::from_bits(11))));
    stats.record_liquidatable();
    assert_eq!(stats.liquidatable_count, 1);
}

#[test]
fn best_quote_is_the_first_largest() {
    assert_eq!(pick_best_quote(&[]), None);
    assert_eq!(pick_best_quote(&[None, None]), None);
    assert_eq!(pick_best_quote(&[Some(3), None, Some(5), Some(5), Some(1)]), Some(2));
    assert_eq!(pick_best_quote(&[None, Some(0)]), Some(1));
}

#[test]
fn pools_are_rediscovered_after_five_minutes() {
    assert!(should_refresh_pools(None));
    assert!(!should_refresh_pools(Some(299)));
    assert!(should_refresh_pools(Some(300)));
}

#[test]
fn circuit_breaker_counts_live_failures_only() {
    let scanned = |s, f| PollOutcome::Scanned { live_success: s, live_failure: f };
    assert_eq!(next_consecutive_failures(2, true, scanned(0, 3)), 2);
    assert_eq!(next_consecutive_failures(2, false, scanned(0, 3)), 5);
    assert_eq!(next_consecutive_failures(2, false, scanned(1, 3)), 0);
    assert_eq!(next_consecutive_failures(2, false, scanned(0, 0)), 2);
    assert_eq!(next_consecutive_failures(u32::MAX, false, PollOutcome::ReloadFailed), u32::MAX);
    assert_eq!(next_consecutive_failures(4, false, PollOutcome::ReloadFailed), 5);
    assert!(circuit_breaker_tripped(5, false, 5));
    assert!(!circuit_breaker_tripped(4, false, 5));
    assert!(!circuit_breaker_tripped(50, false, 0));
    assert!(!circuit_breaker_tripped(50, true, 5));
}

fn vault() -> PropAmm {
    PropAmm {
        program_id: Pubkey([1; 32]),
        config_pubkey: Pubkey([2; 32]),
        quote_signer_pk: Pubkey([3; 32]),
        base_mint: Pubkey([4; 32]),
        quote_mint: Pubkey([5; 32]),
        base_vault: Pubkey([6; 32]),
        quote_vault: Pubkey([7; 32]),
        base_decimals: 8,
        quote_decimals: 6,
    }
}

#[test]
fn vault_quotes_both_directions() {
    let v = vault();
    let base = v.base_mint;
    let quote = v.quote_mint;
    assert!(v.supports(&base, &quote));
    assert!(v.supports(&quote, &base));
    assert!(!v.supports(&base, &base));
    // one base token at 100_000.5 quote tokens
    let pm: u128 = 100_000_500_000;
    assert_eq!(v.quote(&base, &quote, 100_000_000, pm), Some((Side::Sell, 100_000_000, 100_000_500_000, 100_000_500_000)));
    assert_eq!(v.quote(&quote, &base, 100_000_500_000, pm), Some((Side::Buy, 100_000_000, 100_000_500_000, 100_000_000)));
    assert_eq!(v.quote(&base, &quote, 0, pm), None);
    assert_eq!(v.quote(&base, &quote, 1, 0), None);
    assert_eq!(v.quote(&base, &quote, 1, 1), None);
    assert_eq!(v.quote(&base, &base, 1, pm), None);
}

#[test]
fn instruction_tags_round_trip() {
    for b in 0u8..20 {
        let tag = AurataInstructionTag::try_from(b).unwrap();
        assert_eq!(tag.to_u8(), b);
    }
    assert_eq!(AurataInstructionTag::try_from(11), Ok(AurataInstructionTag::Log));
    assert_eq!(AurataInstructionTag::try_from(20), Err(20));
    assert_eq!(AurataInstructionTag::try_from(255), Err(255));
}

fn arch(k: Pubkey) -> arch_program::pubkey::Pubkey {
    arch_program::pubkey::Pubkey(k.0)
}

#[test]
fn derived_addresses_follow_the_seeds() {
    let program = Pubkey([21; 32]);
    let market = Pubkey([22; 32]);
    let owner = Pubkey([23; 32]);
    let (key, bump) = find_supply_position_pda(&program, &market, &owner).unwrap();
    let (ek, eb) = arch_program::pubkey::Pubkey::find_program_address(
        &[b"supply_position", &market.0, &owner.0],
        &arch(program),
    );
    assert_eq!((key.0, bump), (ek.0, eb));
    let (key, bump) = find_borrow_position_pda(&program, &market, &owner).unwrap();
    let (ek, eb) = arch_program::pubkey::Pubkey::find_program_address(
        &[b"borrow_position", &market.0, &owner.0],
        &arch(program),
    );
    assert_eq!((key.0, bump), (ek.0, eb));
    let (key, _) = find_global_config_pda(&program).unwrap();
    let (ek, _) = arch_program::pubkey::Pubkey::find_program_address(&[b"global_config"], &arch(program));
    assert_eq!(key.0, ek.0);
    let curator = Pubkey([24; 32]);
    let s = Pubkey([25; 32]);
    let c = Pubkey([26; 32]);
    let (key, bump) = find_market_pda(&program, &curator, &s, &c, 3).unwrap();
    let (ek, eb) = arch_program::pubkey::Pubkey::find_program_address(
        &[b"market", &curator.0, &s.0, &c.0, &[3]],
        &arch(program),
    );
    assert_eq!((key.0, bump), (ek.0, eb));
    let seeds = market_seed_with_bump(&curator, &s, &c, &[3], &[bump]);
    assert_eq!(seeds.len(), 6);
    assert_eq!(seeds[0], b"market".to_vec());
    assert_eq!(seeds[5], vec![bump]);
}
