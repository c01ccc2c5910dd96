//! Instructions of a market's curator: create the market, update its
//! config, redeem the curator fees.
use crate::interest_rate::interest_rate_kind::InterestRateCurveKind;
use crate::ixs::instruction::{readonly, writable, AccountMeta, Instruction};
use crate::ixs::admin::is_global_config;
use crate::ixs::types::AurataInstruction;
use crate::ixs::wire::{
    fixed_bytes, opt_fixed_bytes, opt_u16_bytes, opt_u64_bytes, option_bytes, put_fixed,
    put_opt_fixed, put_opt_u16, put_opt_u64, put_u16, put_u8, u16_bytes,
};
use crate::math::ifixed_point::IFixedPoint;
use crate::oracle::oracle_config::OracleConfig;
use crate::oracle::oracle_provider::spec_feed_address;
use crate::pda::{
    find_global_config_pda, find_market_pda, global_config_word, program_address,
    spec_market_seed_without_bump,
};
use crate::pubkey::Pubkey;
use crate::state::market_config::LtvConfig;
use crate::token::{
    apl_token_program_bytes, apl_token_program_id, ata_program_bytes, ata_program_id,
    get_associated_token_address, spec_ata_seeds, system_program_bytes, system_program_id,
};
use vstd::prelude::*;

verus! {

/// The settings of a new market; `market_bump` is set by `create_market_ix`.
#[derive(Clone, Copy, Debug, PartialEq, Eq)]
pub struct CreateMarketInstruction {
    pub market_bump: u8,
    pub index: u8,
    pub ltv_config: LtvConfig,
    pub max_utilisation_rate: IFixedPoint,
    pub supply_oracle_config: OracleConfig,
    pub collateral_oracle_config: OracleConfig,
    pub interest_rate: InterestRateCurveKind,
    pub lending_market_fee_in_bps: u16,
}

/// Changes to a market's config; `None` leaves a setting as it is.
#[derive(Clone, Copy, Debug, PartialEq, Eq)]
pub struct UpdateConfigInstruction {
    pub supply_oracle_config: Option<OracleConfig>,
    pub collateral_oracle_config: Option<OracleConfig>,
    pub ltv_config: Option<LtvConfig>,
    pub max_supply_atoms: Option<u64>,
    pub max_utilisation_rate: Option<IFixedPoint>,
    pub lending_market_fee_in_bps: Option<u16>,
}

impl Default for UpdateConfigInstruction {
    fn default() -> (r: Self)
        ensures
            r == (UpdateConfigInstruction {
                supply_oracle_config: None,
                collateral_oracle_config: None,
                ltv_config: None,
                max_supply_atoms: None,
                max_utilisation_rate: None,
                lending_market_fee_in_bps: None,
            }),
    {
        UpdateConfigInstruction {
            supply_oracle_config: None,
            collateral_oracle_config: None,
            ltv_config: None,
            max_supply_atoms: None,
            max_utilisation_rate: None,
            lending_market_fee_in_bps: None,
        }
    }
}

pub open spec fn opt_oracle_config_bytes(x: Option<OracleConfig>) -> Seq<u8> {
    match x {
        Some(c) => option_bytes(true, c.wire()),
        None => option_bytes(false, seq![]),
    }
}

pub open spec fn opt_ltv_config_bytes(x: Option<LtvConfig>) -> Seq<u8> {
    match x {
        Some(c) => option_bytes(true, c.wire()),
        None => option_bytes(false, seq![]),
    }
}

fn put_opt_oracle_config(out: &mut Vec<u8>, x: &Option<OracleConfig>)
    ensures
        final(out)@ == old(out)@ + opt_oracle_config_bytes(*x),
{
    match x {
        Some(c) => {
            put_u8(out, 1u8);
            c.write_to(out);
        },
        None => put_u8(out, 0u8),
    }
    proof {
        assert(out@ =~= old(out)@ + opt_oracle_config_bytes(*x));
    }
}

fn put_opt_ltv_config(out: &mut Vec<u8>, x: &Option<LtvConfig>)
    ensures
        final(out)@ == old(out)@ + opt_ltv_config_bytes(*x),
{
    match x {
        Some(c) => {
            put_u8(out, 1u8);
            c.write_to(out);
        },
        None => put_u8(out, 0u8),
    }
    proof {
        assert(out@ =~= old(out)@ + opt_ltv_config_bytes(*x));
    }
}

impl CreateMarketInstruction {
    pub open spec fn wire(&self) -> Seq<u8> {
        seq![self.market_bump, self.index] + self.ltv_config.wire() + fixed_bytes(
            self.max_utilisation_rate,
        ) + self.supply_oracle_config.wire() + self.collateral_oracle_config.wire()
            + self.interest_rate.wire() + u16_bytes(self.lending_market_fee_in_bps)
    }

    pub fn write_to(&self, out: &mut Vec<u8>)
        ensures
            final(out)@ == old(out)@ + self.wire(),
    {
        put_u8(out, self.market_bump);
        put_u8(out, self.index);
        self.ltv_config.write_to(out);
        put_fixed(out, self.max_utilisation_rate);
        self.supply_oracle_config.write_to(out);
        self.collateral_oracle_config.write_to(out);
        self.interest_rate.write_to(out);
        put_u16(out, self.lending_market_fee_in_bps);
        proof {
            assert(out@ =~= old(out)@ + self.wire());
        }
    }
}

impl UpdateConfigInstruction {
    pub open spec fn wire(&self) -> Seq<u8> {
        opt_oracle_config_bytes(self.supply_oracle_config) + opt_oracle_config_bytes(
            self.collateral_oracle_config,
        ) + opt_ltv_config_bytes(self.ltv_config) + opt_u64_bytes(self.max_supply_atoms)
            + opt_fixed_bytes(self.max_utilisation_rate) + opt_u16_bytes(
            self.lending_market_fee_in_bps,
        )
    }

    pub fn write_to(&self, out: &mut Vec<u8>)
        ensures
            final(out)@ == old(out)@ + self.wire(),
    {
        put_opt_oracle_config(out, &self.supply_oracle_config);
        put_opt_oracle_config(out, &self.collateral_oracle_config);
        put_opt_ltv_config(out, &self.ltv_config);
        put_opt_u64(out, self.max_supply_atoms);
        put_opt_fixed(out, self.max_utilisation_rate);
        put_opt_u16(out, self.lending_market_fee_in_bps);
        proof {
            assert(out@ =~= old(out)@ + self.wire());
        }
    }
}

/// `create_market` with the bump set to `bump`.
pub open spec fn with_bump(create_market: CreateMarketInstruction, bump: u8) -> CreateMarketInstruction {
    CreateMarketInstruction {
        market_bump: bump,
        index: create_market.index,
        ltv_config: create_market.ltv_config,
        max_utilisation_rate: create_market.max_utilisation_rate,
        supply_oracle_config: create_market.supply_oracle_config,
        collateral_oracle_config: create_market.collateral_oracle_config,
        interest_rate: create_market.interest_rate,
        lending_market_fee_in_bps: create_market.lending_market_fee_in_bps,
    }
}

/// Whether `key` is the associated token account of the account with bytes
/// `wallet` for `mint`.
pub open spec fn is_ata_of(wallet: Seq<u8>, mint: Pubkey, key: Pubkey) -> bool {
    program_address(spec_ata_seeds(wallet, mint.0@), ata_program_bytes()) matches Some((k, _))
        && key.0@ == k
}

pub open spec fn has_ata(wallet: Seq<u8>, mint: Pubkey) -> bool {
    program_address(spec_ata_seeds(wallet, mint.0@), ata_program_bytes()) is Some
}

/// The instruction by which `curator` creates the market of `create_market`
/// lending `supply_mint` against `collateral_mint`, with the market's
/// address. The accounts: the curator (signer), the payer (writable
/// signer), the global config, the market (writable), the supply mint, the
/// market's supply token account (writable), the collateral mint, the
/// market's collateral token account (writable), the token program, the
/// associated token program, the system program and the program. None only
/// when one of these addresses cannot be derived.
pub fn create_market_ix(
    create_market: CreateMarketInstruction,
    supply_mint: Pubkey,
    collateral_mint: Pubkey,
    autara_program_id: Pubkey,
    curator: Pubkey,
    payer: Pubkey,
) -> (r: Option<(Pubkey, Instruction)>)
    ensures
        match program_address(
            spec_market_seed_without_bump(curator, supply_mint, collateral_mint, [create_market.index]),
            autara_program_id.0@,
        ) {
            Some((m, bump)) => {
                &&& r is Some <==> (program_address(
                    seq![global_config_word()],
                    autara_program_id.0@,
                ) is Some && has_ata(m, supply_mint) && has_ata(m, collateral_mint))
                &&& r matches Some((market, ix)) ==> market.0@ == m && ix.data@
                    == AurataInstruction::CreateMarket(with_bump(create_market, bump)).wire()
            },
            None => r is None,
        },
        r matches Some((market, ix)) ==> {
            &&& ix.program_id == autara_program_id
            &&& ix.accounts@.len() == 12
            &&& ix.accounts@[0] == readonly(curator, true)
            &&& ix.accounts@[1] == writable(payer, true)
            &&& is_global_config(autara_program_id, ix.accounts@[2].pubkey)
            &&& !ix.accounts@[2].is_signer && !ix.accounts@[2].is_writable
            &&& ix.accounts@[3] == writable(market, false)
            &&& ix.accounts@[4] == readonly(supply_mint, false)
            &&& is_ata_of(market.0@, supply_mint, ix.accounts@[5].pubkey)
            &&& !ix.accounts@[5].is_signer && ix.accounts@[5].is_writable
            &&& ix.accounts@[6] == readonly(collateral_mint, false)
            &&& is_ata_of(market.0@, collateral_mint, ix.accounts@[7].pubkey)
            &&& !ix.accounts@[7].is_signer && ix.accounts@[7].is_writable
            &&& ix.accounts@[8].pubkey.0@ == apl_token_program_bytes()
            &&& ix.accounts@[9].pubkey.0@ == ata_program_bytes()
            &&& ix.accounts@[10].pubkey.0@ == system_program_bytes()
            &&& forall|i: int|
                8 <= i <= 10 ==> !#[trigger] ix.accounts@[i].is_signer
                    && !ix.accounts@[i].is_writable
            &&& ix.accounts@[11] == readonly(autara_program_id, false)
        },
{
    let (market_pda, market_bump) = match find_market_pda(
        &autara_program_id,
        &curator,
        &supply_mint,
        &collateral_mint,
        create_market.index,
    ) {
        Some(found) => found,
        None => return None,
    };
    let (global_config, _) = match find_global_config_pda(&autara_program_id) {
        Some(found) => found,
        None => return None,
    };
    let supply_ata = match get_associated_token_address(&market_pda, &supply_mint) {
        Some(k) => k,
        None => return None,
    };
    let collateral_ata = match get_associated_token_address(&market_pda, &collateral_mint) {
        Some(k) => k,
        None => return None,
    };
    let mut create_market = create_market;
    create_market.market_bump = market_bump;
    let data = AurataInstruction::CreateMarket(create_market).to_bytes();
    let accounts = vec![
        AccountMeta::new_readonly(curator, true),
        AccountMeta::new(payer, true),
        AccountMeta::new_readonly(global_config, false),
        AccountMeta::new(market_pda, false),
        AccountMeta::new_readonly(supply_mint, false),
        AccountMeta::new(supply_ata, false),
        AccountMeta::new_readonly(collateral_mint, false),
        AccountMeta::new(collateral_ata, false),
        AccountMeta::new_readonly(apl_token_program_id(), false),
        AccountMeta::new_readonly(ata_program_id(), false),
        AccountMeta::new_readonly(system_program_id(), false),
        AccountMeta::new_readonly(autara_program_id, false),
    ];
    Some((market_pda, Instruction { program_id: autara_program_id, accounts, data }))
}

/// The oracle account an updated config reads: the canonical feed address
/// of the new config, or `current` when the config keeps its oracle.
pub open spec fn updated_oracle(config: Option<OracleConfig>, current: Pubkey) -> Option<Seq<u8>> {
    match config {
        Some(c) => spec_feed_address(c.oracle_provider),
        None => Some(current.0@),
    }
}

/// The instruction by which `curator` applies `config` to `market`. Its
/// accounts: the market (writable), the global config, the curator
/// (signer), then the supply and collateral oracle accounts the market
/// reads afterwards and the program. None only when the global config's or
/// a new feed's address cannot be derived.
pub fn update_config_ix(
    autara_program_id: Pubkey,
    market: Pubkey,
    curator: Pubkey,
    config: UpdateConfigInstruction,
    supply_oracle_key: Pubkey,
    collateral_oracle_key: Pubkey,
) -> (r: Option<Instruction>)
    ensures
        r is Some <==> (program_address(seq![global_config_word()], autara_program_id.0@) is Some
            && updated_oracle(config.supply_oracle_config, supply_oracle_key) is Some
            && updated_oracle(config.collateral_oracle_config, collateral_oracle_key) is Some),
        r matches Some(ix) ==> {
            &&& ix.program_id == autara_program_id
            &&& ix.data@ == AurataInstruction::UpdateConfig(config).wire()
            &&& ix.accounts@.len() == 6
            &&& ix.accounts@[0] == writable(market, false)
            &&& is_global_config(autara_program_id, ix.accounts@[1].pubkey)
            &&& !ix.accounts@[1].is_signer && !ix.accounts@[1].is_writable
            &&& ix.accounts@[2] == readonly(curator, true)
            &&& Some(ix.accounts@[3].pubkey.0@) == updated_oracle(
                config.supply_oracle_config,
                supply_oracle_key,
            )
            &&& !ix.accounts@[3].is_signer && !ix.accounts@[3].is_writable
            &&& Some(ix.accounts@[4].pubkey.0@) == updated_oracle(
                config.collateral_oracle_config,
                collateral_oracle_key,
            )
            &&& !ix.accounts@[4].is_signer && !ix.accounts@[4].is_writable
            &&& ix.accounts@[5] == readonly(autara_program_id, false)
        },
{
    let supply_oracle = match &config.supply_oracle_config {
        Some(oracle) => match oracle.oracle_provider().oracle_feed_pubkey() {
            Some(k) => k,
            None => return None,
        },
        None => supply_oracle_key,
    };
    let collateral_oracle = match &config.collateral_oracle_config {
        Some(oracle) => match oracle.oracle_provider().oracle_feed_pubkey() {
            Some(k) => k,
            None => return None,
        },
        None => collateral_oracle_key,
    };
    let (global_config, _) = match find_global_config_pda(&autara_program_id) {
        Some(found) => found,
        None => return None,
    };
    let data = AurataInstruction::UpdateConfig(config).to_bytes();
    let accounts = vec![
        AccountMeta::new(market, false),
        AccountMeta::new_readonly(global_config, false),
        AccountMeta::new_readonly(curator, true),
        AccountMeta::new_readonly(supply_oracle, false),
        AccountMeta::new_readonly(collateral_oracle, false),
        AccountMeta::new_readonly(autara_program_id, false),
    ];
    Some(Instruction { program_id: autara_program_id, accounts, data })
}

/// The instruction by which `curator` sends the curator fees of `market` to
/// `curator_supply_ata`.
pub fn reedeem_curator_fees_ix(
    autara_program_id: Pubkey,
    market: Pubkey,
    curator: Pubkey,
    curator_supply_ata: Pubkey,
    market_supply_vault: Pubkey,
) -> (r: Instruction)
    ensures
        r.program_id == autara_program_id,
        r.data@ == AurataInstruction::ReedeemCuratorFees.wire(),
        r.accounts@.len() == 6,
        r.accounts@[0] == readonly(curator, true),
        r.accounts@[1] == writable(market, false),
        r.accounts@[2] == writable(curator_supply_ata, false),
        r.accounts@[3] == writable(market_supply_vault, false),
        r.accounts@[4].pubkey.0@ == apl_token_program_bytes(),
        !r.accounts@[4].is_signer && !r.accounts@[4].is_writable,
        r.accounts@[5] == readonly(autara_program_id, false),
{
    let data = AurataInstruction::ReedeemCuratorFees.to_bytes();
    let accounts = vec![
        AccountMeta::new_readonly(curator, true),
        AccountMeta::new(market, false),
        AccountMeta::new(curator_supply_ata, false),
        AccountMeta::new(market_supply_vault, false),
        AccountMeta::new_readonly(apl_token_program_id(), false),
        AccountMeta::new_readonly(autara_program_id, false),
    ];
    Instruction { program_id: autara_program_id, accounts, data }
}

} // verus!
