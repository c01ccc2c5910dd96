//! Instructions of suppliers: open a position, supply, withdraw, donate.
use crate::ixs::instruction::{readonly, writable, AccountMeta, Instruction};
use crate::ixs::types::AurataInstruction;
use crate::ixs::wire::{bool_bytes, put_bool, put_u64, u64_bytes};
use crate::pda::{find_supply_position_pda, program_address, spec_supply_position_seed};
use crate::pubkey::Pubkey;
use crate::token::{apl_token_program_bytes, apl_token_program_id, system_program_bytes, system_program_id};
use vstd::prelude::*;

verus! {

#[derive(Clone, Copy, Debug, PartialEq, Eq)]
pub struct CreateSupplyPositionInstruction {
    pub bump: u8,
}

#[derive(Clone, Copy, Debug, PartialEq, Eq)]
pub struct SupplyAplInstruction {
    pub amount: u64,
}

#[derive(Clone, Copy, Debug, PartialEq, Eq)]
pub struct WithdrawSupplyInstruction {
    pub amount: u64,
    pub withdraw_all: bool,
}

#[derive(Clone, Copy, Debug, PartialEq, Eq)]
pub struct DonateSupplyInstruction {
    pub amount: u64,
}

impl WithdrawSupplyInstruction {
    pub open spec fn wire(&self) -> Seq<u8> {
        u64_bytes(self.amount) + bool_bytes(self.withdraw_all)
    }

    pub fn write_to(&self, out: &mut Vec<u8>)
        ensures
            final(out)@ == old(out)@ + self.wire(),
    {
        put_u64(out, self.amount);
        put_bool(out, self.withdraw_all);
        proof {
            assert(out@ =~= old(out)@ + self.wire());
        }
    }
}

/// The instruction opening the supply position of `authority` in `market`,
/// paid by `payer`, with the position's address; none only when no address
/// can be derived for the position.
pub fn create_supply_position_ix(
    autara_program_id: Pubkey,
    market: Pubkey,
    authority: Pubkey,
    payer: Pubkey,
) -> (r: Option<(Pubkey, Instruction)>)
    ensures
        match program_address(spec_supply_position_seed(market, authority), autara_program_id.0@) {
            Some((k, bump)) => r matches Some((position, ix)) && position.0@ == k && ix.data@
                == AurataInstruction::CreateSupplyPosition(CreateSupplyPositionInstruction { bump }).wire(),
            None => r is None,
        },
        r matches Some((position, ix)) ==> {
            &&& ix.program_id == autara_program_id
            &&& ix.accounts@.len() == 6
            &&& ix.accounts@[0] == writable(market, false)
            &&& ix.accounts@[1] == writable(position, false)
            &&& ix.accounts@[2] == readonly(authority, true)
            &&& ix.accounts@[3] == writable(payer, true)
            &&& ix.accounts@[4].pubkey.0@ == system_program_bytes()
            &&& !ix.accounts@[4].is_signer && !ix.accounts@[4].is_writable
            &&& ix.accounts@[5] == readonly(autara_program_id, false)
        },
{
    let (supply_position, bump) = match find_supply_position_pda(&autara_program_id, &market, &authority) {
        Some(found) => found,
        None => return None,
    };
    let data = AurataInstruction::CreateSupplyPosition(CreateSupplyPositionInstruction { bump }).to_bytes();
    let accounts = vec![
        AccountMeta::new(market, false),
        AccountMeta::new(supply_position, false),
        AccountMeta::new_readonly(authority, true),
        AccountMeta::new(payer, true),
        AccountMeta::new_readonly(system_program_id(), false),
        AccountMeta::new_readonly(autara_program_id, false),
    ];
    Some((supply_position, Instruction { program_id: autara_program_id, accounts, data }))
}

/// The accounts of an instruction moving supply tokens of a position: the
/// market and position (writable), the authority (signer), the user's
/// token account and the vault (writable), the token program, the two
/// oracles and the program (read only).
pub open spec fn supply_move_accounts(
    autara_program_id: Pubkey,
    market: Pubkey,
    position: Pubkey,
    authority: Pubkey,
    user_ata: Pubkey,
    vault: Pubkey,
    token_program: Pubkey,
    supply_oracle: Pubkey,
    collateral_oracle: Pubkey,
) -> Seq<AccountMeta> {
    seq![
        writable(market, false),
        writable(position, false),
        readonly(authority, true),
        writable(user_ata, false),
        writable(vault, false),
        readonly(token_program, false),
        readonly(supply_oracle, false),
        readonly(collateral_oracle, false),
        readonly(autara_program_id, false),
    ]
}

/// Whether `accounts` are those of `supply_move_accounts` with the token
/// program.
pub open spec fn is_supply_move_accounts(
    accounts: Seq<AccountMeta>,
    autara_program_id: Pubkey,
    market: Pubkey,
    position: Pubkey,
    authority: Pubkey,
    user_ata: Pubkey,
    vault: Pubkey,
    supply_oracle: Pubkey,
    collateral_oracle: Pubkey,
) -> bool {
    &&& accounts.len() == 9
    &&& accounts[5].pubkey.0@ == apl_token_program_bytes()
    &&& accounts == supply_move_accounts(
        autara_program_id,
        market,
        position,
        authority,
        user_ata,
        vault,
        accounts[5].pubkey,
        supply_oracle,
        collateral_oracle,
    )
}

fn supply_move_metas(
    autara_program_id: Pubkey,
    market: Pubkey,
    position: Pubkey,
    authority: Pubkey,
    user_ata: Pubkey,
    vault: Pubkey,
    supply_oracle: Pubkey,
    collateral_oracle: Pubkey,
) -> (r: Vec<AccountMeta>)
    ensures
        is_supply_move_accounts(
            r@,
            autara_program_id,
            market,
            position,
            authority,
            user_ata,
            vault,
            supply_oracle,
            collateral_oracle,
        ),
{
    let token = apl_token_program_id();
    let r = vec![
        AccountMeta::new(market, false),
        AccountMeta::new(position, false),
        AccountMeta::new_readonly(authority, true),
        AccountMeta::new(user_ata, false),
        AccountMeta::new(vault, false),
        AccountMeta::new_readonly(token, false),
        AccountMeta::new_readonly(supply_oracle, false),
        AccountMeta::new_readonly(collateral_oracle, false),
        AccountMeta::new_readonly(autara_program_id, false),
    ];
    proof {
        assert(r@ =~= supply_move_accounts(
            autara_program_id,
            market,
            position,
            authority,
            user_ata,
            vault,
            token,
            supply_oracle,
            collateral_oracle,
        ));
    }
    r
}

/// The instruction supplying `amount` tokens to the position.
pub fn supply_apl_ix(
    autara_program_id: Pubkey,
    market: Pubkey,
    supply_position: Pubkey,
    authority: Pubkey,
    authority_supply_ata: Pubkey,
    supply_vault: Pubkey,
    supply_oracle: Pubkey,
    collateral_oracle: Pubkey,
    amount: u64,
) -> (r: Instruction)
    ensures
        r.program_id == autara_program_id,
        r.data@ == AurataInstruction::SupplyApl(SupplyAplInstruction { amount }).wire(),
        is_supply_move_accounts(
            r.accounts@,
            autara_program_id,
            market,
            supply_position,
            authority,
            authority_supply_ata,
            supply_vault,
            supply_oracle,
            collateral_oracle,
        ),
{
    let data = AurataInstruction::SupplyApl(SupplyAplInstruction { amount }).to_bytes();
    let accounts = supply_move_metas(
        autara_program_id,
        market,
        supply_position,
        authority,
        authority_supply_ata,
        supply_vault,
        supply_oracle,
        collateral_oracle,
    );
    Instruction { program_id: autara_program_id, accounts, data }
}

/// The instruction withdrawing `amount` tokens, or everything when
/// `withdraw_all`, from the position.
pub fn withdraw_supply_ix(
    autara_program_id: Pubkey,
    market: Pubkey,
    supply_position: Pubkey,
    authority: Pubkey,
    authority_supply_ata: Pubkey,
    market_supply_vault: Pubkey,
    supply_oracle: Pubkey,
    collateral_oracle: Pubkey,
    amount: u64,
    withdraw_all: bool,
) -> (r: Instruction)
    ensures
        r.program_id == autara_program_id,
        r.data@ == AurataInstruction::WithdrawSupply(
            WithdrawSupplyInstruction { amount, withdraw_all },
        ).wire(),
        is_supply_move_accounts(
            r.accounts@,
            autara_program_id,
            market,
            supply_position,
            authority,
            authority_supply_ata,
            market_supply_vault,
            supply_oracle,
            collateral_oracle,
        ),
{
    let data = AurataInstruction::WithdrawSupply(WithdrawSupplyInstruction { amount, withdraw_all }).to_bytes();
    let accounts = supply_move_metas(
        autara_program_id,
        market,
        supply_position,
        authority,
        authority_supply_ata,
        market_supply_vault,
        supply_oracle,
        collateral_oracle,
    );
    Instruction { program_id: autara_program_id, accounts, data }
}

/// The instruction donating `amount` tokens to the suppliers of `market`.
pub fn donate_supply_ix(
    autara_program_id: Pubkey,
    market: Pubkey,
    authority: Pubkey,
    authority_supply_ata: Pubkey,
    supply_vault: Pubkey,
    amount: u64,
) -> (r: Instruction)
    ensures
        r.program_id == autara_program_id,
        r.data@ == AurataInstruction::DonateSupply(DonateSupplyInstruction { amount }).wire(),
        r.accounts@.len() == 6,
        r.accounts@[0] == writable(market, false),
        r.accounts@[1] == readonly(authority, true),
        r.accounts@[2] == writable(authority_supply_ata, false),
        r.accounts@[3] == writable(supply_vault, false),
        r.accounts@[4].pubkey.0@ == apl_token_program_bytes(),
        !r.accounts@[4].is_signer && !r.accounts@[4].is_writable,
        r.accounts@[5] == readonly(autara_program_id, false),
{
    let data = AurataInstruction::DonateSupply(DonateSupplyInstruction { amount }).to_bytes();
    let accounts = vec![
        AccountMeta::new(market, false),
        AccountMeta::new_readonly(authority, true),
        AccountMeta::new(authority_supply_ata, false),
        AccountMeta::new(supply_vault, false),
        AccountMeta::new_readonly(apl_token_program_id(), false),
        AccountMeta::new_readonly(autara_program_id, false),
    ];
    Instruction { program_id: autara_program_id, accounts, data }
}

} // verus!
