//! Instructions of borrowers: open a position, deposit or withdraw
//! collateral, borrow, repay, and the combined forms with a callback.
use crate::ixs::instruction::{append_metas, readonly, writable, AccountMeta, Instruction};
use crate::ixs::types::AurataInstruction;
use crate::ixs::wire::{bool_bytes, option_bytes, put_bool, put_u64, put_u8, u64_bytes};
use crate::pda::{find_borrow_position_pda, program_address, spec_borrow_position_seed};
use crate::pubkey::Pubkey;
use crate::token::{apl_token_program_bytes, apl_token_program_id, system_program_bytes, system_program_id};
use vstd::prelude::*;

verus! {

#[derive(Clone, Copy, Debug, PartialEq, Eq)]
pub struct CreateBorrowPositionInstruction {
    pub bump: u8,
}

#[derive(Clone, Copy, Debug, PartialEq, Eq)]
pub struct BorrowAplInstruction {
    pub amount: u64,
}

#[derive(Clone, Copy, Debug, PartialEq, Eq)]
pub struct DepositAplCollateralInstruction {
    pub amount: u64,
}

#[derive(Clone, Copy, Debug, PartialEq, Eq)]
pub struct WithdrawAplCollateralInstruction {
    pub amount: u64,
    pub withdraw_all: bool,
}

#[derive(Clone, Copy, Debug, PartialEq, Eq)]
pub struct RepayAplInstruction {
    pub amount: u64,
    pub repay_all: bool,
}

/// Borrow and deposit collateral in one instruction, with an instruction
/// run between the two (a swap, for leverage).
#[derive(Clone, Debug)]
pub struct BorrowDepositAplInstruction {
    pub deposit_amount: u64,
    pub borrow_amount: u64,
    pub ix_callback: Option<Instruction>,
}

/// Withdraw collateral and repay in one instruction, with an instruction
/// run between the two (a swap, to deleverage).
#[derive(Clone, Debug)]
pub struct WithdrawRepayAplInstruction {
    pub repay_amount: u64,
    pub withdraw_amount: u64,
    pub repay_all: bool,
    pub withdraw_all: bool,
    pub ix_callback: Option<Instruction>,
}

/// An optional callback: `0`, or `1` and the instruction.
pub open spec fn callback_bytes(x: Option<Instruction>) -> Seq<u8> {
    match x {
        Some(ix) => option_bytes(true, ix.wire()),
        None => option_bytes(false, seq![]),
    }
}

/// Whether the callback, if any, fits on the wire.
pub open spec fn callback_fits(x: Option<Instruction>) -> bool {
    match x {
        Some(ix) => ix.fits(),
        None => true,
    }
}

/// The accounts of the callback, if any.
pub open spec fn callback_accounts(x: Option<Instruction>) -> Seq<AccountMeta> {
    match x {
        Some(ix) => ix.accounts@,
        None => seq![],
    }
}

pub fn put_callback(out: &mut Vec<u8>, x: &Option<Instruction>)
    requires
        callback_fits(*x),
    ensures
        final(out)@ == old(out)@ + callback_bytes(*x),
{
    match x {
        Some(ix) => {
            put_u8(out, 1u8);
            ix.write_to(out);
        },
        None => put_u8(out, 0u8),
    }
    proof {
        assert(out@ =~= old(out)@ + callback_bytes(*x));
    }
}

impl WithdrawAplCollateralInstruction {
    pub open spec fn wire(&self) -> Seq<u8> {
        u64_bytes(self.amount) + bool_bytes(self.withdraw_all)
    }

    pub fn write_to(&self, out: &mut Vec<u8>)
        ensures
            final(out)@ == old(out)@ + self.wire(),
    {
        put_u64(out, self.amount);
        put_bool(out, self.withdraw_all);
        proof {
            assert(out@ =~= old(out)@ + self.wire());
        }
    }
}

impl RepayAplInstruction {
    pub open spec fn wire(&self) -> Seq<u8> {
        u64_bytes(self.amount) + bool_bytes(self.repay_all)
    }

    pub fn write_to(&self, out: &mut Vec<u8>)
        ensures
            final(out)@ == old(out)@ + self.wire(),
    {
        put_u64(out, self.amount);
        put_bool(out, self.repay_all);
        proof {
            assert(out@ =~= old(out)@ + self.wire());
        }
    }
}

impl BorrowDepositAplInstruction {
    pub open spec fn wire(&self) -> Seq<u8> {
        u64_bytes(self.deposit_amount) + u64_bytes(self.borrow_amount) + callback_bytes(
            self.ix_callback,
        )
    }

    pub open spec fn fits(&self) -> bool {
        callback_fits(self.ix_callback)
    }

    pub fn write_to(&self, out: &mut Vec<u8>)
        requires
            self.fits(),
        ensures
            final(out)@ == old(out)@ + self.wire(),
    {
        put_u64(out, self.deposit_amount);
        put_u64(out, self.borrow_amount);
        put_callback(out, &self.ix_callback);
        proof {
            assert(out@ =~= old(out)@ + self.wire());
        }
    }
}

impl WithdrawRepayAplInstruction {
    pub open spec fn wire(&self) -> Seq<u8> {
        u64_bytes(self.repay_amount) + u64_bytes(self.withdraw_amount) + bool_bytes(
            self.repay_all,
        ) + bool_bytes(self.withdraw_all) + callback_bytes(self.ix_callback)
    }

    pub open spec fn fits(&self) -> bool {
        callback_fits(self.ix_callback)
    }

    pub fn write_to(&self, out: &mut Vec<u8>)
        requires
            self.fits(),
        ensures
            final(out)@ == old(out)@ + self.wire(),
    {
        put_u64(out, self.repay_amount);
        put_u64(out, self.withdraw_amount);
        put_bool(out, self.repay_all);
        put_bool(out, self.withdraw_all);
        put_callback(out, &self.ix_callback);
        proof {
            assert(out@ =~= old(out)@ + self.wire());
        }
    }
}

/// The instruction opening the borrow position of `authority` in `market`,
/// paid by `payer`, with the position's address; none only when no address
/// can be derived for the position.
pub fn create_borrow_position_ix(
    autara_program_id: Pubkey,
    market: Pubkey,
    authority: Pubkey,
    payer: Pubkey,
) -> (r: Option<(Pubkey, Instruction)>)
    ensures
        match program_address(spec_borrow_position_seed(market, authority), autara_program_id.0@) {
            Some((k, bump)) => r matches Some((position, ix)) && position.0@ == k && ix.data@
                == AurataInstruction::CreateBorrowPosition(CreateBorrowPositionInstruction { bump }).wire(),
            None => r is None,
        },
        r matches Some((position, ix)) ==> {
            &&& ix.program_id == autara_program_id
            &&& ix.accounts@.len() == 6
            &&& ix.accounts@[0] == writable(market, false)
            &&& ix.accounts@[1] == writable(position, false)
            &&& ix.accounts@[2] == readonly(authority, true)
            &&& ix.accounts@[3] == writable(payer, true)
            &&& ix.accounts@[4].pubkey.0@ == system_program_bytes()
            &&& !ix.accounts@[4].is_signer && !ix.accounts@[4].is_writable
            &&& ix.accounts@[5] == readonly(autara_program_id, false)
        },
{
    let (borrow_position, bump) = match find_borrow_position_pda(&autara_program_id, &market, &authority) {
        Some(found) => found,
        None => return None,
    };
    let data = AurataInstruction::CreateBorrowPosition(CreateBorrowPositionInstruction { bump }).to_bytes();
    let accounts = vec![
        AccountMeta::new(market, false),
        AccountMeta::new(borrow_position, false),
        AccountMeta::new_readonly(authority, true),
        AccountMeta::new(payer, true),
        AccountMeta::new_readonly(system_program_id(), false),
        AccountMeta::new_readonly(autara_program_id, false),
    ];
    Some((borrow_position, Instruction { program_id: autara_program_id, accounts, data }))
}

/// The accounts of an instruction moving one token of a borrow position:
/// the market and position (writable), the authority (signer), the user's
/// token account and the vault (writable), the token program, the two
/// oracles and the program (read only).
pub open spec fn is_borrow_move_accounts(
    accounts: Seq<AccountMeta>,
    autara_program_id: Pubkey,
    market: Pubkey,
    position: Pubkey,
    authority: Pubkey,
    user_ata: Pubkey,
    vault: Pubkey,
    supply_oracle: Pubkey,
    collateral_oracle: Pubkey,
) -> bool {
    &&& accounts.len() == 9
    &&& accounts[5].pubkey.0@ == apl_token_program_bytes()
    &&& accounts == seq![
        writable(market, false),
        writable(position, false),
        readonly(authority, true),
        writable(user_ata, false),
        writable(vault, false),
        readonly(accounts[5].pubkey, false),
        readonly(supply_oracle, false),
        readonly(collateral_oracle, false),
        readonly(autara_program_id, false),
    ]
}

fn borrow_move_metas(
    autara_program_id: Pubkey,
    market: Pubkey,
    position: Pubkey,
    authority: Pubkey,
    user_ata: Pubkey,
    vault: Pubkey,
    supply_oracle: Pubkey,
    collateral_oracle: Pubkey,
) -> (r: Vec<AccountMeta>)
    ensures
        is_borrow_move_accounts(
            r@,
            autara_program_id,
            market,
            position,
            authority,
            user_ata,
            vault,
            supply_oracle,
            collateral_oracle,
        ),
{
    let r = vec![
        AccountMeta::new(market, false),
        AccountMeta::new(position, false),
        AccountMeta::new_readonly(authority, true),
        AccountMeta::new(user_ata, false),
        AccountMeta::new(vault, false),
        AccountMeta::new_readonly(apl_token_program_id(), false),
        AccountMeta::new_readonly(supply_oracle, false),
        AccountMeta::new_readonly(collateral_oracle, false),
        AccountMeta::new_readonly(autara_program_id, false),
    ];
    proof {
        assert(r@ =~= seq![
            writable(market, false),
            writable(position, false),
            readonly(authority, true),
            writable(user_ata, false),
            writable(vault, false),
            readonly(r@[5].pubkey, false),
            readonly(supply_oracle, false),
            readonly(collateral_oracle, false),
            readonly(autara_program_id, false),
        ]);
    }
    r
}

/// The instruction borrowing `amount` tokens on the position.
pub fn borrow_apl_ix(
    autara_program_id: Pubkey,
    market: Pubkey,
    authority: Pubkey,
    borrow_position: Pubkey,
    authority_supply_ata: Pubkey,
    market_supply_vault: Pubkey,
    supply_oracle: Pubkey,
    collateral_oracle: Pubkey,
    amount: u64,
) -> (r: Instruction)
    ensures
        r.program_id == autara_program_id,
        r.data@ == AurataInstruction::BorrowApl(BorrowAplInstruction { amount }).wire(),
        is_borrow_move_accounts(
            r.accounts@,
            autara_program_id,
            market,
            borrow_position,
            authority,
            authority_supply_ata,
            market_supply_vault,
            supply_oracle,
            collateral_oracle,
        ),
{
    let data = AurataInstruction::BorrowApl(BorrowAplInstruction { amount }).to_bytes();
    let accounts = borrow_move_metas(
        autara_program_id,
        market,
        borrow_position,
        authority,
        authority_supply_ata,
        market_supply_vault,
        supply_oracle,
        collateral_oracle,
    );
    Instruction { program_id: autara_program_id, accounts, data }
}

/// The instruction depositing `amount` collateral tokens on the position.
pub fn deposit_apl_collateral_ix(
    autara_program_id: Pubkey,
    market: Pubkey,
    authority: Pubkey,
    borrow_position: Pubkey,
    authority_collateral_ata: Pubkey,
    market_collateral_vault: Pubkey,
    supply_oracle: Pubkey,
    collateral_oracle: Pubkey,
    amount: u64,
) -> (r: Instruction)
    ensures
        r.program_id == autara_program_id,
        r.data@ == AurataInstruction::DepositAplCollateral(
            DepositAplCollateralInstruction { amount },
        ).wire(),
        is_borrow_move_accounts(
            r.accounts@,
            autara_program_id,
            market,
            borrow_position,
            authority,
            authority_collateral_ata,
            market_collateral_vault,
            supply_oracle,
            collateral_oracle,
        ),
{
    let data = AurataInstruction::DepositAplCollateral(DepositAplCollateralInstruction { amount }).to_bytes();
    let accounts = borrow_move_metas(
        autara_program_id,
        market,
        borrow_position,
        authority,
        authority_collateral_ata,
        market_collateral_vault,
        supply_oracle,
        collateral_oracle,
    );
    Instruction { program_id: autara_program_id, accounts, data }
}

/// The instruction withdrawing `amount` collateral tokens, or all of them
/// when `withdraw_all`, from the position.
pub fn withdraw_apl_collateral_ix(
    autara_program_id: Pubkey,
    market: Pubkey,
    authority: Pubkey,
    borrow_position: Pubkey,
    authority_collateral_ata: Pubkey,
    market_collateral_vault: Pubkey,
    supply_oracle: Pubkey,
    collateral_oracle: Pubkey,
    amount: u64,
    withdraw_all: bool,
) -> (r: Instruction)
    ensures
        r.program_id == autara_program_id,
        r.data@ == AurataInstruction::WithdrawAplCollateral(
            WithdrawAplCollateralInstruction { amount, withdraw_all },
        ).wire(),
        is_borrow_move_accounts(
            r.accounts@,
            autara_program_id,
            market,
            borrow_position,
            authority,
            authority_collateral_ata,
            market_collateral_vault,
            supply_oracle,
            collateral_oracle,
        ),
{
    let data = AurataInstruction::WithdrawAplCollateral(
        WithdrawAplCollateralInstruction { amount, withdraw_all },
    ).to_bytes();
    let accounts = borrow_move_metas(
        autara_program_id,
        market,
        borrow_position,
        authority,
        authority_collateral_ata,
        market_collateral_vault,
        supply_oracle,
        collateral_oracle,
    );
    Instruction { program_id: autara_program_id, accounts, data }
}

/// The instruction repaying `amount` tokens, or the whole debt when
/// `repay_all`, on the position.
pub fn repay_apl_ix(
    autara_program_id: Pubkey,
    market: Pubkey,
    borrow_position: Pubkey,
    authority: Pubkey,
    authority_supply_ata: Pubkey,
    market_supply_vault: Pubkey,
    supply_oracle: Pubkey,
    collateral_oracle: Pubkey,
    amount: u64,
    repay_all: bool,
) -> (r: Instruction)
    ensures
        r.program_id == autara_program_id,
        r.data@ == AurataInstruction::RepayApl(RepayAplInstruction { amount, repay_all }).wire(),
        is_borrow_move_accounts(
            r.accounts@,
            autara_program_id,
            market,
            borrow_position,
            authority,
            authority_supply_ata,
            market_supply_vault,
            supply_oracle,
            collateral_oracle,
        ),
{
    let data = AurataInstruction::RepayApl(RepayAplInstruction { amount, repay_all }).to_bytes();
    let accounts = borrow_move_metas(
        autara_program_id,
        market,
        borrow_position,
        authority,
        authority_supply_ata,
        market_supply_vault,
        supply_oracle,
        collateral_oracle,
    );
    Instruction { program_id: autara_program_id, accounts, data }
}

/// The accounts of an instruction moving both tokens of a borrow position,
/// followed by those of the callback: the market and position (writable),
/// the authority (signer), the user's supply account and the supply vault,
/// the user's collateral account and the collateral vault (writable), the
/// token program, the two oracles and the program (read only).
pub open spec fn is_double_move_accounts(
    accounts: Seq<AccountMeta>,
    autara_program_id: Pubkey,
    market: Pubkey,
    position: Pubkey,
    authority: Pubkey,
    user_supply_ata: Pubkey,
    supply_vault: Pubkey,
    user_collateral_ata: Pubkey,
    collateral_vault: Pubkey,
    supply_oracle: Pubkey,
    collateral_oracle: Pubkey,
    callback: Option<Instruction>,
) -> bool {
    &&& accounts.len() == 11 + callback_accounts(callback).len()
    &&& accounts[7].pubkey.0@ == apl_token_program_bytes()
    &&& accounts == seq![
        writable(market, false),
        writable(position, false),
        readonly(authority, true),
        writable(user_supply_ata, false),
        writable(supply_vault, false),
        writable(user_collateral_ata, false),
        writable(collateral_vault, false),
        readonly(accounts[7].pubkey, false),
        readonly(supply_oracle, false),
        readonly(collateral_oracle, false),
        readonly(autara_program_id, false),
    ] + callback_accounts(callback)
}

fn double_move_metas(
    autara_program_id: Pubkey,
    market: Pubkey,
    position: Pubkey,
    authority: Pubkey,
    user_supply_ata: Pubkey,
    supply_vault: Pubkey,
    user_collateral_ata: Pubkey,
    collateral_vault: Pubkey,
    supply_oracle: Pubkey,
    collateral_oracle: Pubkey,
    callback: &Option<Instruction>,
) -> (r: Vec<AccountMeta>)
    ensures
        is_double_move_accounts(
            r@,
            autara_program_id,
            market,
            position,
            authority,
            user_supply_ata,
            supply_vault,
            user_collateral_ata,
            collateral_vault,
            supply_oracle,
            collateral_oracle,
            *callback,
        ),
{
    let mut r = vec![
        AccountMeta::new(market, false),
        AccountMeta::new(position, false),
        AccountMeta::new_readonly(authority, true),
        AccountMeta::new(user_supply_ata, false),
        AccountMeta::new(supply_vault, false),
        AccountMeta::new(user_collateral_ata, false),
        AccountMeta::new(collateral_vault, false),
        AccountMeta::new_readonly(apl_token_program_id(), false),
        AccountMeta::new_readonly(supply_oracle, false),
        AccountMeta::new_readonly(collateral_oracle, false),
        AccountMeta::new_readonly(autara_program_id, false),
    ];
    let ghost head = r@;
    match callback {
        Some(ix) => append_metas(&mut r, &ix.accounts),
        None => {},
    }
    proof {
        assert(head =~= seq![
            writable(market, false),
            writable(position, false),
            readonly(authority, true),
            writable(user_supply_ata, false),
            writable(supply_vault, false),
            writable(user_collateral_ata, false),
            writable(collateral_vault, false),
            readonly(head[7].pubkey, false),
            readonly(supply_oracle, false),
            readonly(collateral_oracle, false),
            readonly(autara_program_id, false),
        ]);
        assert(r@ =~= head + callback_accounts(*callback));
    }
    r
}

/// The instruction withdrawing collateral and repaying in one step, with
/// the accounts of its callback after the instruction's own.
pub fn withdraw_repay_apl_ix(
    autara_program_id: Pubkey,
    market: Pubkey,
    authority: Pubkey,
    borrow_position: Pubkey,
    authority_supply_ata: Pubkey,
    market_supply_vault: Pubkey,
    authority_collateral_ata: Pubkey,
    market_collateral_vault: Pubkey,
    supply_oracle: Pubkey,
    collateral_oracle: Pubkey,
    ix: WithdrawRepayAplInstruction,
) -> (r: Instruction)
    requires
        ix.fits(),
    ensures
        r.program_id == autara_program_id,
        r.data@ == AurataInstruction::WithdrawRepayApl(ix).wire(),
        is_double_move_accounts(
            r.accounts@,
            autara_program_id,
            market,
            borrow_position,
            authority,
            authority_supply_ata,
            market_supply_vault,
            authority_collateral_ata,
            market_collateral_vault,
            supply_oracle,
            collateral_oracle,
            ix.ix_callback,
        ),
{
    let accounts = double_move_metas(
        autara_program_id,
        market,
        borrow_position,
        authority,
        authority_supply_ata,
        market_supply_vault,
        authority_collateral_ata,
        market_collateral_vault,
        supply_oracle,
        collateral_oracle,
        &ix.ix_callback,
    );
    let data = AurataInstruction::WithdrawRepayApl(ix).to_bytes();
    Instruction { program_id: autara_program_id, accounts, data }
}

/// The instruction borrowing and depositing collateral in one step, with
/// the accounts of its callback after the instruction's own.
pub fn borrow_deposit_apl_ix(
    autara_program_id: Pubkey,
    market: Pubkey,
    authority: Pubkey,
    borrow_position: Pubkey,
    authority_supply_ata: Pubkey,
    market_supply_vault: Pubkey,
    authority_collateral_ata: Pubkey,
    market_collateral_vault: Pubkey,
    supply_oracle: Pubkey,
    collateral_oracle: Pubkey,
    ix: BorrowDepositAplInstruction,
) -> (r: Instruction)
    requires
        ix.fits(),
    ensures
        r.program_id == autara_program_id,
        r.data@ == AurataInstruction::BorrowDepositApl(ix).wire(),
        is_double_move_accounts(
            r.accounts@,
            autara_program_id,
            market,
            borrow_position,
            authority,
            authority_supply_ata,
            market_supply_vault,
            authority_collateral_ata,
            market_collateral_vault,
            supply_oracle,
            collateral_oracle,
            ix.ix_callback,
        ),
{
    let accounts = double_move_metas(
        autara_program_id,
        market,
        borrow_position,
        authority,
        authority_supply_ata,
        market_supply_vault,
        authority_collateral_ata,
        market_collateral_vault,
        supply_oracle,
        collateral_oracle,
        &ix.ix_callback,
    );
    let data = AurataInstruction::BorrowDepositApl(ix).to_bytes();
    Instruction { program_id: autara_program_id, accounts, data }
}

} // verus!
