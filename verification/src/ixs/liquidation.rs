//! Instructions that close unhealthy positions: liquidation and loss
//! socialization.
use crate::ixs::borrow::{callback_bytes, callback_fits, put_callback};
use crate::ixs::instruction::{append_metas, readonly, writable, AccountMeta, Instruction};
use crate::ixs::types::AurataInstruction;
use crate::ixs::wire::{put_u64, u64_bytes};
use crate::pubkey::Pubkey;
use crate::token::{apl_token_program_bytes, apl_token_program_id};
use vstd::prelude::*;

verus! {

/// Repay at most `max_borrowed_atoms_to_repay` of an unhealthy position's
/// debt for at least `min_collateral_atoms_to_receive` of its collateral,
/// with an instruction run between receiving and repaying.
#[derive(Clone, Debug)]
pub struct LiquidateInstruction {
    pub max_borrowed_atoms_to_repay: u64,
    pub min_collateral_atoms_to_receive: u64,
    pub ix_callback: Option<Instruction>,
}

#[derive(Clone, Copy, Debug, PartialEq, Eq)]
pub struct SocializeLossInstruction {}

impl LiquidateInstruction {
    pub open spec fn wire(&self) -> Seq<u8> {
        u64_bytes(self.max_borrowed_atoms_to_repay) + u64_bytes(
            self.min_collateral_atoms_to_receive,
        ) + callback_bytes(self.ix_callback)
    }

    pub open spec fn fits(&self) -> bool {
        callback_fits(self.ix_callback)
    }

    pub fn write_to(&self, out: &mut Vec<u8>)
        requires
            self.fits(),
        ensures
            final(out)@ == old(out)@ + self.wire(),
    {
        put_u64(out, self.max_borrowed_atoms_to_repay);
        put_u64(out, self.min_collateral_atoms_to_receive);
        put_callback(out, &self.ix_callback);
        proof {
            assert(out@ =~= old(out)@ + self.wire());
        }
    }
}

/// The callback's program (read only) and accounts, if any.
pub open spec fn liquidation_callback_accounts(x: Option<Instruction>) -> Seq<AccountMeta> {
    match x {
        Some(ix) => seq![readonly(ix.program_id, false)] + ix.accounts@,
        None => seq![],
    }
}

/// The instruction liquidating `borrow_position`: the market and position
/// (writable), the liquidator (signer), its two token accounts and the two
/// vaults (writable), the token program, the two oracles and the program
/// (read only), then the callback's program and accounts.
pub fn liquidate_ix(
    autara_program_id: Pubkey,
    market: Pubkey,
    borrow_position: Pubkey,
    liquidator: Pubkey,
    liquidator_supply_ata: Pubkey,
    liquidator_collateral_ata: Pubkey,
    market_supply_vault: Pubkey,
    market_collateral_vault: Pubkey,
    supply_oracle: Pubkey,
    collateral_oracle: Pubkey,
    max_borrowed_atoms_to_repay: u64,
    min_collateral_atoms_to_receive: u64,
    ix_callback: Option<Instruction>,
) -> (r: Instruction)
    requires
        callback_fits(ix_callback),
    ensures
        r.program_id == autara_program_id,
        r.data@ == AurataInstruction::Liquidate(
            LiquidateInstruction {
                max_borrowed_atoms_to_repay,
                min_collateral_atoms_to_receive,
                ix_callback,
            },
        ).wire(),
        r.accounts@.len() == 11 + liquidation_callback_accounts(ix_callback).len(),
        r.accounts@[7].pubkey.0@ == apl_token_program_bytes(),
        r.accounts@ == seq![
            writable(market, false),
            writable(borrow_position, false),
            readonly(liquidator, true),
            writable(liquidator_supply_ata, false),
            writable(liquidator_collateral_ata, false),
            writable(market_supply_vault, false),
            writable(market_collateral_vault, false),
            readonly(r.accounts@[7].pubkey, false),
            readonly(supply_oracle, false),
            readonly(collateral_oracle, false),
            readonly(autara_program_id, false),
        ] + liquidation_callback_accounts(ix_callback),
{
    let mut accounts = vec![
        AccountMeta::new(market, false),
        AccountMeta::new(borrow_position, false),
        AccountMeta::new_readonly(liquidator, true),
        AccountMeta::new(liquidator_supply_ata, false),
        AccountMeta::new(liquidator_collateral_ata, false),
        AccountMeta::new(market_supply_vault, false),
        AccountMeta::new(market_collateral_vault, false),
        AccountMeta::new_readonly(apl_token_program_id(), false),
        AccountMeta::new_readonly(supply_oracle, false),
        AccountMeta::new_readonly(collateral_oracle, false),
        AccountMeta::new_readonly(autara_program_id, false),
    ];
    let ghost head = accounts@;
    match &ix_callback {
        Some(callback) => {
            accounts.push(AccountMeta::new_readonly(callback.program_id, false));
            append_metas(&mut accounts, &callback.accounts);
        },
        None => {},
    }
    proof {
        assert(accounts@ =~= head + liquidation_callback_accounts(ix_callback));
        assert(head =~= seq![
            writable(market, false),
            writable(borrow_position, false),
            readonly(liquidator, true),
            writable(liquidator_supply_ata, false),
            writable(liquidator_collateral_ata, false),
            writable(market_supply_vault, false),
            writable(market_collateral_vault, false),
            readonly(head[7].pubkey, false),
            readonly(supply_oracle, false),
            readonly(collateral_oracle, false),
            readonly(autara_program_id, false),
        ]);
    }
    let data = AurataInstruction::Liquidate(
        LiquidateInstruction { max_borrowed_atoms_to_repay, min_collateral_atoms_to_receive, ix_callback },
    ).to_bytes();
    Instruction { program_id: autara_program_id, accounts, data }
}

/// The instruction spreading the bad debt of `borrow_position` over the
/// suppliers, its collateral going to `receiver_collateral_ata`.
pub fn socialize_loss_ix(
    autara_program_id: Pubkey,
    market: Pubkey,
    borrow_position: Pubkey,
    curator: Pubkey,
    receiver_collateral_ata: Pubkey,
    market_collateral_vault: Pubkey,
    supply_oracle: Pubkey,
    collateral_oracle: Pubkey,
) -> (r: Instruction)
    ensures
        r.program_id == autara_program_id,
        r.data@ == AurataInstruction::SocializeLoss(SocializeLossInstruction {  }).wire(),
        r.accounts@.len() == 9,
        r.accounts@[5].pubkey.0@ == apl_token_program_bytes(),
        r.accounts@ == seq![
            writable(market, false),
            writable(borrow_position, false),
            readonly(curator, true),
            writable(receiver_collateral_ata, false),
            writable(market_collateral_vault, false),
            readonly(r.accounts@[5].pubkey, false),
            readonly(supply_oracle, false),
            readonly(collateral_oracle, false),
            readonly(autara_program_id, false),
        ],
{
    let accounts = vec![
        AccountMeta::new(market, false),
        AccountMeta::new(borrow_position, false),
        AccountMeta::new_readonly(curator, true),
        AccountMeta::new(receiver_collateral_ata, false),
        AccountMeta::new(market_collateral_vault, false),
        AccountMeta::new_readonly(apl_token_program_id(), false),
        AccountMeta::new_readonly(supply_oracle, false),
        AccountMeta::new_readonly(collateral_oracle, false),
        AccountMeta::new_readonly(autara_program_id, false),
    ];
    proof {
        assert(accounts@ =~= seq![
            writable(market, false),
            writable(borrow_position, false),
            readonly(curator, true),
            writable(receiver_collateral_ata, false),
            writable(market_collateral_vault, false),
            readonly(accounts@[5].pubkey, false),
            readonly(supply_oracle, false),
            readonly(collateral_oracle, false),
            readonly(autara_program_id, false),
        ]);
    }
    let data = AurataInstruction::SocializeLoss(SocializeLossInstruction {  }).to_bytes();
    Instruction { program_id: autara_program_id, accounts, data }
}

} // verus!
