//! Instructions of the protocol admin: the global config and the protocol
//! fees.
use crate::ixs::instruction::{readonly, writable, AccountMeta, Instruction};
use crate::ixs::types::AurataInstruction;
use crate::ixs::wire::{
    bool_bytes, opt_key_bytes, opt_u16_bytes, put_bool, put_key, put_opt_key, put_opt_u16, put_u16,
    put_u8, u16_bytes,
};
use crate::pda::{find_global_config_pda, global_config_word, program_address};
use crate::pubkey::Pubkey;
use crate::token::{apl_token_program_bytes, apl_token_program_id, system_program_bytes, system_program_id};
use vstd::prelude::*;

verus! {

#[derive(Clone, Copy, Debug, PartialEq, Eq)]
pub struct CreateGlobalConfigInstruction {
    pub bump: u8,
    pub admin: Pubkey,
    pub fee_receiver: Pubkey,
    pub protocol_fee_share_in_bps: u16,
}

/// Changes to the global config; `None` leaves a setting as it is.
#[derive(Clone, Copy, Debug, PartialEq, Eq)]
pub struct UpdateGlobalConfigInstruction {
    pub accept_nomination: bool,
    pub nominated_admin: Option<Pubkey>,
    pub fee_receiver: Option<Pubkey>,
    pub protocol_fee_share_in_bps: Option<u16>,
}

impl Default for UpdateGlobalConfigInstruction {
    fn default() -> (r: Self)
        ensures
            r == (UpdateGlobalConfigInstruction {
                accept_nomination: false,
                nominated_admin: None,
                fee_receiver: None,
                protocol_fee_share_in_bps: None,
            }),
    {
        UpdateGlobalConfigInstruction {
            accept_nomination: false,
            nominated_admin: None,
            fee_receiver: None,
            protocol_fee_share_in_bps: None,
        }
    }
}

impl CreateGlobalConfigInstruction {
    pub open spec fn wire(&self) -> Seq<u8> {
        seq![self.bump] + self.admin.0@ + self.fee_receiver.0@ + u16_bytes(
            self.protocol_fee_share_in_bps,
        )
    }

    pub fn write_to(&self, out: &mut Vec<u8>)
        ensures
            final(out)@ == old(out)@ + self.wire(),
    {
        put_u8(out, self.bump);
        put_key(out, &self.admin);
        put_key(out, &self.fee_receiver);
        put_u16(out, self.protocol_fee_share_in_bps);
        proof {
            assert(out@ =~= old(out)@ + self.wire());
        }
    }
}

impl UpdateGlobalConfigInstruction {
    pub open spec fn wire(&self) -> Seq<u8> {
        bool_bytes(self.accept_nomination) + opt_key_bytes(self.nominated_admin) + opt_key_bytes(
            self.fee_receiver,
        ) + opt_u16_bytes(self.protocol_fee_share_in_bps)
    }

    pub fn write_to(&self, out: &mut Vec<u8>)
        ensures
            final(out)@ == old(out)@ + self.wire(),
    {
        put_bool(out, self.accept_nomination);
        put_opt_key(out, &self.nominated_admin);
        put_opt_key(out, &self.fee_receiver);
        put_opt_u16(out, self.protocol_fee_share_in_bps);
        proof {
            assert(out@ =~= old(out)@ + self.wire());
        }
    }
}

/// The instruction creating the global config, with its address; none only
/// when no address can be derived for it.
pub fn create_global_config_ix(
    autara_program_id: Pubkey,
    payer: Pubkey,
    admin: Pubkey,
    fee_receiver: Pubkey,
    protocol_fee_share_in_bps: u16,
) -> (r: Option<(Pubkey, Instruction)>)
    ensures
        match program_address(seq![global_config_word()], autara_program_id.0@) {
            Some((k, bump)) => r matches Some((config, ix)) && config.0@ == k && ix.data@
                == AurataInstruction::CreateGlobalConfig(
                CreateGlobalConfigInstruction { bump, admin, fee_receiver, protocol_fee_share_in_bps },
            ).wire(),
            None => r is None,
        },
        r matches Some((config, ix)) ==> {
            &&& ix.program_id == autara_program_id
            &&& ix.accounts@.len() == 4
            &&& ix.accounts@[0] == writable(payer, true)
            &&& ix.accounts@[1] == writable(config, false)
            &&& ix.accounts@[2].pubkey.0@ == system_program_bytes()
            &&& !ix.accounts@[2].is_signer && !ix.accounts@[2].is_writable
            &&& ix.accounts@[3] == readonly(autara_program_id, false)
        },
{
    let (global_config_pda, bump) = match find_global_config_pda(&autara_program_id) {
        Some(found) => found,
        None => return None,
    };
    let data = AurataInstruction::CreateGlobalConfig(
        CreateGlobalConfigInstruction { bump, admin, fee_receiver, protocol_fee_share_in_bps },
    ).to_bytes();
    let accounts = vec![
        AccountMeta::new(payer, true),
        AccountMeta::new(global_config_pda, false),
        AccountMeta::new_readonly(system_program_id(), false),
        AccountMeta::new_readonly(autara_program_id, false),
    ];
    Some((global_config_pda, Instruction { program_id: autara_program_id, accounts, data }))
}

/// Whether `key` is the address of the global config under `program_id`.
pub open spec fn is_global_config(program_id: Pubkey, key: Pubkey) -> bool {
    program_address(seq![global_config_word()], program_id.0@) matches Some((k, _)) && key.0@ == k
}

/// Whether no address can be derived for the global config.
pub open spec fn no_global_config(program_id: Pubkey) -> bool {
    program_address(seq![global_config_word()], program_id.0@) is None
}

/// The instruction by which `admin` updates the global config; none only
/// when no address can be derived for the config.
pub fn update_global_config_ix(
    autara_program_id: Pubkey,
    admin: Pubkey,
    update: UpdateGlobalConfigInstruction,
) -> (r: Option<Instruction>)
    ensures
        r is None <==> no_global_config(autara_program_id),
        r matches Some(ix) ==> {
            &&& ix.program_id == autara_program_id
            &&& ix.data@ == AurataInstruction::UpdateGlobalConfig(update).wire()
            &&& ix.accounts@.len() == 3
            &&& ix.accounts@[0] == writable(admin, true)
            &&& is_global_config(autara_program_id, ix.accounts@[1].pubkey)
            &&& !ix.accounts@[1].is_signer && ix.accounts@[1].is_writable
            &&& ix.accounts@[2] == readonly(autara_program_id, false)
        },
{
    let (global_config_pda, _) = match find_global_config_pda(&autara_program_id) {
        Some(found) => found,
        None => return None,
    };
    let data = AurataInstruction::UpdateGlobalConfig(update).to_bytes();
    let accounts = vec![
        AccountMeta::new(admin, true),
        AccountMeta::new(global_config_pda, false),
        AccountMeta::new_readonly(autara_program_id, false),
    ];
    Some(Instruction { program_id: autara_program_id, accounts, data })
}

/// The instruction by which `admin` sends the protocol fees of `market` to
/// `protocol_fee_receiver`; none only when no address can be derived for
/// the global config.
pub fn reedeem_protocol_fees_ix(
    autara_program_id: Pubkey,
    market: Pubkey,
    admin: Pubkey,
    protocol_fee_receiver: Pubkey,
    market_vault: Pubkey,
) -> (r: Option<Instruction>)
    ensures
        r is None <==> no_global_config(autara_program_id),
        r matches Some(ix) ==> {
            &&& ix.program_id == autara_program_id
            &&& ix.data@ == AurataInstruction::ReedeemProtocolFees.wire()
            &&& ix.accounts@.len() == 7
            &&& ix.accounts@[0] == writable(admin, true)
            &&& is_global_config(autara_program_id, ix.accounts@[1].pubkey)
            &&& !ix.accounts@[1].is_signer && !ix.accounts@[1].is_writable
            &&& ix.accounts@[2] == writable(market, false)
            &&& ix.accounts@[3] == writable(protocol_fee_receiver, false)
            &&& ix.accounts@[4] == writable(market_vault, false)
            &&& ix.accounts@[5].pubkey.0@ == apl_token_program_bytes()
            &&& !ix.accounts@[5].is_signer && !ix.accounts@[5].is_writable
            &&& ix.accounts@[6] == readonly(autara_program_id, false)
        },
{
    let (global_config_pda, _) = match find_global_config_pda(&autara_program_id) {
        Some(found) => found,
        None => return None,
    };
    let data = AurataInstruction::ReedeemProtocolFees.to_bytes();
    let accounts = vec![
        AccountMeta::new(admin, true),
        AccountMeta::new_readonly(global_config_pda, false),
        AccountMeta::new(market, false),
        AccountMeta::new(protocol_fee_receiver, false),
        AccountMeta::new(market_vault, false),
        AccountMeta::new_readonly(apl_token_program_id(), false),
        AccountMeta::new_readonly(autara_program_id, false),
    ];
    Some(Instruction { program_id: autara_program_id, accounts, data })
}

} // verus!
