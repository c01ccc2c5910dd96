//! The instruction by which the program logs an event.
use crate::event::AutaraEvent;
use crate::ixs::instruction::{readonly, AccountMeta, Instruction};
use crate::ixs::types::AurataInstruction;
use crate::pubkey::Pubkey;
use vstd::prelude::*;

verus! {

/// The instruction logging `event` about `market`: the `Log` tag, then the
/// event; the market signs.
pub fn log_ix(autara_program_id: &Pubkey, market: &Pubkey, event: AutaraEvent) -> (r: Instruction)
    ensures
        r.program_id == *autara_program_id,
        r.data@ == AurataInstruction::Log.wire() + event.wire(),
        r.accounts@ == seq![readonly(*market, true)],
{
    let mut data = AurataInstruction::Log.to_bytes();
    event.write_to(&mut data);
    let accounts = vec![AccountMeta::new_readonly(*market, true)];
    proof {
        assert(accounts@ =~= seq![readonly(*market, true)]);
    }
    Instruction { program_id: *autara_program_id, accounts, data }
}

} // verus!
