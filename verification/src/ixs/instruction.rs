//! An instruction for a program: the program, the accounts it touches and
//! its data.
use crate::ixs::wire::{bool_bytes, put_bool, put_bytes, put_key, put_u32, u32_bytes};
use crate::pubkey::Pubkey;
use vstd::prelude::*;

verus! {

/// An account an instruction touches, and whether it signs and is written.
#[derive(Clone, Copy, Debug, PartialEq, Eq)]
pub struct AccountMeta {
    pub pubkey: Pubkey,
    pub is_signer: bool,
    pub is_writable: bool,
}

impl AccountMeta {
    /// A writable account.
    pub fn new(pubkey: Pubkey, is_signer: bool) -> (r: AccountMeta)
        ensures
            r == (AccountMeta { pubkey, is_signer, is_writable: true }),
    {
        AccountMeta { pubkey, is_signer, is_writable: true }
    }

    /// An account that is only read.
    pub fn new_readonly(pubkey: Pubkey, is_signer: bool) -> (r: AccountMeta)
        ensures
            r == (AccountMeta { pubkey, is_signer, is_writable: false }),
    {
        AccountMeta { pubkey, is_signer, is_writable: false }
    }
}

pub open spec fn writable(pubkey: Pubkey, is_signer: bool) -> AccountMeta {
    AccountMeta { pubkey, is_signer, is_writable: true }
}

pub open spec fn readonly(pubkey: Pubkey, is_signer: bool) -> AccountMeta {
    AccountMeta { pubkey, is_signer, is_writable: false }
}

/// An instruction: the program to run, the accounts and the data.
#[derive(Clone, Debug)]
pub struct Instruction {
    pub program_id: Pubkey,
    pub accounts: Vec<AccountMeta>,
    pub data: Vec<u8>,
}

pub open spec fn meta_bytes(m: AccountMeta) -> Seq<u8> {
    m.pubkey.0@ + bool_bytes(m.is_signer) + bool_bytes(m.is_writable)
}

pub open spec fn metas_bytes(s: Seq<AccountMeta>) -> Seq<u8>
    decreases s.len(),
{
    if s.len() == 0 {
        seq![]
    } else {
        metas_bytes(s.drop_last()) + meta_bytes(s.last())
    }
}

/// The bytes of an instruction carried inside another one: the program, the
/// number of accounts and each account, the length of the data and the data.
pub open spec fn instruction_bytes(program_id: Pubkey, accounts: Seq<AccountMeta>, data: Seq<u8>) -> Seq<
    u8,
> {
    program_id.0@ + u32_bytes(accounts.len() as u32) + metas_bytes(accounts) + u32_bytes(
        data.len() as u32,
    ) + data
}

/// Whether the numbers of accounts and of data bytes fit in four bytes.
pub open spec fn fits_wire(accounts: Seq<AccountMeta>, data: Seq<u8>) -> bool {
    accounts.len() <= u32::MAX && data.len() <= u32::MAX
}

impl Instruction {
    pub open spec fn wire(&self) -> Seq<u8> {
        instruction_bytes(self.program_id, self.accounts@, self.data@)
    }

    pub open spec fn fits(&self) -> bool {
        fits_wire(self.accounts@, self.data@)
    }

    /// Appends the bytes of the instruction to `out`.
    pub fn write_to(&self, out: &mut Vec<u8>)
        requires
            self.fits(),
        ensures
            final(out)@ == old(out)@ + self.wire(),
    {
        put_key(out, &self.program_id);
        put_u32(out, self.accounts.len() as u32);
        let ghost start = out@;
        let mut i: usize = 0;
        while i < self.accounts.len()
            invariant
                i <= self.accounts@.len(),
                out@ == start + metas_bytes(self.accounts@.take(i as int)),
            decreases self.accounts@.len() - i,
        {
            let m = self.accounts[i];
            put_key(out, &m.pubkey);
            put_bool(out, m.is_signer);
            put_bool(out, m.is_writable);
            proof {
                let t = self.accounts@.take(i as int + 1);
                assert(t.drop_last() =~= self.accounts@.take(i as int));
                assert(t.last() == m);
                assert(out@ =~= start + metas_bytes(t));
            }
            i += 1;
        }
        proof {
            assert(self.accounts@.take(self.accounts@.len() as int) =~= self.accounts@);
        }
        put_u32(out, self.data.len() as u32);
        put_bytes(out, self.data.as_slice());
        proof {
            assert(out@ =~= old(out)@ + self.wire());
        }
    }
}

/// Appends the accounts of `more` to `out`.
pub fn append_metas(out: &mut Vec<AccountMeta>, more: &Vec<AccountMeta>)
    ensures
        final(out)@ == old(out)@ + more@,
{
    let mut i: usize = 0;
    while i < more.len()
        invariant
            i <= more@.len(),
            out@ == old(out)@ + more@.take(i as int),
        decreases more@.len() - i,
    {
        out.push(more[i]);
        i += 1;
        proof {
            assert(out@ =~= old(out)@ + more@.take(i as int));
        }
    }
    proof {
        assert(more@.take(more@.len() as int) =~= more@);
    }
}

} // verus!
