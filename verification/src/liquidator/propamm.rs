//! Quotes of the quote-signed vault that the liquidator may sell seized
//! collateral to.
use crate::constant::pow10;
use crate::ixs::instruction::{writable, AccountMeta, Instruction};
use crate::ixs::wire::{put_key, put_u128, put_u64, put_u8, u128_bytes, u64_bytes};
use crate::pda::{program_address, try_find_program_address};
use crate::pubkey::Pubkey;
use crate::token::{apl_token_program_bytes, apl_token_program_id, system_program_bytes, system_program_id};
use vstd::prelude::*;
use vstd::slice::slice_to_vec;

verus! {

/// Direction of a trade against the vault, seen from its base token.
#[derive(Debug, Clone, Copy, PartialEq, Eq, Structural)]
pub enum Side {
    Buy,
    Sell,
}

/// The accounts and token decimals of the vault.
#[derive(Debug, Clone, Copy, PartialEq, Eq)]
pub struct PropAmm {
    pub program_id: Pubkey,
    pub config_pubkey: Pubkey,
    pub quote_signer_pk: Pubkey,
    pub base_mint: Pubkey,
    pub quote_mint: Pubkey,
    pub base_vault: Pubkey,
    pub quote_vault: Pubkey,
    pub base_decimals: u32,
    pub quote_decimals: u32,
}

/// Micro-units in one unit of the price.
pub const PRICE_SCALE: u128 = 1_000_000;

/// The nominal trade of `amount_in` of `collateral_mint` into `supply_mint`
/// at `price_micro` millionths of a quote token per base token: selling base
/// gives `amount * price * 10^quote_dec / (10^6 * 10^base_dec)` quote atoms,
/// buying base gives `amount * 10^6 * 10^base_dec / (price * 10^quote_dec)`
/// base atoms, both rounded down and taken modulo 2^64. Nothing when the
/// price or the amount is zero, when the output rounds to zero, or when the
/// pair is not the vault's.
pub open spec fn spec_quote(
    p: PropAmm,
    collateral_mint: Pubkey,
    supply_mint: Pubkey,
    amount_in: u64,
    price_micro: u128,
) -> Option<(Side, u64, u64, u64)> {
    if price_micro == 0 || amount_in == 0 {
        None
    } else if collateral_mint == p.base_mint && supply_mint == p.quote_mint {
        let num: int = amount_in * price_micro * pow10(p.quote_decimals as nat);
        let den: int = 1_000_000int * pow10(p.base_decimals as nat);
        let quote_amount = #[verifier::truncate] ((num / den) as u64);
        if quote_amount == 0 {
            None
        } else {
            Some((Side::Sell, amount_in, quote_amount, quote_amount))
        }
    } else if collateral_mint == p.quote_mint && supply_mint == p.base_mint {
        let num: int = amount_in * 1_000_000int * pow10(p.base_decimals as nat);
        let den: int = price_micro * pow10(p.quote_decimals as nat);
        let base_amount = #[verifier::truncate] ((num / den) as u64);
        if base_amount == 0 {
            None
        } else {
            Some((Side::Buy, base_amount, amount_in, base_amount))
        }
    } else {
        None
    }
}

/// The products of a quote fit in 128 bits.
pub open spec fn quote_fits(
    p: PropAmm,
    collateral_mint: Pubkey,
    supply_mint: Pubkey,
    amount_in: u64,
    price_micro: u128,
) -> bool {
    if price_micro == 0 || amount_in == 0 {
        true
    } else if collateral_mint == p.base_mint && supply_mint == p.quote_mint {
        amount_in * price_micro * pow10(p.quote_decimals as nat) <= u128::MAX && 1_000_000 * pow10(
            p.base_decimals as nat,
        ) <= u128::MAX
    } else if collateral_mint == p.quote_mint && supply_mint == p.base_mint {
        amount_in * 1_000_000 * pow10(p.base_decimals as nat) <= u128::MAX && price_micro * pow10(
            p.quote_decimals as nat,
        ) <= u128::MAX
    } else {
        true
    }
}

proof fn lemma_pow10_pos(n: nat)
    ensures
        pow10(n) >= 1,
    decreases n,
{
    if n > 0 {
        lemma_pow10_pos((n - 1) as nat);
    }
}

/// `10^n` in 128 bits.
fn pow10_u128(n: u32) -> (r: u128)
    requires
        pow10(n as nat) <= u128::MAX,
    ensures
        r == pow10(n as nat),
{
    let mut r: u128 = 1;
    let mut i: u32 = 0;
    while i < n
        invariant
            i <= n,
            r == pow10(i as nat),
            pow10(n as nat) <= u128::MAX,
        decreases n - i,
    {
        proof {
            crate::constant::lemma_pow10_mono((i + 1) as nat, n as nat);
        }
        r = r * 10;
        i += 1;
    }
    r
}

proof fn lemma_product_bound(a: int, b: int, c: int, bound: int)
    requires
        a >= 0,
        b >= 0,
        c >= 1,
        a * b * c <= bound,
    ensures
        a * b <= bound,
{
    assert(a * b <= a * b * c) by (nonlinear_arith)
        requires
            a * b >= 0,
            c >= 1,
    ;
    assert(a * b >= 0) by (nonlinear_arith)
        requires
            a >= 0,
            b >= 0,
    ;
}

impl PropAmm {
    /// Whether the vault trades this pair, in either direction.
    pub fn supports(&self, collateral_mint: &Pubkey, supply_mint: &Pubkey) -> (r: bool)
        ensures
            r == ((*collateral_mint == self.base_mint && *supply_mint == self.quote_mint) || (
            *collateral_mint == self.quote_mint && *supply_mint == self.base_mint)),
    {
        (collateral_mint.same_as(&self.base_mint) && supply_mint.same_as(&self.quote_mint)) || (
        collateral_mint.same_as(&self.quote_mint) && supply_mint.same_as(&self.base_mint))
    }

    /// The side, base amount, quote amount and output of trading
    /// `amount_in`, see `spec_quote`.
    pub fn quote(
        &self,
        collateral_mint: &Pubkey,
        supply_mint: &Pubkey,
        amount_in: u64,
        price_micro: u128,
    ) -> (r: Option<(Side, u64, u64, u64)>)
        requires
            quote_fits(*self, *collateral_mint, *supply_mint, amount_in, price_micro),
        ensures
            r == spec_quote(*self, *collateral_mint, *supply_mint, amount_in, price_micro),
    {
        if price_micro == 0 || amount_in == 0 {
            return None;
        }
        if collateral_mint.same_as(&self.base_mint) && supply_mint.same_as(&self.quote_mint) {
            proof {
                lemma_pow10_pos(self.quote_decimals as nat);
                lemma_pow10_pos(self.base_decimals as nat);
                lemma_product_bound(
                    amount_in as int,
                    price_micro as int,
                    pow10(self.quote_decimals as nat) as int,
                    u128::MAX as int,
                );
                assert(amount_in as int * price_micro as int >= 1) by (nonlinear_arith)
                    requires
                        amount_in >= 1,
                        price_micro >= 1,
                ;
                lemma_product_bound(
                    1,
                    pow10(self.quote_decimals as nat) as int,
                    amount_in as int * price_micro as int,
                    u128::MAX as int,
                );
                lemma_product_bound(
                    1,
                    pow10(self.base_decimals as nat) as int,
                    1_000_000,
                    u128::MAX as int,
                );
                assert(amount_in * price_micro * pow10(self.quote_decimals as nat) == (amount_in
                    * price_micro) * pow10(self.quote_decimals as nat));
                assert(amount_in as int * price_micro as int * pow10(self.quote_decimals as nat)
                    == pow10(self.quote_decimals as nat) * (amount_in as int * price_micro as int))
                    by (nonlinear_arith);
                assert(1_000_000 * pow10(self.base_decimals as nat) == pow10(
                    self.base_decimals as nat,
                ) * 1_000_000) by (nonlinear_arith);
            }
            let num: u128 = (amount_in as u128) * price_micro * pow10_u128(self.quote_decimals);
            let den: u128 = PRICE_SCALE * pow10_u128(self.base_decimals);
            let quote_amount = #[verifier::truncate] ((num / den) as u64);
            if quote_amount == 0 {
                return None;
            }
            Some((Side::Sell, amount_in, quote_amount, quote_amount))
        } else if collateral_mint.same_as(&self.quote_mint) && supply_mint.same_as(
            &self.base_mint,
        ) {
            proof {
                lemma_pow10_pos(self.quote_decimals as nat);
                lemma_pow10_pos(self.base_decimals as nat);
                lemma_product_bound(
                    amount_in as int,
                    1_000_000,
                    pow10(self.base_decimals as nat) as int,
                    u128::MAX as int,
                );
                assert(amount_in as int * 1_000_000 * pow10(self.base_decimals as nat) == 1 * pow10(
                    self.base_decimals as nat,
                ) * (amount_in as int * 1_000_000)) by (nonlinear_arith);
                lemma_product_bound(
                    1,
                    pow10(self.base_decimals as nat) as int,
                    amount_in as int * 1_000_000,
                    u128::MAX as int,
                );
                lemma_product_bound(
                    1,
                    pow10(self.quote_decimals as nat) as int,
                    price_micro as int,
                    u128::MAX as int,
                );
                assert(amount_in as int * 1_000_000 * pow10(self.base_decimals as nat) == pow10(
                    self.base_decimals as nat,
                ) * (amount_in as int * 1_000_000)) by (nonlinear_arith);
                assert(price_micro as int * pow10(self.quote_decimals as nat) == pow10(
                    self.quote_decimals as nat,
                ) * price_micro) by (nonlinear_arith);
                assert(price_micro as int * pow10(self.quote_decimals as nat) >= 1) by (
                nonlinear_arith)
                    requires
                        price_micro >= 1,
                        pow10(self.quote_decimals as nat) >= 1,
                ;
            }
            let num: u128 = (amount_in as u128) * PRICE_SCALE * pow10_u128(self.base_decimals);
            let den: u128 = price_micro * pow10_u128(self.quote_decimals);
            let base_amount = #[verifier::truncate] ((num / den) as u64);
            if base_amount == 0 {
                return None;
            }
            Some((Side::Buy, base_amount, amount_in, base_amount))
        } else {
            None
        }
    }
}

/// A trade the vault's quote signer agreed to: `base_amount` of the base
/// mint against `quote_amount` of the quote mint for `user_pubkey`, valid
/// until `expiry_ts`, under the user's `nonce`.
#[derive(Clone, Copy, Debug, PartialEq, Eq)]
pub struct Quote {
    pub base_mint: Pubkey,
    pub quote_mint: Pubkey,
    pub side: Side,
    pub base_amount: u64,
    pub quote_amount: u64,
    pub user_pubkey: Pubkey,
    pub expiry_ts: u128,
    pub nonce: u64,
}

impl Quote {
    /// The quote on the wire: its fields in order, the side as one byte
    /// (`0` buy, `1` sell).
    pub open spec fn wire(&self) -> Seq<u8> {
        self.base_mint.0@ + self.quote_mint.0@ + seq![
            if self.side == Side::Buy {
                0u8
            } else {
                1u8
            },
        ] + u64_bytes(self.base_amount) + u64_bytes(self.quote_amount) + self.user_pubkey.0@
            + u128_bytes(self.expiry_ts) + u64_bytes(self.nonce)
    }

    pub fn write_to(&self, out: &mut Vec<u8>)
        ensures
            final(out)@ == old(out)@ + self.wire(),
    {
        put_key(out, &self.base_mint);
        put_key(out, &self.quote_mint);
        put_u8(
            out,
            match self.side {
                Side::Buy => 0u8,
                Side::Sell => 1u8,
            },
        );
        put_u64(out, self.base_amount);
        put_u64(out, self.quote_amount);
        put_key(out, &self.user_pubkey);
        put_u128(out, self.expiry_ts);
        put_u64(out, self.nonce);
        proof {
            assert(out@ =~= old(out)@ + self.wire());
        }
    }
}

/// The tag of the vault program's trade instruction, after its
/// configuration and vault creation instructions.
pub const EXECUTE_TRADE_TAG: u8 = 2;

/// The vault's instruction executing `quote`: its tag, then the quote. The
/// accounts, all writable: the config, the quote signer and the user (both
/// signing), the user's nonce account, the two vaults, the user's two
/// token accounts, the two mints, the system program and the token
/// program.
pub fn execute_trade_instruction(
    quote: Quote,
    program: Pubkey,
    config: Pubkey,
    quote_signer: Pubkey,
    user: Pubkey,
    user_nonce: Pubkey,
    base_vault: Pubkey,
    quote_vault: Pubkey,
    base_user_ata: Pubkey,
    quote_user_ata: Pubkey,
    base_mint: Pubkey,
    quote_mint: Pubkey,
) -> (r: Instruction)
    ensures
        r.program_id == program,
        r.data@ == seq![EXECUTE_TRADE_TAG] + quote.wire(),
        r.accounts@.len() == 12,
        r.accounts@.subrange(0, 10) == seq![
            writable(config, false),
            writable(quote_signer, true),
            writable(user, true),
            writable(user_nonce, false),
            writable(base_vault, false),
            writable(quote_vault, false),
            writable(base_user_ata, false),
            writable(quote_user_ata, false),
            writable(base_mint, false),
            writable(quote_mint, false),
        ],
        r.accounts@[10].pubkey.0@ == system_program_bytes(),
        r.accounts@[11].pubkey.0@ == apl_token_program_bytes(),
        !r.accounts@[10].is_signer && r.accounts@[10].is_writable,
        !r.accounts@[11].is_signer && r.accounts@[11].is_writable,
{
    let accounts = vec![
        AccountMeta::new(config, false),
        AccountMeta::new(quote_signer, true),
        AccountMeta::new(user, true),
        AccountMeta::new(user_nonce, false),
        AccountMeta::new(base_vault, false),
        AccountMeta::new(quote_vault, false),
        AccountMeta::new(base_user_ata, false),
        AccountMeta::new(quote_user_ata, false),
        AccountMeta::new(base_mint, false),
        AccountMeta::new(quote_mint, false),
        AccountMeta::new(system_program_id(), false),
        AccountMeta::new(apl_token_program_id(), false),
    ];
    let mut data: Vec<u8> = Vec::new();
    put_u8(&mut data, EXECUTE_TRADE_TAG);
    quote.write_to(&mut data);
    proof {
        assert(accounts@.subrange(0, 10) =~= seq![
            writable(config, false),
            writable(quote_signer, true),
            writable(user, true),
            writable(user_nonce, false),
            writable(base_vault, false),
            writable(quote_vault, false),
            writable(base_user_ata, false),
            writable(quote_user_ata, false),
            writable(base_mint, false),
            writable(quote_mint, false),
        ]);
        assert(data@ =~= seq![EXECUTE_TRADE_TAG] + quote.wire());
    }
    Instruction { program_id: program, accounts, data }
}

pub open spec fn user_nonce_word() -> Seq<u8> {
    seq![117u8, 115, 101, 114, 95, 110, 111, 110, 99, 101]
}

/// The seeds of a user's nonce account: `user_nonce`, the config, the user.
pub open spec fn spec_user_nonce_seeds(config: Pubkey, user: Pubkey) -> Seq<Seq<u8>> {
    seq![user_nonce_word(), config.0@, user.0@]
}

impl PropAmm {
    /// The address of `user`'s nonce account under the vault program; none
    /// only when no address can be derived from the seeds.
    pub fn user_nonce_pda(&self, user: &Pubkey) -> (r: Option<Pubkey>)
        ensures
            match program_address(spec_user_nonce_seeds(self.config_pubkey, *user), self.program_id.0@) {
                Some((k, _)) => r matches Some(key) && key.0@ == k,
                None => r is None,
            },
    {
        let word: Vec<u8> = vec![117u8, 115, 101, 114, 95, 110, 111, 110, 99, 101];
        let mut seeds: Vec<Vec<u8>> = Vec::new();
        seeds.push(word);
        seeds.push(slice_to_vec(self.config_pubkey.0.as_slice()));
        seeds.push(slice_to_vec(user.0.as_slice()));
        proof {
            crate::pda::lemma_seeds_deep_view(seeds);
            assert(seeds@[0]@ =~= user_nonce_word());
            assert(seeds.deep_view() =~= spec_user_nonce_seeds(self.config_pubkey, *user));
        }
        match try_find_program_address(&seeds, &self.program_id) {
            Some((key, _)) => Some(key),
            None => None,
        }
    }
}

} // verus!
