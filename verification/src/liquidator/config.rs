//! Settings of the liquidator bot: hex addresses, the signing network, the
//! slippage haircut and the token filter.
use crate::pubkey::{spec_from_slice, Pubkey};
use vstd::prelude::*;
use vstd::utf8::encode_utf8;

verus! {

/// Why a setting of the liquidator was refused.
#[derive(Debug, Clone, Copy, PartialEq, Eq, Structural)]
pub enum LiquidatorError {
    /// The text is not an even number of hexadecimal digits
    InvalidHexPubkey,
    /// The network name is none of the known ones
    UnknownNetwork,
}

/// The signing networks the bot knows.
#[derive(Debug, Clone, Copy, PartialEq, Eq, Structural)]
pub enum BitcoinNetwork {
    Regtest,
    Testnet4,
    Bitcoin,
}

/// The settings the bot reads from its configuration file.
#[derive(Debug, Clone)]
pub struct LiquidatorConfig {
    /// RPC URL for the Arch node
    pub rpc_url: String,
    /// Lending program id (hex)
    pub autara_program_id: String,
    /// Path to the liquidator keypair file
    pub liquidator_keypair: String,
    /// Signing network: regtest | testnet | testnet4 | mainnet
    pub network: String,
    /// Scan and log only, never submit transactions
    pub dry_run: bool,
    /// Polling interval in seconds
    pub poll_interval_secs: u64,
    /// Slippage tolerance in basis points
    pub slippage_bps: u16,
    /// Minimum lamports required before a live transaction
    pub min_lamports: u64,
    /// Consecutive live failures after which the bot stops (0 = never)
    pub max_consecutive_failures: u32,
    /// Token addresses (hex) to restrict scanning to
    pub restrict_tokens: Vec<String>,
}

pub open spec fn is_hex_digit(c: u8) -> bool {
    (48 <= c <= 57) || (65 <= c <= 70) || (97 <= c <= 102)
}

/// The value of a hexadecimal digit, either case.
pub open spec fn hex_digit_value(c: u8) -> int {
    if 48 <= c <= 57 {
        c - 48
    } else if 65 <= c <= 70 {
        c - 55
    } else {
        c - 87
    }
}

/// An even number of hexadecimal digits.
pub open spec fn is_hex(s: Seq<u8>) -> bool {
    &&& s.len() % 2 == 0
    &&& forall|i: int| 0 <= i < s.len() ==> is_hex_digit(#[trigger] s[i])
}

/// The bytes that pairs of hexadecimal digits spell, high digit first.
pub open spec fn hex_bytes(s: Seq<u8>) -> Seq<u8> {
    Seq::new(
        s.len() / 2,
        |i: int| (hex_digit_value(s[2 * i]) * 16 + hex_digit_value(s[2 * i + 1])) as u8,
    )
}

#[verifier::external_type_specification]
#[verifier::external_body]
pub struct ExFromHexError(hex::FromHexError);

/// `hex::decode`: succeeds exactly on an even number of hexadecimal digits
/// (either case), and then gives the byte of each pair, high digit first.
#[verifier::external_body]
fn hex_decode(data: &[u8]) -> (r: Result<Vec<u8>, hex::FromHexError>)
    ensures
        r is Ok <==> is_hex(data@),
        r matches Ok(v) ==> v@ == hex_bytes(data@),
{
    hex::decode(data)
}

/// The address a hex text spells, when it is one.
pub open spec fn spec_parse_hex_pubkey(text: Seq<u8>) -> Result<Pubkey, LiquidatorError> {
    if is_hex(text) {
        Ok(spec_from_slice(hex_bytes(text)))
    } else {
        Err(LiquidatorError::InvalidHexPubkey)
    }
}

/// Parses an address written in hex; fewer than 32 bytes are padded with
/// zeros at the end.
pub fn parse_hex_pubkey(hex_str: &str) -> (r: Result<Pubkey, LiquidatorError>)
    requires
        is_hex(encode_utf8(hex_str@)) ==> encode_utf8(hex_str@).len() <= 64,
    ensures
        r == spec_parse_hex_pubkey(encode_utf8(hex_str@)),
{
    let text = hex_str.as_bytes();
    match hex_decode(text) {
        Ok(bytes) => {
            proof {
                assert(bytes@.len() <= 32);
            }
            Ok(Pubkey::from_slice(bytes.as_slice()))
        },
        Err(_) => Err(LiquidatorError::InvalidHexPubkey),
    }
}

/// `expected * (10000 - bps) / 10000` with the product saturated at
/// `u64::MAX`, the haircut capped at 100%.
pub open spec fn spec_min_collateral_after_slippage(expected: u64, slippage_bps: u16) -> int {
    let bps: int = if slippage_bps > 10000 {
        10000
    } else {
        slippage_bps as int
    };
    let product = expected * (10000 - bps);
    (if product > u64::MAX {
        u64::MAX as int
    } else {
        product
    }) / 10000
}

/// Applies the slippage haircut to an expected collateral amount.
pub fn min_collateral_after_slippage(expected: u64, slippage_bps: u16) -> (r: u64)
    ensures
        r == spec_min_collateral_after_slippage(expected, slippage_bps),
        r <= expected,
{
    let bps: u64 = if slippage_bps > 10_000 {
        10_000
    } else {
        slippage_bps as u64
    };
    let product: u64 = match expected.checked_mul(10_000 - bps) {
        Some(p) => p,
        None => u64::MAX,
    };
    proof {
        assert(expected * (10000 - bps) <= expected * 10000) by (nonlinear_arith)
            requires
                bps <= 10000,
        ;
    }
    product / 10_000
}

/// Bytes equal to `name` once ASCII capitals are lowered.
pub open spec fn eq_ignore_ascii_case(s: Seq<u8>, name: Seq<u8>) -> bool {
    &&& s.len() == name.len()
    &&& forall|i: int| 0 <= i < s.len() ==> ascii_lower(#[trigger] s[i]) == name[i]
}

pub open spec fn ascii_lower(c: u8) -> u8 {
    if 65 <= c <= 90 {
        (c + 32) as u8
    } else {
        c
    }
}

fn bytes_eq_ignore_ascii_case(s: &[u8], name: &[u8]) -> (r: bool)
    ensures
        r == eq_ignore_ascii_case(s@, name@),
{
    if s.len() != name.len() {
        return false;
    }
    let mut i: usize = 0;
    while i < s.len()
        invariant
            s.len() == name.len(),
            i <= s.len(),
            forall|j: int| 0 <= j < i ==> ascii_lower(#[trigger] s@[j]) == name@[j],
        decreases s.len() - i,
    {
        let c = s[i];
        let lower: u8 = if 65 <= c && c <= 90 {
            c + 32
        } else {
            c
        };
        if lower != name[i] {
            return false;
        }
        i += 1;
    }
    true
}

pub open spec fn regtest_name() -> Seq<u8> {
    seq![114u8, 101, 103, 116, 101, 115, 116]
}

pub open spec fn testnet_name() -> Seq<u8> {
    seq![116u8, 101, 115, 116, 110, 101, 116]
}

pub open spec fn testnet4_name() -> Seq<u8> {
    seq![116u8, 101, 115, 116, 110, 101, 116, 52]
}

pub open spec fn mainnet_name() -> Seq<u8> {
    seq![109u8, 97, 105, 110, 110, 101, 116]
}

pub open spec fn bitcoin_name() -> Seq<u8> {
    seq![98u8, 105, 116, 99, 111, 105, 110]
}

/// The network a name designates, capitals ignored: `regtest`, `testnet` or
/// `testnet4` (both Testnet4), `mainnet` or `bitcoin`.
pub open spec fn spec_network_from_name(name: Seq<u8>) -> Result<BitcoinNetwork, LiquidatorError> {
    if eq_ignore_ascii_case(name, regtest_name()) {
        Ok(BitcoinNetwork::Regtest)
    } else if eq_ignore_ascii_case(name, testnet_name()) || eq_ignore_ascii_case(
        name,
        testnet4_name(),
    ) {
        Ok(BitcoinNetwork::Testnet4)
    } else if eq_ignore_ascii_case(name, mainnet_name()) || eq_ignore_ascii_case(
        name,
        bitcoin_name(),
    ) {
        Ok(BitcoinNetwork::Bitcoin)
    } else {
        Err(LiquidatorError::UnknownNetwork)
    }
}

impl LiquidatorConfig {
    /// The signing network named in the settings.
    pub fn bitcoin_network(&self) -> (r: Result<BitcoinNetwork, LiquidatorError>)
        ensures
            r == spec_network_from_name(encode_utf8(self.network@)),
    {
        network_from_name(self.network.as_str())
    }
}

/// The network a name designates, see `spec_network_from_name`.
pub fn network_from_name(name: &str) -> (r: Result<BitcoinNetwork, LiquidatorError>)
    ensures
        r == spec_network_from_name(encode_utf8(name@)),
{
    let s = name.as_bytes();
    let regtest: [u8; 7] = [114, 101, 103, 116, 101, 115, 116];
    let testnet: [u8; 7] = [116, 101, 115, 116, 110, 101, 116];
    let testnet4: [u8; 8] = [116, 101, 115, 116, 110, 101, 116, 52];
    let mainnet: [u8; 7] = [109, 97, 105, 110, 110, 101, 116];
    let bitcoin: [u8; 7] = [98, 105, 116, 99, 111, 105, 110];
    proof {
        assert(regtest@ =~= regtest_name());
        assert(testnet@ =~= testnet_name());
        assert(testnet4@ =~= testnet4_name());
        assert(mainnet@ =~= mainnet_name());
        assert(bitcoin@ =~= bitcoin_name());
    }
    if bytes_eq_ignore_ascii_case(s, regtest.as_slice()) {
        Ok(BitcoinNetwork::Regtest)
    } else if bytes_eq_ignore_ascii_case(s, testnet.as_slice()) || bytes_eq_ignore_ascii_case(
        s,
        testnet4.as_slice(),
    ) {
        Ok(BitcoinNetwork::Testnet4)
    } else if bytes_eq_ignore_ascii_case(s, mainnet.as_slice()) || bytes_eq_ignore_ascii_case(
        s,
        bitcoin.as_slice(),
    ) {
        Ok(BitcoinNetwork::Bitcoin)
    } else {
        Err(LiquidatorError::UnknownNetwork)
    }
}

/// The tokens a liquidator restricts itself to; none means every market.
#[derive(Debug, Clone)]
pub struct TokenFilter {
    tokens: Vec<Pubkey>,
}

impl View for TokenFilter {
    type V = Seq<Pubkey>;

    closed spec fn view(&self) -> Seq<Pubkey> {
        self.tokens@
    }
}

/// The addresses the texts spell, or the first refusal.
pub open spec fn spec_parse_all(texts: Seq<Seq<u8>>) -> Result<Seq<Pubkey>, LiquidatorError>
    decreases texts.len(),
{
    if texts.len() == 0 {
        Ok(Seq::empty())
    } else {
        match spec_parse_all(texts.drop_last()) {
            Err(e) => Err(e),
            Ok(keys) => match spec_parse_hex_pubkey(texts.last()) {
                Err(e) => Err(e),
                Ok(k) => Ok(keys.push(k)),
            },
        }
    }
}

pub open spec fn texts_bytes(hex_list: Seq<String>) -> Seq<Seq<u8>> {
    hex_list.map_values(|s: String| encode_utf8(s@))
}

impl TokenFilter {
    /// The filter of the addresses written in hex in the settings.
    pub fn from_config(hex_list: &[String]) -> (r: Result<TokenFilter, LiquidatorError>)
        requires
            forall|i: int|
                0 <= i < hex_list@.len() ==> (is_hex(#[trigger] encode_utf8(hex_list@[i]@))
                    ==> encode_utf8(hex_list@[i]@).len() <= 64),
        ensures
            match spec_parse_all(texts_bytes(hex_list@)) {
                Ok(keys) => r matches Ok(f) && f@ == keys,
                Err(e) => r == Err::<TokenFilter, LiquidatorError>(e),
            },
    {
        let mut tokens: Vec<Pubkey> = Vec::new();
        let mut i: usize = 0;
        while i < hex_list.len()
            invariant
                i <= hex_list@.len(),
                forall|k: int|
                    0 <= k < hex_list@.len() ==> (is_hex(#[trigger] encode_utf8(hex_list@[k]@))
                        ==> encode_utf8(hex_list@[k]@).len() <= 64),
                spec_parse_all(texts_bytes(hex_list@).take(i as int)) == Ok::<
                    Seq<Pubkey>,
                    LiquidatorError,
                >(tokens@),
            decreases hex_list@.len() - i,
        {
            let text: &str = hex_list[i].as_str();
            proof {
                assert(texts_bytes(hex_list@).take(i + 1).drop_last() =~= texts_bytes(
                    hex_list@,
                ).take(i as int));
                assert(texts_bytes(hex_list@).take(i + 1).last() == encode_utf8(hex_list@[i as int]@));
            }
            match parse_hex_pubkey(text) {
                Ok(k) => {
                    tokens.push(k);
                },
                Err(e) => {
                    proof {
                        lemma_parse_all_err(texts_bytes(hex_list@), i as int + 1);
                    }
                    return Err(e);
                },
            }
            i += 1;
        }
        proof {
            assert(texts_bytes(hex_list@).take(i as int) =~= texts_bytes(hex_list@));
        }
        Ok(TokenFilter { tokens })
    }

    /// Whether the filter restricts anything.
    pub fn is_active(&self) -> (r: bool)
        ensures
            r == (self@.len() > 0),
    {
        self.tokens.len() > 0
    }

    /// Whether a market of these two mints may be scanned: every market
    /// when the filter is empty, else one of whose mints is listed.
    pub fn allows_market(&self, supply_mint: &Pubkey, collateral_mint: &Pubkey) -> (r: bool)
        ensures
            r == (self@.len() == 0 || self@.contains(*supply_mint) || self@.contains(
                *collateral_mint,
            )),
    {
        if self.tokens.len() == 0 {
            return true;
        }
        let mut i: usize = 0;
        while i < self.tokens.len()
            invariant
                i <= self.tokens@.len(),
                forall|j: int|
                    0 <= j < i ==> self.tokens@[j] != *supply_mint && self.tokens@[j]
                        != *collateral_mint,
            decreases self.tokens@.len() - i,
        {
            if self.tokens[i].same_as(supply_mint) || self.tokens[i].same_as(collateral_mint) {
                proof {
                    assert(self@[i as int] == *supply_mint || self@[i as int] == *collateral_mint);
                }
                return true;
            }
            i += 1;
        }
        false
    }
}

/// Once a prefix of the texts fails to parse, the whole list does, with the
/// same error.
proof fn lemma_parse_all_err(texts: Seq<Seq<u8>>, n: int)
    requires
        0 <= n <= texts.len(),
        spec_parse_all(texts.take(n)) is Err,
    ensures
        spec_parse_all(texts) == spec_parse_all(texts.take(n)),
    decreases texts.len() - n,
{
    if n == texts.len() {
        assert(texts.take(n) =~= texts);
    } else {
        assert(texts.take(n + 1).drop_last() =~= texts.take(n));
        lemma_parse_all_err(texts, n + 1);
    }
}

} // verus!
