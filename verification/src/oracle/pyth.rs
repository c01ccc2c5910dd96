//! The layout of a Pyth price account: the feed id, the price, the moving
//! average price and the update's metadata, every integer little-endian.
use crate::ixs::wire::{i64_bytes, put_bytes, put_i64, put_u64, u64_bytes};
use crate::oracle::oracle_provider::{le_i64, le_u64, read_i64_le, read_u64_le, PYTH_PRICE_ACCOUNT_LEN};
use vstd::prelude::*;

verus! {

/// A price with its confidence, exponent and publication time.
#[derive(Debug, Clone, Copy, PartialEq, Eq)]
pub struct PriceData {
    pub price: u64,
    pub conf: u64,
    pub expo: i64,
    pub publish_time: i64,
}

/// The slot of the update and the times around it.
#[derive(Debug, Clone, Copy, PartialEq, Eq)]
pub struct Metadata {
    pub slot: u64,
    pub proof_available_time: i64,
    pub prev_publish_time: i64,
}

/// The price of one feed.
#[derive(Debug, Clone, Copy, PartialEq, Eq)]
pub struct PythPrice {
    pub id: [u8; 32],
    pub price: PriceData,
    pub ema_price: PriceData,
    pub metadata: Metadata,
}

/// A Pyth price account.
#[derive(Debug, Clone, Copy, PartialEq, Eq)]
pub struct PythPriceAccount {
    pub pyth_price: PythPrice,
}

/// The price whose four fields begin at `off`.
pub open spec fn price_data_at(d: Seq<u8>, off: int) -> PriceData {
    PriceData {
        price: le_u64(d, off) as u64,
        conf: le_u64(d, off + 8) as u64,
        expo: le_i64(d, off + 16) as i64,
        publish_time: le_i64(d, off + 24) as i64,
    }
}

pub open spec fn price_data_bytes(p: PriceData) -> Seq<u8> {
    u64_bytes(p.price) + u64_bytes(p.conf) + i64_bytes(p.expo) + i64_bytes(p.publish_time)
}

/// The account that the 120 bytes of `d` hold.
pub open spec fn spec_pyth_account(d: Seq<u8>) -> PythPriceAccount {
    PythPriceAccount {
        pyth_price: PythPrice {
            id: choose|id: [u8; 32]| id@ == d.subrange(0, 32),
            price: price_data_at(d, 32),
            ema_price: price_data_at(d, 64),
            metadata: Metadata {
                slot: le_u64(d, 96) as u64,
                proof_available_time: le_i64(d, 104) as i64,
                prev_publish_time: le_i64(d, 112) as i64,
            },
        },
    }
}

fn read_price_data(data: &[u8], off: usize) -> (r: PriceData)
    requires
        off + 32 <= data@.len(),
    ensures
        r == price_data_at(data@, off as int),
        r.price == le_u64(data@, off as int),
        r.conf == le_u64(data@, off + 8),
        r.expo == le_i64(data@, off + 16),
        r.publish_time == le_i64(data@, off + 24),
{
    let n = data.len();
    assert(off + 32 <= n);
    PriceData {
        price: read_u64_le(data, off),
        conf: read_u64_le(data, off + 8),
        expo: read_i64_le(data, off + 16),
        publish_time: read_i64_le(data, off + 24),
    }
}

fn put_price_data(out: &mut Vec<u8>, p: &PriceData)
    ensures
        final(out)@ == old(out)@ + price_data_bytes(*p),
{
    put_u64(out, p.price);
    put_u64(out, p.conf);
    put_i64(out, p.expo);
    put_i64(out, p.publish_time);
    proof {
        assert(out@ =~= old(out)@ + price_data_bytes(*p));
    }
}

impl PythPriceAccount {
    /// The account held by `data`, which must be exactly an account long.
    pub fn from_bytes(data: &[u8]) -> (r: Option<PythPriceAccount>)
        ensures
            r is Some <==> data@.len() == PYTH_PRICE_ACCOUNT_LEN,
            r matches Some(a) ==> a == spec_pyth_account(data@),
            r matches Some(a) ==> {
                &&& a.pyth_price.id@ == data@.subrange(0, 32)
                &&& a.pyth_price.price.price == le_u64(data@, 32)
                &&& a.pyth_price.price.conf == le_u64(data@, 40)
                &&& a.pyth_price.price.expo == le_i64(data@, 48)
                &&& a.pyth_price.price.publish_time == le_i64(data@, 56)
            },
    {
        if data.len() != PYTH_PRICE_ACCOUNT_LEN {
            return None;
        }
        let mut id: [u8; 32] = [0u8; 32];
        let mut i: usize = 0;
        while i < 32
            invariant
                i <= 32,
                data@.len() == PYTH_PRICE_ACCOUNT_LEN,
                forall|j: int| 0 <= j < i ==> id@[j] == data@[j],
            decreases 32 - i,
        {
            id[i] = data[i];
            i += 1;
        }
        let a = PythPriceAccount {
            pyth_price: PythPrice {
                id,
                price: read_price_data(data, 32),
                ema_price: read_price_data(data, 64),
                metadata: Metadata {
                    slot: read_u64_le(data, 96),
                    proof_available_time: read_i64_le(data, 104),
                    prev_publish_time: read_i64_le(data, 112),
                },
            },
        };
        proof {
            assert(id@ =~= data@.subrange(0, 32));
            let c = choose|x: [u8; 32]| x@ == data@.subrange(0, 32);
            assert(c@ == data@.subrange(0, 32));
            assert(c =~= id);
        }
        Some(a)
    }

    /// The bytes of the account, in its layout.
    pub open spec fn spec_bytes(&self) -> Seq<u8> {
        let p = self.pyth_price;
        p.id@ + price_data_bytes(p.price) + price_data_bytes(p.ema_price) + u64_bytes(p.metadata.slot)
            + i64_bytes(p.metadata.proof_available_time) + i64_bytes(p.metadata.prev_publish_time)
    }

    /// The bytes of the account, in its layout.
    pub fn to_bytes(&self) -> (r: Vec<u8>)
        ensures
            r@ == self.spec_bytes(),
            r@.len() == PYTH_PRICE_ACCOUNT_LEN,
    {
        let p = &self.pyth_price;
        let mut out: Vec<u8> = Vec::new();
        put_bytes(&mut out, p.id.as_slice());
        put_price_data(&mut out, &p.price);
        put_price_data(&mut out, &p.ema_price);
        put_u64(&mut out, p.metadata.slot);
        put_i64(&mut out, p.metadata.proof_available_time);
        put_i64(&mut out, p.metadata.prev_publish_time);
        proof {
            assert(out@ =~= self.spec_bytes());
        }
        out
    }
}

} // verus!
