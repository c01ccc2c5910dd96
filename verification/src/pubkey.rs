//! Account addresses.
use vstd::prelude::*;

verus! {

/// A 32-byte account address.
#[derive(Clone, Copy, Debug, Default, PartialEq, Eq, Hash, PartialOrd, Ord)]
pub struct Pubkey(pub [u8; 32]);

/// `bytes` followed by zeros up to 32 bytes.
pub open spec fn padded(bytes: Seq<u8>) -> Seq<u8> {
    Seq::new(32, |i: int| if i < bytes.len() { bytes[i] } else { 0u8 })
}

/// The address whose first bytes are `bytes` and whose other bytes are zero.
pub open spec fn spec_from_slice(bytes: Seq<u8>) -> Pubkey {
    choose|p: Pubkey| p.0@ == padded(bytes)
}

impl Pubkey {
    /// The address whose first bytes are `data`, the rest zero.
    pub fn from_slice(data: &[u8]) -> (r: Pubkey)
        requires
            data@.len() <= 32,
        ensures
            r == spec_from_slice(data@),
            r.0@ == padded(data@),
    {
        let mut bytes: [u8; 32] = [0u8; 32];
        let mut i: usize = 0;
        while i < data.len()
            invariant
                i <= data@.len() <= 32,
                forall|j: int| 0 <= j < i ==> bytes@[j] == data@[j],
                forall|j: int| i <= j < 32 ==> bytes@[j] == 0u8,
            decreases data@.len() - i,
        {
            bytes[i] = data[i];
            i += 1;
        }
        let r = Pubkey(bytes);
        proof {
            assert(r.0@ =~= padded(data@));
            let p = spec_from_slice(data@);
            assert(p.0@ == padded(data@));
            assert(p.0 =~= r.0);
        }
        r
    }

    /// Whether the two addresses are the same.
    pub fn same_as(&self, other: &Pubkey) -> (r: bool)
        ensures
            r == (*self == *other),
    {
        let mut i: usize = 0;
        while i < 32
            invariant
                i <= 32,
                forall|j: int| 0 <= j < i ==> self.0@[j] == other.0@[j],
            decreases 32 - i,
        {
            if self.0[i] != other.0[i] {
                return false;
            }
            i += 1;
        }
        proof {
            assert(self.0@ =~= other.0@);
            assert(self.0 =~= other.0);
        }
        true
    }
}

} // verus!
