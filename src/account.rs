use vstd::prelude::*;

verus! {

/// The identity of an account. Its 32 bytes are held as two big-endian
/// halves: `hi` holds bytes 0..16, `lo` bytes 16..32.
#[derive(Clone, Copy, Debug, PartialEq, Eq, Structural)]
pub struct AccountId {
    pub hi: u128,
    pub lo: u128,
}

impl AccountId {
    /// The all-zero identity, which stands for "nobody".
    pub fn zero() -> (r: AccountId)
        ensures
            r == AccountId::spec_zero(),
    {
        AccountId { hi: 0, lo: 0 }
    }

    pub open spec fn spec_zero() -> AccountId {
        AccountId { hi: 0, lo: 0 }
    }

    /// Builds an identity from its two halves.
    pub fn from_halves(hi: u128, lo: u128) -> (r: AccountId)
        ensures
            r.hi == hi,
            r.lo == lo,
    {
        AccountId { hi, lo }
    }
}

} // verus!
