//! A 256-bit unsigned integer, held as two 128-bit halves.

use vstd::prelude::*;

verus! {

/// An unsigned integer below 2^256. The most significant half comes first,
/// so the derived ordering is the numeric one.
#[derive(Clone, Copy, Debug, PartialEq, Eq, PartialOrd, Ord, Hash, Structural)]
pub struct U256 {
    pub hi: u128,
    pub lo: u128,
}

impl View for U256 {
    type V = nat;

    /// The number that the two halves stand for.
    open spec fn view(&self) -> nat {
        (self.hi as nat) * 0x1_0000_0000_0000_0000_0000_0000_0000_0000 + (self.lo as nat)
    }
}

impl U256 {
    /// The number zero.
    pub fn zero() -> (r: Self)
        ensures
            r@ == 0,
    {
        U256 { hi: 0, lo: 0 }
    }

    /// Widens a 64-bit value without changing it.
    pub fn from_u64(value: u64) -> (r: Self)
        ensures
            r@ == value as nat,
            r.hi == 0,
            r.lo == value as u128,
    {
        U256 { hi: 0, lo: value as u128 }
    }

    /// Whether this is the number zero.
    pub fn is_zero(&self) -> (r: bool)
        ensures
            r == (self@ == 0),
    {
        self.hi == 0 && self.lo == 0
    }

    /// The value as 64 bits, where it fits.
    pub fn to_u64(&self) -> (r: Option<u64>)
        ensures
            r.is_some() <==> self@ <= u64::MAX as nat,
            r matches Some(v) ==> v as nat == self@,
    {
        if self.hi == 0 && self.lo <= 0xffff_ffff_ffff_ffff {
            Some(self.lo as u64)
        } else {
            None
        }
    }

    /// Whether `self` is numerically below `other`.
    pub fn lt(&self, other: &U256) -> (r: bool)
        ensures
            r == (self@ < other@),
    {
        self.hi < other.hi || (self.hi == other.hi && self.lo < other.lo)
    }
}

/// Two values with the same number are the same value.
pub proof fn lemma_view_injective(a: U256, b: U256)
    requires
        a@ == b@,
    ensures
        a == b,
{
}

} // verus!
