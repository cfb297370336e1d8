//! Identities, 256-bit quantities and 32-byte digests.
//!
//! These are plain values: an [`Address`] names a party, a [`U256`] counts
//! asset units (or ids, or seconds), a [`Digest`] commits to a plaintext.

use vstd::prelude::*;

verus! {

/// A 160-bit identity, held as its high 32 bits and its low 128 bits.
#[derive(Clone, Copy, Debug, PartialEq, Eq, Structural, Hash)]
pub struct Address {
    pub hi: u32,
    pub lo: u128,
}

impl Address {
    /// The null identity: every bit is zero.
    pub open spec fn null() -> Address {
        Address { hi: 0, lo: 0 }
    }

    pub open spec fn is_null(&self) -> bool {
        *self == Address::null()
    }

    pub fn new(hi: u32, lo: u128) -> (a: Address)
        ensures
            a == (Address { hi, lo }),
    {
        Address { hi, lo }
    }

    pub fn zero() -> (a: Address)
        ensures
            a == Address::null(),
    {
        Address { hi: 0, lo: 0 }
    }

    pub fn is_zero(&self) -> (b: bool)
        ensures
            b == self.is_null(),
    {
        self.hi == 0 && self.lo == 0
    }
}

/// Two to the power 128: the weight of the high half of a [`U256`].
pub open spec fn pow2_128() -> nat {
    0x1_0000_0000_0000_0000_0000_0000_0000_0000nat
}

/// An unsigned 256-bit integer, held as two 128-bit halves.
#[derive(Clone, Copy, Debug, PartialEq, Eq, Structural, Hash)]
pub struct U256 {
    pub hi: u128,
    pub lo: u128,
}

impl View for U256 {
    type V = nat;

    /// The number that the two halves stand for.
    open spec fn view(&self) -> nat {
        (self.hi as nat) * pow2_128() + (self.lo as nat)
    }
}

impl U256 {
    pub fn new(hi: u128, lo: u128) -> (x: U256)
        ensures
            x == (U256 { hi, lo }),
    {
        U256 { hi, lo }
    }

    pub fn zero() -> (x: U256)
        ensures
            x@ == 0,
    {
        U256 { hi: 0, lo: 0 }
    }

    pub fn from_u64(v: u64) -> (x: U256)
        ensures
            x@ == v,
    {
        U256 { hi: 0, lo: v as u128 }
    }

    pub fn from_u128(v: u128) -> (x: U256)
        ensures
            x@ == v,
    {
        U256 { hi: 0, lo: v }
    }

    pub fn is_zero(&self) -> (b: bool)
        ensures
            b == (self@ == 0),
    {
        self.hi == 0 && self.lo == 0
    }

    /// The sum, unless it does not fit in 256 bits.
    pub fn checked_add(&self, rhs: &U256) -> (sum: Option<U256>)
        ensures
            match sum {
                Some(s) => s@ == self@ + rhs@,
                None => self@ + rhs@ >= pow2_128() * pow2_128(),
            },
    {
        let carry: u128 = if self.lo > u128::MAX - rhs.lo {
            1
        } else {
            0
        };
        let lo: u128 = if carry == 1 {
            self.lo - (u128::MAX - rhs.lo) - 1
        } else {
            self.lo + rhs.lo
        };
        if self.hi > u128::MAX - rhs.hi {
            return None;
        }
        let hi_sum: u128 = self.hi + rhs.hi;
        if hi_sum > u128::MAX - carry {
            return None;
        }
        Some(U256 { hi: hi_sum + carry, lo })
    }

    /// The index that this number is, where it fits in a `usize`.
    pub fn to_usize(&self) -> (r: Option<usize>)
        ensures
            match r {
                Some(i) => i == self@,
                None => self@ > usize::MAX,
            },
    {
        if self.hi != 0 || self.lo > usize::MAX as u128 {
            None
        } else {
            Some(self.lo as usize)
        }
    }

    /// Two values stand for the same number only if they are the same value.
    pub proof fn lemma_view_injective(a: U256, b: U256)
        requires
            a@ == b@,
        ensures
            a == b,
    {
    }

    /// Every value stands for a number below two to the power 256.
    pub proof fn lemma_view_bounded(a: U256)
        ensures
            a@ < pow2_128() * pow2_128(),
    {
    }
}

/// A 32-byte one-way digest.
#[derive(Clone, Copy, Debug, PartialEq, Eq, Hash)]
pub struct Digest {
    pub bytes: [u8; 32],
}

impl View for Digest {
    type V = Seq<u8>;

    open spec fn view(&self) -> Seq<u8> {
        self.bytes@
    }
}

/// Thirty-two zero bytes: what a digest field holds before anything was stored in it.
pub open spec fn blank_digest() -> Seq<u8> {
    Seq::new(32, |i: int| 0u8)
}

impl Digest {
    pub fn new(bytes: [u8; 32]) -> (d: Digest)
        ensures
            d@ == bytes@,
    {
        Digest { bytes }
    }

    pub fn zero() -> (d: Digest)
        ensures
            d@ == blank_digest(),
    {
        let d = Digest { bytes: [0u8; 32] };
        assert(d@ =~= blank_digest());
        d
    }
}

} // verus!
