//! An unsigned 256-bit integer with checked arithmetic.
//!
//! Balances, allowances and the total supply are 256-bit quantities. The
//! type stores four 64-bit words, least significant first; its mathematical
//! value is given by [`U256::as_nat`], and every operation is specified
//! against that value.

use vstd::prelude::*;

verus! {

/// One more than the largest value a [`U256`] can hold, i.e. 2^256.
pub open spec fn u256_bound() -> nat {
    0x10000000000000000000000000000000000000000000000000000000000000000nat
}

/// An unsigned 256-bit quantity: four 64-bit words, least significant first.
#[derive(Clone, Copy, PartialEq, Eq, Structural, Debug)]
pub struct U256 {
    pub w0: u64,
    pub w1: u64,
    pub w2: u64,
    pub w3: u64,
}

/// Adds two words and an incoming carry; returns the low word of the sum and
/// the outgoing carry.
fn add_with_carry(a: u64, b: u64, c: u64) -> (r: (u64, u64))
    requires
        c <= 1,
    ensures
        r.1 <= 1,
        r.0 + r.1 * 0x10000000000000000nat == a + b + c,
{
    let s: u128 = a as u128 + b as u128 + c as u128;
    if s >= 0x10000000000000000u128 {
        (((s - 0x10000000000000000u128) as u64), 1u64)
    } else {
        ((s as u64), 0u64)
    }
}

/// Subtracts a word and an incoming borrow from a word; returns the low word
/// of the difference and the outgoing borrow.
fn sub_with_borrow(a: u64, b: u64, brw: u64) -> (r: (u64, u64))
    requires
        brw <= 1,
    ensures
        r.1 <= 1,
        r.0 == a + r.1 * 0x10000000000000000nat - b - brw,
{
    let need: u128 = b as u128 + brw as u128;
    let have: u128 = a as u128;
    if have >= need {
        (((have - need) as u64), 0u64)
    } else {
        (((have + 0x10000000000000000u128 - need) as u64), 1u64)
    }
}

impl U256 {
    /// The mathematical value of the four words.
    pub open spec fn as_nat(self) -> nat {
        (self.w0 + self.w1 * 0x10000000000000000nat
            + self.w2 * 0x100000000000000000000000000000000nat
            + self.w3 * 0x1000000000000000000000000000000000000000000000000nat) as nat
    }

    pub fn zero() -> (r: U256)
        ensures
            r.as_nat() == 0,
    {
        U256 { w0: 0, w1: 0, w2: 0, w3: 0 }
    }

    pub fn from_u64(x: u64) -> (r: U256)
        ensures
            r.as_nat() == x,
    {
        U256 { w0: x, w1: 0, w2: 0, w3: 0 }
    }

    pub fn from_words(w0: u64, w1: u64, w2: u64, w3: u64) -> (r: U256)
        ensures
            r == (U256 { w0, w1, w2, w3 }),
    {
        U256 { w0, w1, w2, w3 }
    }

    /// The sum, or `None` when it does not fit in 256 bits.
    pub fn checked_add(self, other: U256) -> (r: Option<U256>)
        ensures
            match r {
                Some(s) => s.as_nat() == self.as_nat() + other.as_nat(),
                None => self.as_nat() + other.as_nat() >= u256_bound(),
            },
    {
        let (r0, c0): (u64, u64) = add_with_carry(self.w0, other.w0, 0);
        let (r1, c1): (u64, u64) = add_with_carry(self.w1, other.w1, c0);
        let (r2, c2): (u64, u64) = add_with_carry(self.w2, other.w2, c1);
        let (r3, c3): (u64, u64) = add_with_carry(self.w3, other.w3, c2);
        let sum = U256 { w0: r0, w1: r1, w2: r2, w3: r3 };
        proof {
            assert(sum.as_nat() + c3 * u256_bound() == self.as_nat() + other.as_nat());
        }
        if c3 == 1 {
            None
        } else {
            Some(sum)
        }
    }

    /// The difference, or `None` when the subtrahend exceeds the minuend.
    pub fn checked_sub(self, other: U256) -> (r: Option<U256>)
        ensures
            match r {
                Some(d) => self.as_nat() >= other.as_nat() && d.as_nat() == self.as_nat()
                    - other.as_nat(),
                None => self.as_nat() < other.as_nat(),
            },
    {
        let (d0, b0): (u64, u64) = sub_with_borrow(self.w0, other.w0, 0);
        let (d1, b1): (u64, u64) = sub_with_borrow(self.w1, other.w1, b0);
        let (d2, b2): (u64, u64) = sub_with_borrow(self.w2, other.w2, b1);
        let (d3, b3): (u64, u64) = sub_with_borrow(self.w3, other.w3, b2);
        let diff = U256 { w0: d0, w1: d1, w2: d2, w3: d3 };
        proof {
            assert(diff.as_nat() == self.as_nat() - other.as_nat() + b3 * u256_bound());
            lemma_as_nat_bound(diff);
        }
        if b3 == 1 {
            None
        } else {
            Some(diff)
        }
    }

    /// The sum, on the promise that it fits in 256 bits.
    pub fn add(self, other: U256) -> (r: U256)
        requires
            self.as_nat() + other.as_nat() < u256_bound(),
        ensures
            r.as_nat() == self.as_nat() + other.as_nat(),
    {
        match self.checked_add(other) {
            Some(s) => s,
            None => {
                proof {
                    assert(false);
                }
                self
            },
        }
    }

    /// The difference, on the promise that the subtrahend does not exceed
    /// the minuend.
    pub fn sub(self, other: U256) -> (r: U256)
        requires
            other.as_nat() <= self.as_nat(),
        ensures
            r.as_nat() == self.as_nat() - other.as_nat(),
    {
        match self.checked_sub(other) {
            Some(d) => d,
            None => {
                proof {
                    assert(false);
                }
                self
            },
        }
    }
}

/// Every 256-bit value is below 2^256.
pub proof fn lemma_as_nat_bound(x: U256)
    ensures
        x.as_nat() < u256_bound(),
{
}

} // verus!
