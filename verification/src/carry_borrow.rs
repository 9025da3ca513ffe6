//! Additions that report their carries and subtractions that report their
//! borrow.

use crate::bits::lemma_nibbles;
use vstd::prelude::*;

verus! {

/// A type whose addition reports the carries out of bit 3 and out of bit 7
/// (the least significant bit is bit 0).
pub trait AddCarry: Sized + core::ops::Add<Self> {
    /// The sum, the carry out of bit 3 and the carry out of bit 7.
    spec fn add_carry_spec(self, rhs: Self) -> (Self, bool, bool);

    /// Adds `rhs` to this value and returns the sum with the two carries.
    fn add_carry(self, rhs: Self) -> (out: (Self, bool, bool))
        ensures
            out == self.add_carry_spec(rhs),
    ;
}

/// A type whose subtraction reports the borrow from bit 4
/// (the least significant bit is bit 0).
pub trait SubBorrow: Sized + core::ops::Sub<Self> {
    /// The difference and the borrow from bit 4.
    spec fn sub_borrow_spec(self, rhs: Self) -> (Self, bool);

    /// Subtracts `rhs` from this value and returns the difference with the
    /// borrow.
    fn sub_borrow(self, rhs: Self) -> (out: (Self, bool))
        ensures
            out == self.sub_borrow_spec(rhs),
    ;
}

impl AddCarry for u8 {
    open spec fn add_carry_spec(self, rhs: u8) -> (u8, bool, bool) {
        (((self + rhs) % 256) as u8, self % 16 + rhs % 16 > 15, self + rhs > 255)
    }

    fn add_carry(self, rhs: u8) -> (out: (u8, bool, bool)) {
        proof {
            lemma_nibbles(self, 0);
            lemma_nibbles(rhs, 0);
        }
        let lo_sum: u8 = (self & 0x0f) + (rhs & 0x0f);
        let carry3: bool = lo_sum > 0x0f;
        let hi_sum: u16 = (self as u16) + (rhs as u16);
        let carry7: bool = hi_sum > 0xff;
        let sum: u8 = if carry7 {
            (hi_sum - 0x100) as u8
        } else {
            hi_sum as u8
        };
        (sum, carry3, carry7)
    }
}

impl SubBorrow for u8 {
    open spec fn sub_borrow_spec(self, rhs: u8) -> (u8, bool) {
        (((self - rhs) % 256) as u8, self % 16 < rhs % 16)
    }

    fn sub_borrow(self, rhs: u8) -> (out: (u8, bool)) {
        proof {
            lemma_nibbles(self, 0);
            lemma_nibbles(rhs, 0);
        }
        let lo1: u8 = self & 0x0f;
        let lo2: u8 = rhs & 0x0f;
        (self.wrapping_sub(rhs), lo1 < lo2)
    }
}

} // verus!
