//! The arithmetic-logic primitives shared by every arithmetic instruction.

use crate::bits::{lemma_add_overflow_bits, lemma_nibbles};
use vstd::prelude::*;

verus! {

/// The arithmetic-logic unit: pure functions on bytes.
pub struct ALU;

/// What an 8-bit addition yields.
#[derive(Clone, Copy, Debug, PartialEq, Eq, Structural)]
pub struct ALUAdd {
    /// The sum, modulo 256.
    pub sum: u8,
    /// Half-carry: the carry out of bit 3.
    pub carry3: bool,
    /// Carry: the carry out of bit 7.
    pub carry7: bool,
    /// Signed overflow of the two's-complement addition.
    pub overflow: bool,
}

/// What an 8-bit subtraction yields: the difference modulo 256, the
/// half-borrow (a borrow from bit 4) and the borrow.
#[derive(Clone, Copy, Debug, PartialEq, Eq, Structural)]
pub struct ALUSub(pub u8, pub bool, pub bool);

/// The value of a byte read as a two's-complement number.
pub open spec fn signed(x: u8) -> int {
    if x >= 128 {
        x - 256
    } else {
        x as int
    }
}

/// Whether an integer lies outside the range of a two's-complement byte.
pub open spec fn overflows_i8(x: int) -> bool {
    x < -128 || x > 127
}

impl ALUAdd {
    /// Puts the four parts of a result together.
    pub fn new(sum: u8, carry3: bool, carry7: bool, overflow: bool) -> (out: ALUAdd)
        ensures
            out == (ALUAdd { sum, carry3, carry7, overflow }),
    {
        ALUAdd { sum, carry3, carry7, overflow }
    }
}

impl ALU {
    /// The result of adding two bytes.
    pub open spec fn add_spec(lhs: u8, rhs: u8) -> ALUAdd {
        ALUAdd {
            sum: ((lhs + rhs) % 256) as u8,
            carry3: lhs % 16 + rhs % 16 > 15,
            carry7: lhs + rhs > 255,
            overflow: overflows_i8(signed(lhs) + signed(rhs)),
        }
    }

    /// The result of subtracting `rhs` from `lhs`.
    pub open spec fn sub_spec(lhs: u8, rhs: u8) -> ALUSub {
        ALUSub(((lhs - rhs) % 256) as u8, lhs % 16 < rhs % 16, lhs < rhs)
    }

    /// Adds the two arguments, tracking the carries and the signed overflow.
    pub fn add(lhs: u8, rhs: u8) -> (out: ALUAdd)
        ensures
            out == Self::add_spec(lhs, rhs),
    {
        let total: u16 = lhs as u16 + rhs as u16;
        let carry7: bool = total > 0xff;
        let sum: u8 = if carry7 {
            (total - 0x100) as u8
        } else {
            total as u8
        };
        proof {
            lemma_add_overflow_bits(lhs, rhs, 0, sum);
            lemma_nibbles(lhs, 0);
            lemma_nibbles(rhs, 0);
        }
        let carry3: bool = (lhs & 0x0f) + (rhs & 0x0f) > 0x0f;
        let overflow: bool = (lhs ^ sum) & (rhs ^ sum) & 0x80 != 0;
        ALUAdd::new(sum, carry3, carry7, overflow)
    }

    /// Increments the argument, tracking the carries and the signed overflow.
    #[inline(always)]
    pub fn increment(lhs: u8) -> (out: ALUAdd)
        ensures
            out == Self::add_spec(lhs, 1),
    {
        ALU::add(lhs, 1)
    }

    /// Subtracts `rhs` from `lhs`, tracking the borrows.
    pub fn sub(lhs: u8, rhs: u8) -> (out: ALUSub)
        ensures
            out == Self::sub_spec(lhs, rhs),
    {
        proof {
            lemma_nibbles(lhs, 0);
            lemma_nibbles(rhs, 0);
        }
        let lo1: u8 = lhs & 0x0f;
        let lo2: u8 = rhs & 0x0f;
        ALUSub(lhs.wrapping_sub(rhs), lo1 < lo2, lhs < rhs)
    }

    /// The half-carry and the carry of an addition compare the low nibbles
    /// and the whole bytes; its overflow is the sign test
    /// `(a ^ sum) & (b ^ sum) & 0x80 != 0`.
    pub proof fn law_add_flags(a: u8, b: u8)
        ensures
            ({
                let r = Self::add_spec(a, b);
                &&& r.sum == (a + b) % 256
                &&& r.carry3 == ((a & 0x0f) + (b & 0x0f) > 0x0f)
                &&& r.carry7 == (a as u16 + b as u16 > 255)
                &&& r.overflow == ((a ^ r.sum) & (b ^ r.sum) & 0x80 != 0)
            }),
    {
        lemma_add_overflow_bits(a, b, 0, ((a + b) % 256) as u8);
        lemma_nibbles(a, 0);
        lemma_nibbles(b, 0);
    }
}

} // verus!
