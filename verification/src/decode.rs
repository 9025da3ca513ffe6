//! The instruction decoder: from the bytes at the program counter to an
//! instruction and its width.

pub mod arith8;
pub mod exchange;
pub mod jump;
pub mod load8;

use crate::bits::lemma_opcode_fields;
use crate::cpu::{Condition, Register, Z80};
use crate::insts::Instruction;
use arith8::{arith8, arith8_spec};
use byteorder::{ByteOrder, LittleEndian};
use exchange::{exchange, exchange_spec};
use jump::{jump, jump_spec};
use load8::{load8, load8_spec};
use vstd::prelude::*;

verus! {

/// If decoding succeeds: the instruction and the number of bytes it takes.
pub type DecodeResult = Option<(Instruction, u8)>;

/// Bit mask `11000000`.
pub const TOP_TWO: u8 = 0b11000000;

/// Bit mask `00111000`.
pub const MID_THREE: u8 = 0b00111000;

/// Bit mask `00000111`.
pub const LOW_THREE: u8 = 0b00000111;

/// The top two bits of an opcode.
pub open spec fn top_two(op: u8) -> u8 {
    op / 64
}

/// The middle three bits of an opcode.
pub open spec fn mid_three(op: u8) -> u8 {
    (op / 8) % 8
}

/// The low three bits of an opcode.
pub open spec fn low_three(op: u8) -> u8 {
    op % 8
}

/// The register that a three-bit field selects. The value `110` selects
/// no register: it marks the forms that address memory.
pub open spec fn reg_of_bits(bits: u8) -> Option<Register> {
    if bits == 0b111 {
        Some(Register::A)
    } else if bits == 0b000 {
        Some(Register::B)
    } else if bits == 0b001 {
        Some(Register::C)
    } else if bits == 0b010 {
        Some(Register::D)
    } else if bits == 0b011 {
        Some(Register::E)
    } else if bits == 0b100 {
        Some(Register::H)
    } else if bits == 0b101 {
        Some(Register::L)
    } else {
        None
    }
}

/// The condition that a three-bit field selects.
pub open spec fn cond_of_bits(bits: u8) -> Option<Condition> {
    if bits == 0b000 {
        Some(Condition::NZ)
    } else if bits == 0b001 {
        Some(Condition::Z)
    } else if bits == 0b010 {
        Some(Condition::NC)
    } else if bits == 0b011 {
        Some(Condition::C)
    } else if bits == 0b100 {
        Some(Condition::PO)
    } else if bits == 0b101 {
        Some(Condition::PE)
    } else if bits == 0b110 {
        Some(Condition::P)
    } else if bits == 0b111 {
        Some(Condition::M)
    } else {
        None
    }
}

/// A byte read as a two's-complement displacement.
pub open spec fn signed_byte(b: u8) -> i8 {
    if b >= 128 {
        (b - 256) as i8
    } else {
        b as i8
    }
}

/// The 16-bit word whose low byte comes first.
pub open spec fn word_le(lo: u8, hi: u8) -> u16 {
    (lo + 256 * hi) as u16
}

/// The first of two decoding attempts that succeeded.
pub open spec fn or_else(first: DecodeResult, second: DecodeResult) -> DecodeResult {
    if first is Some {
        first
    } else {
        second
    }
}

/// Returns a [`Register`] if the three-bit value names one.
#[inline]
pub fn bits_to_reg(bits: u8) -> (reg: Option<Register>)
    ensures
        reg == reg_of_bits(bits),
{
    match bits {
        0b111 => Some(Register::A),
        0b000 => Some(Register::B),
        0b001 => Some(Register::C),
        0b010 => Some(Register::D),
        0b011 => Some(Register::E),
        0b100 => Some(Register::H),
        0b101 => Some(Register::L),
        _ => None,
    }
}

/// Returns a [`Condition`] if the three-bit value names one.
#[inline]
pub fn bits_to_condition(bits: u8) -> (cc: Option<Condition>)
    ensures
        cc == cond_of_bits(bits),
{
    match bits {
        0b000 => Some(Condition::NZ),
        0b001 => Some(Condition::Z),
        0b010 => Some(Condition::NC),
        0b011 => Some(Condition::C),
        0b100 => Some(Condition::PO),
        0b101 => Some(Condition::PE),
        0b110 => Some(Condition::P),
        0b111 => Some(Condition::M),
        _ => None,
    }
}

/// Returns the middle three bits of an opcode.
#[inline]
pub fn mid_bits(op: u8) -> (bits: u8)
    ensures
        bits == mid_three(op),
{
    proof {
        lemma_opcode_fields(op);
    }
    (op & MID_THREE) >> 3
}

/// Returns the low three bits of an opcode.
#[inline]
pub fn low_bits(op: u8) -> (bits: u8)
    ensures
        bits == low_three(op),
{
    proof {
        lemma_opcode_fields(op);
    }
    op & LOW_THREE
}

/// Reads a byte as a two's-complement displacement.
#[inline]
pub fn displacement(b: u8) -> (d: i8)
    ensures
        d == signed_byte(b),
{
    if b >= 128 {
        (b as i16 - 256) as i8
    } else {
        b as i8
    }
}

/// Calls `byteorder::LittleEndian::read_u16`, which reads the first two
/// bytes of `buf` as a 16-bit word, low byte first, and panics on fewer
/// than two bytes.
#[verifier::external_body]
pub(crate) fn read_u16_le(buf: &[u8]) -> (word: u16)
    requires
        buf@.len() >= 2,
    ensures
        word == word_le(buf@[0], buf@[1]),
{
    LittleEndian::read_u16(buf)
}

/// The instruction that begins `mem`, with its width in bytes. The
/// families are tried in a fixed order: load, then exchange and block
/// transfer, then jump, then 8-bit arithmetic; the first that matches wins.
/// Nothing is decoded from bytes that end before the instruction does.
#[verifier::opaque]
pub open spec fn decode_spec(mem: Seq<u8>) -> DecodeResult {
    or_else(
        load8_spec(mem),
        or_else(exchange_spec(mem), or_else(jump_spec(mem), arith8_spec(mem))),
    )
}

impl Z80 {
    /// Attempts to decode the instruction that begins at the start of
    /// `memory`. Returns `None` when the bytes match no instruction.
    pub fn decode(&self, memory: &[u8]) -> (r: DecodeResult)
        ensures
            r == decode_spec(memory@),
    {
        reveal(decode_spec);
        let l = load8(memory);
        if l.is_some() {
            return l;
        }
        let x = exchange(memory);
        if x.is_some() {
            return x;
        }
        let j = jump(memory);
        if j.is_some() {
            return j;
        }
        arith8(memory)
    }
}

} // verus!
