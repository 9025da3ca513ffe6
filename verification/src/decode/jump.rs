//! Decoding of the jump instructions.

use crate::bits::lemma_opcode_fields;
use crate::decode::{
    bits_to_condition, cond_of_bits, displacement, low_three, mid_bits, mid_three, read_u16_le,
    signed_byte, top_two, word_le, DecodeResult, LOW_THREE, TOP_TWO,
};
use crate::insts::Instruction;
use vstd::prelude::*;

verus! {

/// The displacement that a relative jump holds for the byte `b` of its
/// encoding: the byte read as a signed number, plus the width of the
/// instruction, 2. There is none where the sum does not fit in a signed
/// byte.
pub open spec fn relative(b: u8) -> Option<i8> {
    if signed_byte(b) + 2 <= 127 {
        Some((signed_byte(b) + 2) as i8)
    } else {
        None
    }
}

/// The relative jump with opcode `op` and displacement `e`.
pub open spec fn relative_jump(op: u8, e: i8) -> Option<Instruction> {
    if op == 0x18 {
        Some(Instruction::JR_e(e))
    } else if op == 0x38 {
        Some(Instruction::JR_C_e(e))
    } else if op == 0x30 {
        Some(Instruction::JR_NC_e(e))
    } else if op == 0x28 {
        Some(Instruction::JR_Z_e(e))
    } else if op == 0x20 {
        Some(Instruction::JR_NZ_e(e))
    } else if op == 0x10 {
        Some(Instruction::DJNZ_e(e))
    } else {
        None
    }
}

/// The jump instruction that begins `mem`, with its width.
pub open spec fn jump_spec(mem: Seq<u8>) -> DecodeResult {
    if mem.len() == 0 {
        None
    } else if mem[0] == 0xc3 {
        if mem.len() >= 3 {
            Some((Instruction::JP_nn(word_le(mem[1], mem[2])), 3u8))
        } else {
            None
        }
    } else if relative_jump(mem[0], 0) is Some {
        if mem.len() >= 2 && relative(mem[1]) is Some {
            Some((relative_jump(mem[0], relative(mem[1])->0)->0, 2u8))
        } else {
            None
        }
    } else if mem[0] == 0xe9 {
        Some((Instruction::JP_HL, 1u8))
    } else if mem[0] == 0xdd && mem.len() >= 2 && mem[1] == 0xe9 {
        Some((Instruction::JP_IX, 2u8))
    } else if mem[0] == 0xfd && mem.len() >= 2 && mem[1] == 0xe9 {
        Some((Instruction::JP_IY, 2u8))
    } else if top_two(mem[0]) == 3 && low_three(mem[0]) == 2 && mem.len() >= 3 {
        match cond_of_bits(mid_three(mem[0])) {
            Some(cc) => Some((Instruction::JP_cc_nn(cc, word_le(mem[1], mem[2])), 3u8)),
            None => None,
        }
    } else {
        None
    }
}

/// Reads the displacement of a relative jump and adds the width of the
/// instruction to it.
fn adjusted(b: u8) -> (e: Option<i8>)
    ensures
        e == relative(b),
{
    displacement(b).checked_add(2)
}

/// Attempts to decode a jump instruction at the start of `memory`.
pub fn jump(memory: &[u8]) -> (r: DecodeResult)
    ensures
        r == jump_spec(memory@),
{
    if memory.len() == 0 {
        return None;
    }
    let op: u8 = memory[0];
    if op == 0xc3 {
        if memory.len() >= 3 {
            let nn: u16 = read_u16_le(&memory[1..memory.len()]);
            Some((Instruction::JP_nn(nn), 3))
        } else {
            None
        }
    } else if op == 0x18 || op == 0x38 || op == 0x30 || op == 0x28 || op == 0x20 || op == 0x10 {
        if memory.len() < 2 {
            return None;
        }
        let e: i8 = adjusted(memory[1])?;
        match op {
            0x18 => Some((Instruction::JR_e(e), 2)),
            0x38 => Some((Instruction::JR_C_e(e), 2)),
            0x30 => Some((Instruction::JR_NC_e(e), 2)),
            0x28 => Some((Instruction::JR_Z_e(e), 2)),
            0x20 => Some((Instruction::JR_NZ_e(e), 2)),
            _ => Some((Instruction::DJNZ_e(e), 2)),
        }
    } else if op == 0xe9 {
        Some((Instruction::JP_HL, 1))
    } else if op == 0xdd {
        if memory.len() >= 2 && memory[1] == 0xe9 {
            Some((Instruction::JP_IX, 2))
        } else {
            None
        }
    } else if op == 0xfd {
        if memory.len() >= 2 && memory[1] == 0xe9 {
            Some((Instruction::JP_IY, 2))
        } else {
            None
        }
    } else {
        jp_cc_nn(memory)
    }
}

/// `JP cc, nn`: `11`, the condition, `010`, then the address, low byte
/// first.
fn jp_cc_nn(mem: &[u8]) -> (r: DecodeResult)
    requires
        mem@.len() >= 1,
    ensures
        r == (if top_two(mem@[0]) == 3 && low_three(mem@[0]) == 2 && mem@.len() >= 3 {
            match cond_of_bits(mid_three(mem@[0])) {
                Some(cc) => Some((Instruction::JP_cc_nn(cc, word_le(mem@[1], mem@[2])), 3u8)),
                None => None,
            }
        } else {
            None
        }),
{
    proof {
        lemma_opcode_fields(mem@[0]);
    }
    if mem[0] & (TOP_TWO | LOW_THREE) != 0b11000010 || mem.len() < 3 {
        return None;
    }
    let cc = bits_to_condition(mid_bits(mem[0]))?;
    let nn: u16 = read_u16_le(&mem[1..mem.len()]);
    Some((Instruction::JP_cc_nn(cc, nn), 3))
}

} // verus!
