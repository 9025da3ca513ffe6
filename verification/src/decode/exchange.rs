//! Decoding of the exchange, block transfer and block search instructions.

use crate::decode::DecodeResult;
use crate::insts::Instruction;
use vstd::prelude::*;

verus! {

/// The block instruction that follows the prefix `ED`.
pub open spec fn block_of(op: u8) -> Option<Instruction> {
    if op == 0xa0 {
        Some(Instruction::LDI)
    } else if op == 0xb0 {
        Some(Instruction::LDIR)
    } else if op == 0xa8 {
        Some(Instruction::LDD)
    } else if op == 0xb8 {
        Some(Instruction::LDDR)
    } else if op == 0xa1 {
        Some(Instruction::CPI)
    } else if op == 0xb1 {
        Some(Instruction::CPIR)
    } else if op == 0xa9 {
        Some(Instruction::CPD)
    } else if op == 0xb9 {
        Some(Instruction::CPDR)
    } else {
        None
    }
}

/// The exchange, transfer or search instruction that begins `mem`, with
/// its width.
pub open spec fn exchange_spec(mem: Seq<u8>) -> DecodeResult {
    if mem.len() >= 1 && mem[0] == 0xeb {
        Some((Instruction::EX_DE_HL, 1u8))
    } else if mem.len() >= 1 && mem[0] == 0x08 {
        Some((Instruction::EX_AF_AF1, 1u8))
    } else if mem.len() >= 1 && mem[0] == 0xd9 {
        Some((Instruction::EXX, 1u8))
    } else if mem.len() >= 1 && mem[0] == 0xe3 {
        Some((Instruction::EX_SP_HL, 1u8))
    } else if mem.len() >= 2 && mem[0] == 0xdd && mem[1] == 0xe3 {
        Some((Instruction::EX_SP_IX, 2u8))
    } else if mem.len() >= 2 && mem[0] == 0xfd && mem[1] == 0xe3 {
        Some((Instruction::EX_SP_IY, 2u8))
    } else if mem.len() >= 2 && mem[0] == 0xed {
        match block_of(mem[1]) {
            Some(instr) => Some((instr, 2u8)),
            None => None,
        }
    } else {
        None
    }
}

/// Attempts to decode an exchange, transfer or search instruction at the
/// start of `mem`.
pub fn exchange(mem: &[u8]) -> (r: DecodeResult)
    ensures
        r == exchange_spec(mem@),
{
    if mem.len() == 0 {
        return None;
    }
    match mem[0] {
        0xeb => Some((Instruction::EX_DE_HL, 1)),
        0x08 => Some((Instruction::EX_AF_AF1, 1)),
        0xd9 => Some((Instruction::EXX, 1)),
        0xe3 => Some((Instruction::EX_SP_HL, 1)),
        0xdd => if mem.len() >= 2 && mem[1] == 0xe3 {
            Some((Instruction::EX_SP_IX, 2))
        } else {
            None
        },
        0xfd => if mem.len() >= 2 && mem[1] == 0xe3 {
            Some((Instruction::EX_SP_IY, 2))
        } else {
            None
        },
        0xed => if mem.len() >= 2 {
            match mem[1] {
                0xa0 => Some((Instruction::LDI, 2)),
                0xb0 => Some((Instruction::LDIR, 2)),
                0xa8 => Some((Instruction::LDD, 2)),
                0xb8 => Some((Instruction::LDDR, 2)),
                0xa1 => Some((Instruction::CPI, 2)),
                0xb1 => Some((Instruction::CPIR, 2)),
                0xa9 => Some((Instruction::CPD, 2)),
                0xb9 => Some((Instruction::CPDR, 2)),
                _ => None,
            }
        } else {
            None
        },
        _ => None,
    }
}

} // verus!
