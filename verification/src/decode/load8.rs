//! Decoding of the 8-bit load instructions.

use crate::bits::lemma_opcode_fields;
use crate::decode::{
    bits_to_reg, displacement, low_bits, low_three, mid_bits, mid_three, read_u16_le, reg_of_bits,
    signed_byte, top_two, word_le, DecodeResult, LOW_THREE, MID_THREE, TOP_TWO,
};
use crate::insts::Instruction;
use vstd::prelude::*;

verus! {

/// The load that begins `mem` when its first byte is no prefix: between
/// registers, between a register and the byte at HL, of an immediate, or
/// between the accumulator and the byte at BC, at DE or at an address.
pub open spec fn plain_load(mem: Seq<u8>) -> DecodeResult {
    let op = mem[0];
    let dst = reg_of_bits(mid_three(op));
    let src = reg_of_bits(low_three(op));
    if top_two(op) == 1 {
        match (dst, src) {
            (Some(r), Some(r1)) => Some((Instruction::LD_r_r(r, r1), 1u8)),
            (Some(r), None) => Some((Instruction::LD_r_HL(r), 1u8)),
            (None, Some(r1)) => Some((Instruction::LD_HL_r(r1), 1u8)),
            (None, None) => None,
        }
    } else if top_two(op) == 0 && low_three(op) == 6 {
        if mem.len() < 2 {
            None
        } else {
            match dst {
                Some(r) => Some((Instruction::LD_r_n(r, mem[1]), 2u8)),
                None => Some((Instruction::LD_HL_n(mem[1]), 2u8)),
            }
        }
    } else if op == 0x0a {
        Some((Instruction::LD_A_BC, 1u8))
    } else if op == 0x1a {
        Some((Instruction::LD_A_DE, 1u8))
    } else if op == 0x02 {
        Some((Instruction::LD_BC_A, 1u8))
    } else if op == 0x12 {
        Some((Instruction::LD_DE_A, 1u8))
    } else if op == 0x3a && mem.len() >= 3 {
        Some((Instruction::LD_A_nn(word_le(mem[1], mem[2])), 3u8))
    } else if op == 0x32 && mem.len() >= 3 {
        Some((Instruction::LD_nn_A(word_le(mem[1], mem[2])), 3u8))
    } else {
        None
    }
}

/// The load that begins `mem` after the prefix `DD` (`ix` true) or `FD`
/// (`ix` false): between a register, or an immediate, and the byte at the
/// index register plus a displacement.
pub open spec fn indexed_load(mem: Seq<u8>, ix: bool) -> DecodeResult {
    if mem.len() < 3 {
        None
    } else {
        let op = mem[1];
        let d = signed_byte(mem[2]);
        let dst = reg_of_bits(mid_three(op));
        let src = reg_of_bits(low_three(op));
        if op == 0x36 {
            if mem.len() < 4 {
                None
            } else if ix {
                Some((Instruction::LD_IX_n(d, mem[3]), 4u8))
            } else {
                Some((Instruction::LD_IY_n(d, mem[3]), 4u8))
            }
        } else if top_two(op) == 1 {
            match (dst, src) {
                (Some(r), None) => Some(
                    (
                        if ix {
                            Instruction::LD_r_IX(r, d)
                        } else {
                            Instruction::LD_r_IY(r, d)
                        },
                        3u8,
                    ),
                ),
                (None, Some(r)) => Some(
                    (
                        if ix {
                            Instruction::LD_IX_r(d, r)
                        } else {
                            Instruction::LD_IY_r(d, r)
                        },
                        3u8,
                    ),
                ),
                _ => None,
            }
        } else {
            None
        }
    }
}

/// The load between the accumulator and the interrupt vector or the
/// refresh register that follows the prefix `ED`.
pub open spec fn special_load(mem: Seq<u8>) -> DecodeResult {
    if mem.len() < 2 {
        None
    } else if mem[1] == 0x57 {
        Some((Instruction::LD_A_I, 2u8))
    } else if mem[1] == 0x5f {
        Some((Instruction::LD_A_R, 2u8))
    } else if mem[1] == 0x47 {
        Some((Instruction::LD_I_A, 2u8))
    } else if mem[1] == 0x4f {
        Some((Instruction::LD_R_A, 2u8))
    } else {
        None
    }
}

/// The 8-bit load instruction that begins `mem`, with its width.
pub open spec fn load8_spec(mem: Seq<u8>) -> DecodeResult {
    if mem.len() == 0 {
        None
    } else if mem[0] == 0xdd {
        indexed_load(mem, true)
    } else if mem[0] == 0xfd {
        indexed_load(mem, false)
    } else if mem[0] == 0xed {
        special_load(mem)
    } else {
        plain_load(mem)
    }
}

/// Attempts to decode an 8-bit load instruction at the start of `mem`.
pub fn load8(mem: &[u8]) -> (r: DecodeResult)
    ensures
        r == load8_spec(mem@),
{
    if mem.len() == 0 {
        return None;
    }
    let op: u8 = mem[0];
    proof {
        lemma_opcode_fields(op);
    }
    if op == 0xdd {
        if mem.len() >= 4 && mem[1] == 0x36 {
            Some((Instruction::LD_IX_n(displacement(mem[2]), mem[3]), 4))
        } else if mem.len() >= 3 && mem[1] != 0x36 {
            let rest = &mem[1..mem.len()];
            let x = load_r_ix(rest);
            match x {
                Some(_) => x,
                None => load_ix_r(rest),
            }
        } else {
            None
        }
    } else if op == 0xfd {
        if mem.len() >= 4 && mem[1] == 0x36 {
            Some((Instruction::LD_IY_n(displacement(mem[2]), mem[3]), 4))
        } else if mem.len() >= 3 && mem[1] != 0x36 {
            let rest = &mem[1..mem.len()];
            let x = load_r_iy(rest);
            match x {
                Some(_) => x,
                None => load_iy_r(rest),
            }
        } else {
            None
        }
    } else if op == 0xed {
        if mem.len() < 2 {
            None
        } else {
            match mem[1] {
                0x57 => Some((Instruction::LD_A_I, 2)),
                0x5f => Some((Instruction::LD_A_R, 2)),
                0x47 => Some((Instruction::LD_I_A, 2)),
                0x4f => Some((Instruction::LD_R_A, 2)),
                _ => None,
            }
        }
    } else if op == 0x36 {
        if mem.len() >= 2 {
            Some((Instruction::LD_HL_n(mem[1]), 2))
        } else {
            None
        }
    } else if op == 0x0a {
        Some((Instruction::LD_A_BC, 1))
    } else if op == 0x1a {
        Some((Instruction::LD_A_DE, 1))
    } else if op == 0x3a {
        if mem.len() >= 3 {
            let nn: u16 = read_u16_le(&mem[1..mem.len()]);
            Some((Instruction::LD_A_nn(nn), 3))
        } else {
            None
        }
    } else if op == 0x02 {
        Some((Instruction::LD_BC_A, 1))
    } else if op == 0x12 {
        Some((Instruction::LD_DE_A, 1))
    } else if op == 0x32 {
        if mem.len() >= 3 {
            let nn: u16 = read_u16_le(&mem[1..mem.len()]);
            Some((Instruction::LD_nn_A(nn), 3))
        } else {
            None
        }
    } else {
        let a = load_r_r(mem);
        if a.is_some() {
            return a;
        }
        let b = load_r_n(mem);
        if b.is_some() {
            return b;
        }
        let c = load_hl_r(mem);
        if c.is_some() {
            return c;
        }
        load_r_hl(mem)
    }
}

/// `LD r, r'`: `01` in the top two bits, then the two registers.
fn load_r_r(mem: &[u8]) -> (r: DecodeResult)
    requires
        mem@.len() >= 1,
    ensures
        r == (if top_two(mem@[0]) == 1 {
            match (reg_of_bits(mid_three(mem@[0])), reg_of_bits(low_three(mem@[0]))) {
                (Some(dst), Some(src)) => Some((Instruction::LD_r_r(dst, src), 1u8)),
                _ => None,
            }
        } else {
            None
        }),
{
    proof {
        lemma_opcode_fields(mem@[0]);
    }
    if mem[0] & TOP_TWO != 0b01000000 {
        return None;
    }
    let r = bits_to_reg(mid_bits(mem[0]))?;
    let r1 = bits_to_reg(low_bits(mem[0]))?;
    Some((Instruction::LD_r_r(r, r1), 1))
}

/// `LD r, n`: `00`, the register, `110`, then the immediate byte.
fn load_r_n(mem: &[u8]) -> (r: DecodeResult)
    requires
        mem@.len() >= 1,
    ensures
        r == (if top_two(mem@[0]) == 0 && low_three(mem@[0]) == 6 && mem@.len() >= 2 {
            match reg_of_bits(mid_three(mem@[0])) {
                Some(dst) => Some((Instruction::LD_r_n(dst, mem@[1]), 2u8)),
                None => None,
            }
        } else {
            None
        }),
{
    proof {
        lemma_opcode_fields(mem@[0]);
    }
    if mem[0] & (TOP_TWO | LOW_THREE) != 0b00000110 || mem.len() < 2 {
        return None;
    }
    let r = bits_to_reg(mid_bits(mem[0]))?;
    Some((Instruction::LD_r_n(r, mem[1]), 2))
}

/// `LD (HL), r`: `01110`, then the register.
fn load_hl_r(mem: &[u8]) -> (r: DecodeResult)
    requires
        mem@.len() >= 1,
    ensures
        r == (if top_two(mem@[0]) == 1 && mid_three(mem@[0]) == 6 {
            match reg_of_bits(low_three(mem@[0])) {
                Some(src) => Some((Instruction::LD_HL_r(src), 1u8)),
                None => None,
            }
        } else {
            None
        }),
{
    proof {
        lemma_opcode_fields(mem@[0]);
    }
    if mem[0] & (TOP_TWO | MID_THREE) != 0b01110000 {
        return None;
    }
    let r = bits_to_reg(low_bits(mem[0]))?;
    Some((Instruction::LD_HL_r(r), 1))
}

/// `LD r, (HL)`: `01`, the register, `110`.
fn load_r_hl(mem: &[u8]) -> (r: DecodeResult)
    requires
        mem@.len() >= 1,
    ensures
        r == (if top_two(mem@[0]) == 1 && low_three(mem@[0]) == 6 {
            match reg_of_bits(mid_three(mem@[0])) {
                Some(dst) => Some((Instruction::LD_r_HL(dst), 1u8)),
                None => None,
            }
        } else {
            None
        }),
{
    proof {
        lemma_opcode_fields(mem@[0]);
    }
    if mem[0] & (TOP_TWO | LOW_THREE) != 0b01000110 {
        return None;
    }
    let r = bits_to_reg(mid_bits(mem[0]))?;
    Some((Instruction::LD_r_HL(r), 1))
}

/// `LD r, (IX+d)` after its prefix: `01`, the register, `110`, then the
/// displacement.
fn load_r_ix(mem: &[u8]) -> (r: DecodeResult)
    requires
        mem@.len() >= 2,
    ensures
        r == (if top_two(mem@[0]) == 1 && low_three(mem@[0]) == 6 {
            match reg_of_bits(mid_three(mem@[0])) {
                Some(dst) => Some((Instruction::LD_r_IX(dst, signed_byte(mem@[1])), 3u8)),
                None => None,
            }
        } else {
            None
        }),
{
    proof {
        lemma_opcode_fields(mem@[0]);
    }
    if mem[0] & (TOP_TWO | LOW_THREE) != 0b01000110 {
        return None;
    }
    let r = bits_to_reg(mid_bits(mem[0]))?;
    Some((Instruction::LD_r_IX(r, displacement(mem[1])), 3))
}

/// `LD r, (IY+d)` after its prefix: `01`, the register, `110`, then the
/// displacement.
fn load_r_iy(mem: &[u8]) -> (r: DecodeResult)
    requires
        mem@.len() >= 2,
    ensures
        r == (if top_two(mem@[0]) == 1 && low_three(mem@[0]) == 6 {
            match reg_of_bits(mid_three(mem@[0])) {
                Some(dst) => Some((Instruction::LD_r_IY(dst, signed_byte(mem@[1])), 3u8)),
                None => None,
            }
        } else {
            None
        }),
{
    proof {
        lemma_opcode_fields(mem@[0]);
    }
    if mem[0] & (TOP_TWO | LOW_THREE) != 0b01000110 {
        return None;
    }
    let r = bits_to_reg(mid_bits(mem[0]))?;
    Some((Instruction::LD_r_IY(r, displacement(mem[1])), 3))
}

/// `LD (IX+d), r` after its prefix: `01110`, the register, then the
/// displacement.
fn load_ix_r(mem: &[u8]) -> (r: DecodeResult)
    requires
        mem@.len() >= 2,
    ensures
        r == (if top_two(mem@[0]) == 1 && mid_three(mem@[0]) == 6 {
            match reg_of_bits(low_three(mem@[0])) {
                Some(src) => Some((Instruction::LD_IX_r(signed_byte(mem@[1]), src), 3u8)),
                None => None,
            }
        } else {
            None
        }),
{
    proof {
        lemma_opcode_fields(mem@[0]);
    }
    if mem[0] & (TOP_TWO | MID_THREE) != 0b01110000 {
        return None;
    }
    let r = bits_to_reg(low_bits(mem[0]))?;
    Some((Instruction::LD_IX_r(displacement(mem[1]), r), 3))
}

/// `LD (IY+d), r` after its prefix: `01110`, the register, then the
/// displacement.
fn load_iy_r(mem: &[u8]) -> (r: DecodeResult)
    requires
        mem@.len() >= 2,
    ensures
        r == (if top_two(mem@[0]) == 1 && mid_three(mem@[0]) == 6 {
            match reg_of_bits(low_three(mem@[0])) {
                Some(src) => Some((Instruction::LD_IY_r(signed_byte(mem@[1]), src), 3u8)),
                None => None,
            }
        } else {
            None
        }),
{
    proof {
        lemma_opcode_fields(mem@[0]);
    }
    if mem[0] & (TOP_TWO | MID_THREE) != 0b01110000 {
        return None;
    }
    let r = bits_to_reg(low_bits(mem[0]))?;
    Some((Instruction::LD_IY_r(displacement(mem[1]), r), 3))
}

} // verus!
