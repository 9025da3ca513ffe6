//! Decoding of the 8-bit arithmetic and logic instructions.

use crate::bits::lemma_opcode_fields;
use crate::cpu::Register;
use crate::decode::{
    bits_to_reg, displacement, low_bits, low_three, mid_bits, mid_three, reg_of_bits, signed_byte,
    top_two, DecodeResult, LOW_THREE, MID_THREE, TOP_TWO,
};
use crate::insts::Instruction;
use vstd::prelude::*;

verus! {

/// The operation numbered `y` of the eight on the accumulator (add, add with
/// carry, subtract, subtract with carry, and, exclusive or, or, compare),
/// with a register as its operand.
pub open spec fn alu_r(y: u8, r: Register) -> Instruction {
    if y == 0 {
        Instruction::ADD_A_r(r)
    } else if y == 1 {
        Instruction::ADC_A_r(r)
    } else if y == 2 {
        Instruction::SUB_A_r(r)
    } else if y == 3 {
        Instruction::SBC_A_r(r)
    } else if y == 4 {
        Instruction::AND_A_r(r)
    } else if y == 5 {
        Instruction::XOR_A_r(r)
    } else if y == 6 {
        Instruction::OR_A_r(r)
    } else {
        Instruction::CP_r(r)
    }
}

/// The operation numbered `y` on the accumulator with an immediate operand.
pub open spec fn alu_n(y: u8, n: u8) -> Instruction {
    if y == 0 {
        Instruction::ADD_A_n(n)
    } else if y == 1 {
        Instruction::ADC_A_n(n)
    } else if y == 2 {
        Instruction::SUB_A_n(n)
    } else if y == 3 {
        Instruction::SBC_A_n(n)
    } else if y == 4 {
        Instruction::AND_A_n(n)
    } else if y == 5 {
        Instruction::XOR_A_n(n)
    } else if y == 6 {
        Instruction::OR_A_n(n)
    } else {
        Instruction::CP_n(n)
    }
}

/// The operation numbered `y` on the accumulator with the byte at HL as
/// its operand.
pub open spec fn alu_hl(y: u8) -> Instruction {
    if y == 0 {
        Instruction::ADD_A_HL
    } else if y == 1 {
        Instruction::ADC_A_HL
    } else if y == 2 {
        Instruction::SUB_A_HL
    } else if y == 3 {
        Instruction::SBC_A_HL
    } else if y == 4 {
        Instruction::AND_A_HL
    } else if y == 5 {
        Instruction::XOR_A_HL
    } else if y == 6 {
        Instruction::OR_A_HL
    } else {
        Instruction::CP_HL
    }
}

/// The operation numbered `y` on the accumulator with the byte at IX plus
/// `d` as its operand.
pub open spec fn alu_ix(y: u8, d: i8) -> Instruction {
    if y == 0 {
        Instruction::ADD_A_IX(d)
    } else if y == 1 {
        Instruction::ADC_A_IX(d)
    } else if y == 2 {
        Instruction::SUB_A_IX(d)
    } else if y == 3 {
        Instruction::SBC_A_IX(d)
    } else if y == 4 {
        Instruction::AND_A_IX(d)
    } else if y == 5 {
        Instruction::XOR_A_IX(d)
    } else if y == 6 {
        Instruction::OR_A_IX(d)
    } else {
        Instruction::CP_IX(d)
    }
}

/// The operation numbered `y` on the accumulator with the byte at IY plus
/// `d` as its operand.
pub open spec fn alu_iy(y: u8, d: i8) -> Instruction {
    if y == 0 {
        Instruction::ADD_A_IY(d)
    } else if y == 1 {
        Instruction::ADC_A_IY(d)
    } else if y == 2 {
        Instruction::SUB_A_IY(d)
    } else if y == 3 {
        Instruction::SBC_A_IY(d)
    } else if y == 4 {
        Instruction::AND_A_IY(d)
    } else if y == 5 {
        Instruction::XOR_A_IY(d)
    } else if y == 6 {
        Instruction::OR_A_IY(d)
    } else {
        Instruction::CP_IY(d)
    }
}

/// The arithmetic instruction that begins `mem` after the prefix `DD`
/// (`ix` true) or `FD` (`ix` false): its operand is the byte at the index
/// register plus a displacement.
pub open spec fn indexed_arith(mem: Seq<u8>, ix: bool) -> DecodeResult {
    if mem.len() < 3 {
        None
    } else {
        let op = mem[1];
        let d = signed_byte(mem[2]);
        if top_two(op) == 2 && low_three(op) == 6 {
            Some(
                (
                    if ix {
                        alu_ix(mid_three(op), d)
                    } else {
                        alu_iy(mid_three(op), d)
                    },
                    3u8,
                ),
            )
        } else if op == 0x34 {
            Some(
                (
                    if ix {
                        Instruction::INC_IX(d)
                    } else {
                        Instruction::INC_IY(d)
                    },
                    3u8,
                ),
            )
        } else if op == 0x35 {
            Some(
                (
                    if ix {
                        Instruction::DEC_IX(d)
                    } else {
                        Instruction::DEC_IY(d)
                    },
                    3u8,
                ),
            )
        } else {
            None
        }
    }
}

/// The 8-bit arithmetic instruction that begins `mem`, with its width.
pub open spec fn arith8_spec(mem: Seq<u8>) -> DecodeResult {
    if mem.len() == 0 {
        None
    } else if mem[0] == 0xdd {
        indexed_arith(mem, true)
    } else if mem[0] == 0xfd {
        indexed_arith(mem, false)
    } else {
        let op = mem[0];
        if top_two(op) == 2 {
            match reg_of_bits(low_three(op)) {
                Some(r) => Some((alu_r(mid_three(op), r), 1u8)),
                None => Some((alu_hl(mid_three(op)), 1u8)),
            }
        } else if top_two(op) == 3 && low_three(op) == 6 {
            if mem.len() >= 2 {
                Some((alu_n(mid_three(op), mem[1]), 2u8))
            } else {
                None
            }
        } else if top_two(op) == 0 && low_three(op) == 4 {
            match reg_of_bits(mid_three(op)) {
                Some(r) => Some((Instruction::INC_r(r), 1u8)),
                None => Some((Instruction::INC_HL, 1u8)),
            }
        } else if top_two(op) == 0 && low_three(op) == 5 {
            match reg_of_bits(mid_three(op)) {
                Some(r) => Some((Instruction::DEC_r(r), 1u8)),
                None => Some((Instruction::DEC_HL, 1u8)),
            }
        } else {
            None
        }
    }
}

/// Attempts to decode an 8-bit arithmetic instruction at the start of
/// `memory`.
pub fn arith8(memory: &[u8]) -> (r: DecodeResult)
    ensures
        r == arith8_spec(memory@),
{
    if memory.len() == 0 {
        return None;
    }
    let op: u8 = memory[0];
    proof {
        lemma_opcode_fields(op);
    }
    match op {
        0xc6 => if memory.len() >= 2 {
            Some((Instruction::ADD_A_n(memory[1]), 2))
        } else {
            None
        },
        0x86 => Some((Instruction::ADD_A_HL, 1)),
        0xdd => if memory.len() >= 3 {
            let d: i8 = displacement(memory[2]);
            proof {
                lemma_opcode_fields(memory@[1]);
            }
            match memory[1] {
                0x86 => Some((Instruction::ADD_A_IX(d), 3)),
                0x8e => Some((Instruction::ADC_A_IX(d), 3)),
                0x96 => Some((Instruction::SUB_A_IX(d), 3)),
                0x9e => Some((Instruction::SBC_A_IX(d), 3)),
                0x34 => Some((Instruction::INC_IX(d), 3)),
                0xa6 => Some((Instruction::AND_A_IX(d), 3)),
                0xb6 => Some((Instruction::OR_A_IX(d), 3)),
                0xae => Some((Instruction::XOR_A_IX(d), 3)),
                0xbe => Some((Instruction::CP_IX(d), 3)),
                0x35 => Some((Instruction::DEC_IX(d), 3)),
                _ => None,
            }
        } else {
            None
        },
        0xfd => if memory.len() >= 3 {
            let d: i8 = displacement(memory[2]);
            proof {
                lemma_opcode_fields(memory@[1]);
            }
            match memory[1] {
                0x86 => Some((Instruction::ADD_A_IY(d), 3)),
                0x8e => Some((Instruction::ADC_A_IY(d), 3)),
                0x96 => Some((Instruction::SUB_A_IY(d), 3)),
                0x9e => Some((Instruction::SBC_A_IY(d), 3)),
                0x34 => Some((Instruction::INC_IY(d), 3)),
                0xa6 => Some((Instruction::AND_A_IY(d), 3)),
                0xb6 => Some((Instruction::OR_A_IY(d), 3)),
                0xae => Some((Instruction::XOR_A_IY(d), 3)),
                0xbe => Some((Instruction::CP_IY(d), 3)),
                0x35 => Some((Instruction::DEC_IY(d), 3)),
                _ => None,
            }
        } else {
            None
        },
        0xce => if memory.len() >= 2 {
            Some((Instruction::ADC_A_n(memory[1]), 2))
        } else {
            None
        },
        0x8e => Some((Instruction::ADC_A_HL, 1)),
        0xd6 => if memory.len() >= 2 {
            Some((Instruction::SUB_A_n(memory[1]), 2))
        } else {
            None
        },
        0x96 => Some((Instruction::SUB_A_HL, 1)),
        0xde => if memory.len() >= 2 {
            Some((Instruction::SBC_A_n(memory[1]), 2))
        } else {
            None
        },
        0x9e => Some((Instruction::SBC_A_HL, 1)),
        0x34 => Some((Instruction::INC_HL, 1)),
        0xe6 => if memory.len() >= 2 {
            Some((Instruction::AND_A_n(memory[1]), 2))
        } else {
            None
        },
        0xa6 => Some((Instruction::AND_A_HL, 1)),
        0xf6 => if memory.len() >= 2 {
            Some((Instruction::OR_A_n(memory[1]), 2))
        } else {
            None
        },
        0xb6 => Some((Instruction::OR_A_HL, 1)),
        0xee => if memory.len() >= 2 {
            Some((Instruction::XOR_A_n(memory[1]), 2))
        } else {
            None
        },
        0xae => Some((Instruction::XOR_A_HL, 1)),
        0xfe => if memory.len() >= 2 {
            Some((Instruction::CP_n(memory[1]), 2))
        } else {
            None
        },
        0xbe => Some((Instruction::CP_HL, 1)),
        0x35 => Some((Instruction::DEC_HL, 1)),
        _ => {
            let a = add_a_r(memory);
            if a.is_some() {
                return a;
            }
            let b = addc_a_r(memory);
            if b.is_some() {
                return b;
            }
            let c = sub_a_r(memory);
            if c.is_some() {
                return c;
            }
            let d = subc_a_r(memory);
            if d.is_some() {
                return d;
            }
            let e = and_a_r(memory);
            if e.is_some() {
                return e;
            }
            let f = or_a_r(memory);
            if f.is_some() {
                return f;
            }
            let g = xor_a_r(memory);
            if g.is_some() {
                return g;
            }
            let h = cp_r(memory);
            if h.is_some() {
                return h;
            }
            let i = inc_r(memory);
            if i.is_some() {
                return i;
            }
            dec_r(memory)
        },
    }
}

/// `ADD A, r`: `10000`, then the register.
fn add_a_r(mem: &[u8]) -> (r: DecodeResult)
    requires
        mem@.len() >= 1,
    ensures
        r == (if top_two(mem@[0]) == 2 && mid_three(mem@[0]) == 0 {
            match reg_of_bits(low_three(mem@[0])) {
                Some(reg) => Some((Instruction::ADD_A_r(reg), 1u8)),
                None => None,
            }
        } else {
            None
        }),
{
    proof {
        lemma_opcode_fields(mem@[0]);
    }
    if mem[0] & (TOP_TWO | MID_THREE) != 0b10000000 {
        return None;
    }
    let r = bits_to_reg(low_bits(mem[0]))?;
    Some((Instruction::ADD_A_r(r), 1))
}

/// `ADC A, r`: `10001`, then the register.
fn addc_a_r(mem: &[u8]) -> (r: DecodeResult)
    requires
        mem@.len() >= 1,
    ensures
        r == (if top_two(mem@[0]) == 2 && mid_three(mem@[0]) == 1 {
            match reg_of_bits(low_three(mem@[0])) {
                Some(reg) => Some((Instruction::ADC_A_r(reg), 1u8)),
                None => None,
            }
        } else {
            None
        }),
{
    proof {
        lemma_opcode_fields(mem@[0]);
    }
    if mem[0] & (TOP_TWO | MID_THREE) != 0b10001000 {
        return None;
    }
    let r = bits_to_reg(low_bits(mem[0]))?;
    Some((Instruction::ADC_A_r(r), 1))
}

/// `SUB A, r`: `10010`, then the register.
fn sub_a_r(mem: &[u8]) -> (r: DecodeResult)
    requires
        mem@.len() >= 1,
    ensures
        r == (if top_two(mem@[0]) == 2 && mid_three(mem@[0]) == 2 {
            match reg_of_bits(low_three(mem@[0])) {
                Some(reg) => Some((Instruction::SUB_A_r(reg), 1u8)),
                None => None,
            }
        } else {
            None
        }),
{
    proof {
        lemma_opcode_fields(mem@[0]);
    }
    if mem[0] & (TOP_TWO | MID_THREE) != 0b10010000 {
        return None;
    }
    let r = bits_to_reg(low_bits(mem[0]))?;
    Some((Instruction::SUB_A_r(r), 1))
}

/// `SBC A, r`: `10011`, then the register.
fn subc_a_r(mem: &[u8]) -> (r: DecodeResult)
    requires
        mem@.len() >= 1,
    ensures
        r == (if top_two(mem@[0]) == 2 && mid_three(mem@[0]) == 3 {
            match reg_of_bits(low_three(mem@[0])) {
                Some(reg) => Some((Instruction::SBC_A_r(reg), 1u8)),
                None => None,
            }
        } else {
            None
        }),
{
    proof {
        lemma_opcode_fields(mem@[0]);
    }
    if mem[0] & (TOP_TWO | MID_THREE) != 0b10011000 {
        return None;
    }
    let r = bits_to_reg(low_bits(mem[0]))?;
    Some((Instruction::SBC_A_r(r), 1))
}

/// `AND A, r`: `10100`, then the register.
fn and_a_r(mem: &[u8]) -> (r: DecodeResult)
    requires
        mem@.len() >= 1,
    ensures
        r == (if top_two(mem@[0]) == 2 && mid_three(mem@[0]) == 4 {
            match reg_of_bits(low_three(mem@[0])) {
                Some(reg) => Some((Instruction::AND_A_r(reg), 1u8)),
                None => None,
            }
        } else {
            None
        }),
{
    proof {
        lemma_opcode_fields(mem@[0]);
    }
    if mem[0] & (TOP_TWO | MID_THREE) != 0b10100000 {
        return None;
    }
    let r = bits_to_reg(low_bits(mem[0]))?;
    Some((Instruction::AND_A_r(r), 1))
}

/// `OR A, r`: `10110`, then the register.
fn or_a_r(mem: &[u8]) -> (r: DecodeResult)
    requires
        mem@.len() >= 1,
    ensures
        r == (if top_two(mem@[0]) == 2 && mid_three(mem@[0]) == 6 {
            match reg_of_bits(low_three(mem@[0])) {
                Some(reg) => Some((Instruction::OR_A_r(reg), 1u8)),
                None => None,
            }
        } else {
            None
        }),
{
    proof {
        lemma_opcode_fields(mem@[0]);
    }
    if mem[0] & (TOP_TWO | MID_THREE) != 0b10110000 {
        return None;
    }
    let r = bits_to_reg(low_bits(mem[0]))?;
    Some((Instruction::OR_A_r(r), 1))
}

/// `XOR A, r`: `10101`, then the register.
fn xor_a_r(mem: &[u8]) -> (r: DecodeResult)
    requires
        mem@.len() >= 1,
    ensures
        r == (if top_two(mem@[0]) == 2 && mid_three(mem@[0]) == 5 {
            match reg_of_bits(low_three(mem@[0])) {
                Some(reg) => Some((Instruction::XOR_A_r(reg), 1u8)),
                None => None,
            }
        } else {
            None
        }),
{
    proof {
        lemma_opcode_fields(mem@[0]);
    }
    if mem[0] & (TOP_TWO | MID_THREE) != 0b10101000 {
        return None;
    }
    let r = bits_to_reg(low_bits(mem[0]))?;
    Some((Instruction::XOR_A_r(r), 1))
}

/// `CP r`: `10111`, then the register.
fn cp_r(mem: &[u8]) -> (r: DecodeResult)
    requires
        mem@.len() >= 1,
    ensures
        r == (if top_two(mem@[0]) == 2 && mid_three(mem@[0]) == 7 {
            match reg_of_bits(low_three(mem@[0])) {
                Some(reg) => Some((Instruction::CP_r(reg), 1u8)),
                None => None,
            }
        } else {
            None
        }),
{
    proof {
        lemma_opcode_fields(mem@[0]);
    }
    if mem[0] & (TOP_TWO | MID_THREE) != 0b10111000 {
        return None;
    }
    let r = bits_to_reg(low_bits(mem[0]))?;
    Some((Instruction::CP_r(r), 1))
}

/// `INC r`: `00`, the register, `100`.
fn inc_r(mem: &[u8]) -> (r: DecodeResult)
    requires
        mem@.len() >= 1,
    ensures
        r == (if top_two(mem@[0]) == 0 && low_three(mem@[0]) == 4 {
            match reg_of_bits(mid_three(mem@[0])) {
                Some(reg) => Some((Instruction::INC_r(reg), 1u8)),
                None => None,
            }
        } else {
            None
        }),
{
    proof {
        lemma_opcode_fields(mem@[0]);
    }
    if mem[0] & (TOP_TWO | LOW_THREE) != 0b00000100 {
        return None;
    }
    let r = bits_to_reg(mid_bits(mem[0]))?;
    Some((Instruction::INC_r(r), 1))
}

/// `DEC r`: `00`, the register, `101`.
fn dec_r(mem: &[u8]) -> (r: DecodeResult)
    requires
        mem@.len() >= 1,
    ensures
        r == (if top_two(mem@[0]) == 0 && low_three(mem@[0]) == 5 {
            match reg_of_bits(mid_three(mem@[0])) {
                Some(reg) => Some((Instruction::DEC_r(reg), 1u8)),
                None => None,
            }
        } else {
            None
        }),
{
    proof {
        lemma_opcode_fields(mem@[0]);
    }
    if mem[0] & (TOP_TWO | LOW_THREE) != 0b00000101 {
        return None;
    }
    let r = bits_to_reg(mid_bits(mem[0]))?;
    Some((Instruction::DEC_r(r), 1))
}

} // verus!
