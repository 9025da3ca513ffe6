//! The byte encoding of the instructions, and what ties it to the decoder.

use crate::cpu::{Condition, Register};
use crate::decode::arith8::arith8_spec;
use crate::decode::exchange::exchange_spec;
use crate::decode::jump::{jump_spec, relative};
use crate::decode::load8::load8_spec;
use crate::decode::{
    cond_of_bits, decode_spec, low_three, mid_three, reg_of_bits, signed_byte, top_two, word_le,
};
use crate::insts::{Family, Instruction};
use vstd::prelude::*;

verus! {

/// The three-bit code by which an instruction selects a register. Only
/// the seven 8-bit registers A, B, C, D, E, H and L have one.
pub open spec fn code_of_reg(r: Register) -> Option<u8> {
    match r {
        Register::A => Some(0b111u8),
        Register::B => Some(0b000u8),
        Register::C => Some(0b001u8),
        Register::D => Some(0b010u8),
        Register::E => Some(0b011u8),
        Register::H => Some(0b100u8),
        Register::L => Some(0b101u8),
        _ => None,
    }
}

/// Whether an instruction can select the register as an operand.
pub open spec fn selects(r: Register) -> bool {
    code_of_reg(r) is Some
}

/// The code of a register that an instruction can select.
pub open spec fn reg_code(r: Register) -> u8
    recommends
        selects(r),
{
    code_of_reg(r).unwrap()
}

/// The three-bit code of a jump condition.
pub open spec fn cond_code(cc: Condition) -> u8 {
    match cc {
        Condition::NZ => 0b000,
        Condition::Z => 0b001,
        Condition::NC => 0b010,
        Condition::C => 0b011,
        Condition::PO => 0b100,
        Condition::PE => 0b101,
        Condition::P => 0b110,
        Condition::M => 0b111,
    }
}

/// The two's-complement byte of a number from -128 to 127.
pub open spec fn byte_of(d: int) -> u8
    recommends
        -128 <= d <= 127,
{
    if d < 0 {
        (d + 256) as u8
    } else {
        d as u8
    }
}

/// The low byte of a 16-bit word.
pub open spec fn low_byte(nn: u16) -> u8 {
    (nn % 256) as u8
}

/// The high byte of a 16-bit word.
pub open spec fn high_byte(nn: u16) -> u8 {
    (nn / 256) as u8
}

/// Whether the instruction has an encoding: each register operand is one
/// of the seven 8-bit registers, and the displacement of a relative jump,
/// which holds the width of the instruction, is at least -126.
pub open spec fn supported(instr: Instruction) -> bool {
    match instr {
        Instruction::LD_r_r(r, r1) => selects(r) && selects(r1),
        Instruction::LD_r_n(r, _) => selects(r),
        Instruction::LD_r_HL(r) => selects(r),
        Instruction::LD_r_IX(r, _) => selects(r),
        Instruction::LD_r_IY(r, _) => selects(r),
        Instruction::LD_HL_r(r) => selects(r),
        Instruction::LD_IX_r(_, r) => selects(r),
        Instruction::LD_IY_r(_, r) => selects(r),
        Instruction::ADD_A_r(r) => selects(r),
        Instruction::ADC_A_r(r) => selects(r),
        Instruction::SUB_A_r(r) => selects(r),
        Instruction::SBC_A_r(r) => selects(r),
        Instruction::AND_A_r(r) => selects(r),
        Instruction::OR_A_r(r) => selects(r),
        Instruction::XOR_A_r(r) => selects(r),
        Instruction::CP_r(r) => selects(r),
        Instruction::INC_r(r) => selects(r),
        Instruction::DEC_r(r) => selects(r),
        Instruction::JR_e(e) => e >= -126,
        Instruction::JR_C_e(e) => e >= -126,
        Instruction::JR_NC_e(e) => e >= -126,
        Instruction::JR_Z_e(e) => e >= -126,
        Instruction::JR_NZ_e(e) => e >= -126,
        Instruction::DJNZ_e(e) => e >= -126,
        _ => true,
    }
}

/// The bytes that encode a supported instruction. Addresses stand low
/// byte first; a relative jump stores its displacement less the width of
/// the instruction.
pub open spec fn encoding(instr: Instruction) -> Seq<u8>
    recommends
        supported(instr),
{
    match instr {
        Instruction::LD_r_r(r, r1) => seq![(0x40 + 8 * reg_code(r) + reg_code(r1)) as u8],
        Instruction::LD_r_n(r, n) => seq![(0x06 + 8 * reg_code(r)) as u8, n],
        Instruction::LD_r_HL(r) => seq![(0x46 + 8 * reg_code(r)) as u8],
        Instruction::LD_r_IX(r, d) => seq![0xdd, (0x46 + 8 * reg_code(r)) as u8, byte_of(d as int)],
        Instruction::LD_r_IY(r, d) => seq![0xfd, (0x46 + 8 * reg_code(r)) as u8, byte_of(d as int)],
        Instruction::LD_HL_r(r) => seq![(0x70 + reg_code(r)) as u8],
        Instruction::LD_IX_r(d, r) => seq![0xdd, (0x70 + reg_code(r)) as u8, byte_of(d as int)],
        Instruction::LD_IY_r(d, r) => seq![0xfd, (0x70 + reg_code(r)) as u8, byte_of(d as int)],
        Instruction::LD_HL_n(n) => seq![0x36, n],
        Instruction::LD_IX_n(d, n) => seq![0xdd, 0x36, byte_of(d as int), n],
        Instruction::LD_IY_n(d, n) => seq![0xfd, 0x36, byte_of(d as int), n],
        Instruction::LD_A_BC => seq![0x0a],
        Instruction::LD_A_DE => seq![0x1a],
        Instruction::LD_A_nn(nn) => seq![0x3a, low_byte(nn), high_byte(nn)],
        Instruction::LD_BC_A => seq![0x02],
        Instruction::LD_DE_A => seq![0x12],
        Instruction::LD_nn_A(nn) => seq![0x32, low_byte(nn), high_byte(nn)],
        Instruction::LD_A_I => seq![0xed, 0x57],
        Instruction::LD_A_R => seq![0xed, 0x5f],
        Instruction::LD_I_A => seq![0xed, 0x47],
        Instruction::LD_R_A => seq![0xed, 0x4f],
        Instruction::EX_DE_HL => seq![0xeb],
        Instruction::EX_AF_AF1 => seq![0x08],
        Instruction::EXX => seq![0xd9],
        Instruction::EX_SP_HL => seq![0xe3],
        Instruction::EX_SP_IX => seq![0xdd, 0xe3],
        Instruction::EX_SP_IY => seq![0xfd, 0xe3],
        Instruction::LDI => seq![0xed, 0xa0],
        Instruction::LDIR => seq![0xed, 0xb0],
        Instruction::LDD => seq![0xed, 0xa8],
        Instruction::LDDR => seq![0xed, 0xb8],
        Instruction::CPI => seq![0xed, 0xa1],
        Instruction::CPIR => seq![0xed, 0xb1],
        Instruction::CPD => seq![0xed, 0xa9],
        Instruction::CPDR => seq![0xed, 0xb9],
        Instruction::ADD_A_r(r) => seq![(0x80 + reg_code(r)) as u8],
        Instruction::ADD_A_n(n) => seq![0xc6, n],
        Instruction::ADD_A_HL => seq![0x86],
        Instruction::ADD_A_IX(d) => seq![0xdd, 0x86, byte_of(d as int)],
        Instruction::ADD_A_IY(d) => seq![0xfd, 0x86, byte_of(d as int)],
        Instruction::ADC_A_r(r) => seq![(0x88 + reg_code(r)) as u8],
        Instruction::ADC_A_n(n) => seq![0xce, n],
        Instruction::ADC_A_HL => seq![0x8e],
        Instruction::ADC_A_IX(d) => seq![0xdd, 0x8e, byte_of(d as int)],
        Instruction::ADC_A_IY(d) => seq![0xfd, 0x8e, byte_of(d as int)],
        Instruction::SUB_A_r(r) => seq![(0x90 + reg_code(r)) as u8],
        Instruction::SUB_A_n(n) => seq![0xd6, n],
        Instruction::SUB_A_HL => seq![0x96],
        Instruction::SUB_A_IX(d) => seq![0xdd, 0x96, byte_of(d as int)],
        Instruction::SUB_A_IY(d) => seq![0xfd, 0x96, byte_of(d as int)],
        Instruction::SBC_A_r(r) => seq![(0x98 + reg_code(r)) as u8],
        Instruction::SBC_A_n(n) => seq![0xde, n],
        Instruction::SBC_A_HL => seq![0x9e],
        Instruction::SBC_A_IX(d) => seq![0xdd, 0x9e, byte_of(d as int)],
        Instruction::SBC_A_IY(d) => seq![0xfd, 0x9e, byte_of(d as int)],
        Instruction::AND_A_r(r) => seq![(0xa0 + reg_code(r)) as u8],
        Instruction::AND_A_n(n) => seq![0xe6, n],
        Instruction::AND_A_HL => seq![0xa6],
        Instruction::AND_A_IX(d) => seq![0xdd, 0xa6, byte_of(d as int)],
        Instruction::AND_A_IY(d) => seq![0xfd, 0xa6, byte_of(d as int)],
        Instruction::OR_A_r(r) => seq![(0xb0 + reg_code(r)) as u8],
        Instruction::OR_A_n(n) => seq![0xf6, n],
        Instruction::OR_A_HL => seq![0xb6],
        Instruction::OR_A_IX(d) => seq![0xdd, 0xb6, byte_of(d as int)],
        Instruction::OR_A_IY(d) => seq![0xfd, 0xb6, byte_of(d as int)],
        Instruction::XOR_A_r(r) => seq![(0xa8 + reg_code(r)) as u8],
        Instruction::XOR_A_n(n) => seq![0xee, n],
        Instruction::XOR_A_HL => seq![0xae],
        Instruction::XOR_A_IX(d) => seq![0xdd, 0xae, byte_of(d as int)],
        Instruction::XOR_A_IY(d) => seq![0xfd, 0xae, byte_of(d as int)],
        Instruction::CP_r(r) => seq![(0xb8 + reg_code(r)) as u8],
        Instruction::CP_n(n) => seq![0xfe, n],
        Instruction::CP_HL => seq![0xbe],
        Instruction::CP_IX(d) => seq![0xdd, 0xbe, byte_of(d as int)],
        Instruction::CP_IY(d) => seq![0xfd, 0xbe, byte_of(d as int)],
        Instruction::INC_r(r) => seq![(0x04 + 8 * reg_code(r)) as u8],
        Instruction::INC_HL => seq![0x34],
        Instruction::INC_IX(d) => seq![0xdd, 0x34, byte_of(d as int)],
        Instruction::INC_IY(d) => seq![0xfd, 0x34, byte_of(d as int)],
        Instruction::DEC_r(r) => seq![(0x05 + 8 * reg_code(r)) as u8],
        Instruction::DEC_HL => seq![0x35],
        Instruction::DEC_IX(d) => seq![0xdd, 0x35, byte_of(d as int)],
        Instruction::DEC_IY(d) => seq![0xfd, 0x35, byte_of(d as int)],
        Instruction::JP_nn(nn) => seq![0xc3, low_byte(nn), high_byte(nn)],
        Instruction::JP_cc_nn(cc, nn) => seq![
            (0xc2 + 8 * cond_code(cc)) as u8,
            low_byte(nn),
            high_byte(nn),
        ],
        Instruction::JR_e(e) => seq![0x18, byte_of(e - 2)],
        Instruction::JR_C_e(e) => seq![0x38, byte_of(e - 2)],
        Instruction::JR_NC_e(e) => seq![0x30, byte_of(e - 2)],
        Instruction::JR_Z_e(e) => seq![0x28, byte_of(e - 2)],
        Instruction::JR_NZ_e(e) => seq![0x20, byte_of(e - 2)],
        Instruction::JP_HL => seq![0xe9],
        Instruction::JP_IX => seq![0xdd, 0xe9],
        Instruction::JP_IY => seq![0xfd, 0xe9],
        Instruction::DJNZ_e(e) => seq![0x10, byte_of(e - 2)],
    }
}

/// The three fields of the opcode put together from them.
pub proof fn lemma_fields(x: u8, y: u8, z: u8)
    requires
        x < 4,
        y < 8,
        z < 8,
    ensures
        top_two((64 * x + 8 * y + z) as u8) == x,
        mid_three((64 * x + 8 * y + z) as u8) == y,
        low_three((64 * x + 8 * y + z) as u8) == z,
{
}

/// Every opcode is put together from its three fields.
pub proof fn lemma_opcode(op: u8)
    ensures
        op == 64 * top_two(op) + 8 * mid_three(op) + low_three(op),
        top_two(op) < 4,
        mid_three(op) < 8,
        low_three(op) < 8,
{
}

/// The register codes and the register table are inverse to each other.
pub proof fn lemma_reg_codes(r: Register, bits: u8)
    ensures
        selects(r) ==> reg_code(r) < 8 && reg_code(r) != 6 && reg_of_bits(reg_code(r)) == Some(r),
        reg_of_bits(bits) is Some ==> selects(reg_of_bits(bits).unwrap()) && reg_code(
            reg_of_bits(bits).unwrap(),
        ) == bits,
        reg_of_bits(bits) is None <==> bits == 6 || bits >= 8,
{
}

/// The condition codes and the condition table are inverse to each other.
pub proof fn lemma_cond_codes(cc: Condition, bits: u8)
    ensures
        cond_code(cc) < 8,
        cond_of_bits(cond_code(cc)) == Some(cc),
        bits < 8 ==> cond_of_bits(bits) is Some && cond_code(cond_of_bits(bits).unwrap()) == bits,
{
}

/// Displacements and addresses survive the way to bytes and back.
pub proof fn lemma_operands(d: i8, b: u8, nn: u16, lo: u8, hi: u8)
    ensures
        signed_byte(byte_of(d as int)) == d,
        byte_of(signed_byte(b) as int) == b,
        d >= -126 ==> relative(byte_of(d - 2)) == Some(d),
        relative(b) is Some ==> relative(b).unwrap() >= -126 && byte_of(relative(b).unwrap() - 2)
            == b,
        word_le(low_byte(nn), high_byte(nn)) == nn,
        low_byte(word_le(lo, hi)) == lo,
        high_byte(word_le(lo, hi)) == hi,
{
}

/// Whether `mem` begins with the encoding of the instruction.
pub open spec fn begins_with(mem: Seq<u8>, instr: Instruction) -> bool {
    &&& encoding(instr).len() <= mem.len()
    &&& forall|i: int| 0 <= i < encoding(instr).len() ==> mem[i] == #[trigger] encoding(instr)[i]
}

/// The load decoder gives back a load from its encoding, and no other
/// family matches those bytes.
proof fn lemma_load_round_trip(instr: Instruction, mem: Seq<u8>)
    requires
        supported(instr),
        instr.family() is Load,
        begins_with(mem, instr),
    ensures
        load8_spec(mem) == Some((instr, encoding(instr).len() as u8)),
        exchange_spec(mem) is None,
        jump_spec(mem) is None,
        arith8_spec(mem) is None,
{
    let e = encoding(instr);
    assert(mem[0] == e[0]);
    if e.len() > 1 {
        assert(mem[1] == e[1]);
    }
    if e.len() > 2 {
        assert(mem[2] == e[2]);
    }
    if e.len() > 3 {
        assert(mem[3] == e[3]);
    }
    match instr {
        Instruction::LD_r_r(r, r1) => {
            lemma_reg_codes(r, 0);
            lemma_reg_codes(r1, 0);
            lemma_fields(1, reg_code(r), reg_code(r1));
        },
        Instruction::LD_r_n(r, n) => {
            lemma_reg_codes(r, 0);
            lemma_fields(0, reg_code(r), 6);
        },
        Instruction::LD_r_HL(r) => {
            lemma_reg_codes(r, 0);
            lemma_reg_codes(r, 6);
            lemma_fields(1, reg_code(r), 6);
        },
        Instruction::LD_r_IX(r, d) | Instruction::LD_r_IY(r, d) => {
            lemma_reg_codes(r, 0);
            lemma_reg_codes(r, 6);
            lemma_fields(1, reg_code(r), 6);
            lemma_operands(d, 0, 0, 0, 0);
        },
        Instruction::LD_HL_r(r) => {
            lemma_reg_codes(r, 0);
            lemma_reg_codes(r, 6);
            lemma_fields(1, 6, reg_code(r));
        },
        Instruction::LD_IX_r(d, r) | Instruction::LD_IY_r(d, r) => {
            lemma_reg_codes(r, 0);
            lemma_reg_codes(r, 6);
            lemma_fields(1, 6, reg_code(r));
            lemma_operands(d, 0, 0, 0, 0);
        },
        Instruction::LD_HL_n(n) => {
            lemma_reg_codes(Register::A, 6);
            lemma_fields(0, 6, 6);
        },
        Instruction::LD_IX_n(d, n) | Instruction::LD_IY_n(d, n) => {
            lemma_operands(d, 0, 0, 0, 0);
        },
        Instruction::LD_A_nn(nn) | Instruction::LD_nn_A(nn) => {
            lemma_operands(0, 0, nn, 0, 0);
            lemma_opcode(mem[0]);
        },
        _ => {
            lemma_opcode(mem[0]);
        },
    }
}

/// The exchange decoder gives back an exchange, a block transfer or a
/// block search from its encoding, and no other family matches those bytes.
proof fn lemma_exchange_round_trip(instr: Instruction, mem: Seq<u8>)
    requires
        supported(instr),
        instr.family() is Exchange,
        begins_with(mem, instr),
    ensures
        load8_spec(mem) is None,
        exchange_spec(mem) == Some((instr, encoding(instr).len() as u8)),
        jump_spec(mem) is None,
        arith8_spec(mem) is None,
{
    let e = encoding(instr);
    assert(mem[0] == e[0]);
    if e.len() > 1 {
        assert(mem[1] == e[1]);
    }
    if e.len() > 2 {
        assert(mem[2] == e[2]);
    }
    if e.len() > 3 {
        assert(mem[3] == e[3]);
    }
    lemma_opcode(mem[0]);
    if e.len() > 1 {
        lemma_opcode(mem[1]);
    }
}

/// The jump decoder gives back a jump from its encoding, and no other
/// family matches those bytes.
proof fn lemma_jump_round_trip(instr: Instruction, mem: Seq<u8>)
    requires
        supported(instr),
        instr.family() is Jump,
        begins_with(mem, instr),
    ensures
        load8_spec(mem) is None,
        exchange_spec(mem) is None,
        jump_spec(mem) == Some((instr, encoding(instr).len() as u8)),
        arith8_spec(mem) is None,
{
    let e = encoding(instr);
    assert(mem[0] == e[0]);
    if e.len() > 1 {
        assert(mem[1] == e[1]);
    }
    if e.len() > 2 {
        assert(mem[2] == e[2]);
    }
    if e.len() > 3 {
        assert(mem[3] == e[3]);
    }
    lemma_opcode(mem[0]);
    if e.len() > 1 {
        lemma_opcode(mem[1]);
    }
    match instr {
        Instruction::JP_nn(nn) => {
            lemma_operands(0, 0, nn, 0, 0);
        },
        Instruction::JP_cc_nn(cc, nn) => {
            lemma_operands(0, 0, nn, 0, 0);
            lemma_cond_codes(cc, 0);
            lemma_fields(3, cond_code(cc), 2);
        },
        Instruction::JR_e(d)
        | Instruction::JR_C_e(d)
        | Instruction::JR_NC_e(d)
        | Instruction::JR_Z_e(d)
        | Instruction::JR_NZ_e(d)
        | Instruction::DJNZ_e(d) => {
            lemma_operands(d, 0, 0, 0, 0);
        },
        _ => {},
    }
}

/// Whether the instruction is one of the eight operations on the
/// accumulator with a register as its operand.
pub open spec fn is_alu_r(instr: Instruction) -> bool {
    match instr {
        Instruction::ADD_A_r(_)
        | Instruction::ADC_A_r(_)
        | Instruction::SUB_A_r(_)
        | Instruction::SBC_A_r(_)
        | Instruction::AND_A_r(_)
        | Instruction::XOR_A_r(_)
        | Instruction::OR_A_r(_)
        | Instruction::CP_r(_) => true,
        _ => false,
    }
}

/// The arithmetic decoder gives back an operation on the accumulator and
/// a register from its encoding, and no other family matches that byte.
proof fn lemma_arith_alu_r(instr: Instruction, mem: Seq<u8>)
    requires
        supported(instr),
        is_alu_r(instr),
        begins_with(mem, instr),
    ensures
        load8_spec(mem) is None,
        exchange_spec(mem) is None,
        jump_spec(mem) is None,
        arith8_spec(mem) == Some((instr, 1u8)),
{
    assert(mem[0] == encoding(instr)[0]);
    match instr {
        Instruction::ADD_A_r(r) => {
            lemma_reg_codes(r, 0);
            lemma_fields(2, 0, reg_code(r));
        },
        Instruction::ADC_A_r(r) => {
            lemma_reg_codes(r, 0);
            lemma_fields(2, 1, reg_code(r));
        },
        Instruction::SUB_A_r(r) => {
            lemma_reg_codes(r, 0);
            lemma_fields(2, 2, reg_code(r));
        },
        Instruction::SBC_A_r(r) => {
            lemma_reg_codes(r, 0);
            lemma_fields(2, 3, reg_code(r));
        },
        Instruction::AND_A_r(r) => {
            lemma_reg_codes(r, 0);
            lemma_fields(2, 4, reg_code(r));
        },
        Instruction::XOR_A_r(r) => {
            lemma_reg_codes(r, 0);
            lemma_fields(2, 5, reg_code(r));
        },
        Instruction::OR_A_r(r) => {
            lemma_reg_codes(r, 0);
            lemma_fields(2, 6, reg_code(r));
        },
        Instruction::CP_r(r) => {
            lemma_reg_codes(r, 0);
            lemma_fields(2, 7, reg_code(r));
        },
        _ => {},
    }
}

/// The arithmetic decoder gives back an increment or a decrement of a
/// register from its encoding, and no other family matches that byte.
proof fn lemma_arith_step_r(instr: Instruction, mem: Seq<u8>)
    requires
        supported(instr),
        instr is INC_r || instr is DEC_r,
        begins_with(mem, instr),
    ensures
        load8_spec(mem) is None,
        exchange_spec(mem) is None,
        jump_spec(mem) is None,
        arith8_spec(mem) == Some((instr, 1u8)),
{
    assert(mem[0] == encoding(instr)[0]);
    match instr {
        Instruction::INC_r(r) => {
            lemma_reg_codes(r, 0);
            lemma_fields(0, reg_code(r), 4);
        },
        Instruction::DEC_r(r) => {
            lemma_reg_codes(r, 0);
            lemma_fields(0, reg_code(r), 5);
        },
        _ => {},
    }
}

/// The arithmetic decoder gives back a one-byte arithmetic instruction
/// on the byte at HL from its encoding, and no other family matches that
/// byte.
proof fn lemma_arith_at_hl(instr: Instruction, mem: Seq<u8>)
    requires
        instr.family() is Arith8,
        encoding(instr).len() == 1,
        !is_alu_r(instr),
        !(instr is INC_r || instr is DEC_r),
        begins_with(mem, instr),
    ensures
        load8_spec(mem) is None,
        exchange_spec(mem) is None,
        jump_spec(mem) is None,
        arith8_spec(mem) == Some((instr, 1u8)),
{
    assert(mem[0] == encoding(instr)[0]);
    lemma_opcode(mem[0]);
    lemma_reg_codes(Register::A, 6);
}

/// The arithmetic decoder gives back a one-byte arithmetic instruction from
/// its encoding, and no other family matches that byte.
proof fn lemma_arith_single(instr: Instruction, mem: Seq<u8>)
    requires
        supported(instr),
        instr.family() is Arith8,
        encoding(instr).len() == 1,
        begins_with(mem, instr),
    ensures
        load8_spec(mem) is None,
        exchange_spec(mem) is None,
        jump_spec(mem) is None,
        arith8_spec(mem) == Some((instr, 1u8)),
{
    if is_alu_r(instr) {
        lemma_arith_alu_r(instr, mem);
    } else if instr is INC_r || instr is DEC_r {
        lemma_arith_step_r(instr, mem);
    } else {
        lemma_arith_at_hl(instr, mem);
    }
}

/// The arithmetic decoder gives back an arithmetic instruction with an
/// immediate operand from its encoding, and no other family matches those
/// bytes.
proof fn lemma_arith_immediate(instr: Instruction, mem: Seq<u8>)
    requires
        supported(instr),
        instr.family() is Arith8,
        encoding(instr).len() == 2,
        begins_with(mem, instr),
    ensures
        load8_spec(mem) is None,
        exchange_spec(mem) is None,
        jump_spec(mem) is None,
        arith8_spec(mem) == Some((instr, encoding(instr).len() as u8)),
{
    assert(mem[0] == encoding(instr)[0]);
    assert(mem[1] == encoding(instr)[1]);
    lemma_opcode(mem[0]);
}

/// The arithmetic decoder gives back an arithmetic instruction with an
/// indexed operand from its encoding, and no other family matches those
/// bytes.
proof fn lemma_arith_indexed(instr: Instruction, mem: Seq<u8>)
    requires
        supported(instr),
        instr.family() is Arith8,
        encoding(instr).len() == 3,
        begins_with(mem, instr),
    ensures
        load8_spec(mem) is None,
        exchange_spec(mem) is None,
        jump_spec(mem) is None,
        arith8_spec(mem) == Some((instr, encoding(instr).len() as u8)),
{
    assert(mem[0] == encoding(instr)[0]);
    assert(mem[1] == encoding(instr)[1]);
    assert(mem[2] == encoding(instr)[2]);
    lemma_opcode(mem[1]);
    lemma_operands(signed_byte(mem[2]), mem[2], 0, 0, 0);
}

/// The arithmetic decoder gives back an arithmetic instruction from its
/// encoding, and no other family matches those bytes.
proof fn lemma_arith_round_trip(instr: Instruction, mem: Seq<u8>)
    requires
        supported(instr),
        instr.family() is Arith8,
        begins_with(mem, instr),
    ensures
        load8_spec(mem) is None,
        exchange_spec(mem) is None,
        jump_spec(mem) is None,
        arith8_spec(mem) == Some((instr, encoding(instr).len() as u8)),
{
    if encoding(instr).len() == 1 {
        lemma_arith_single(instr, mem);
    } else if encoding(instr).len() == 2 {
        lemma_arith_immediate(instr, mem);
    } else {
        lemma_arith_indexed(instr, mem);
    }
}

/// Decoding bytes that begin with the encoding of a supported instruction
/// gives that instruction, with the length of its encoding as its width;
/// exactly one family of the decoder matches them.
pub proof fn law_decode_begins(instr: Instruction, mem: Seq<u8>)
    requires
        supported(instr),
        begins_with(mem, instr),
    ensures
        decode_spec(mem) == Some((instr, encoding(instr).len() as u8)),
        load8_spec(mem) is Some <==> instr.family() is Load,
        exchange_spec(mem) is Some <==> instr.family() is Exchange,
        jump_spec(mem) is Some <==> instr.family() is Jump,
        arith8_spec(mem) is Some <==> instr.family() is Arith8,
{
    reveal(decode_spec);
    match instr.family() {
        Family::Load => lemma_load_round_trip(instr, mem),
        Family::Exchange => lemma_exchange_round_trip(instr, mem),
        Family::Jump => lemma_jump_round_trip(instr, mem),
        Family::Arith8 => lemma_arith_round_trip(instr, mem),
    }
}

/// Decoding the encoding of a supported instruction, whatever bytes follow
/// it, gives the instruction back, with the length of the encoding as its
/// width.
pub proof fn law_decode_encoding(instr: Instruction, rest: Seq<u8>)
    requires
        supported(instr),
    ensures
        decode_spec(encoding(instr) + rest) == Some((instr, encoding(instr).len() as u8)),
{
    law_decode_begins(instr, encoding(instr) + rest);
}

/// What the load decoder gives is a supported instruction of its family
/// whose encoding begins the bytes.
proof fn lemma_load_sound(mem: Seq<u8>)
    ensures
        load8_spec(mem) matches Some((instr, width)) ==> {
            &&& supported(instr)
            &&& instr.family() is Load
            &&& begins_with(mem, instr)
            &&& width == encoding(instr).len()
        },
{
    if mem.len() > 0 {
        lemma_opcode(mem[0]);
        lemma_reg_codes(Register::A, mid_three(mem[0]));
        lemma_reg_codes(Register::A, low_three(mem[0]));
        lemma_cond_codes(Condition::Z, mid_three(mem[0]));
    }
    if mem.len() > 1 {
        lemma_opcode(mem[1]);
        lemma_reg_codes(Register::A, mid_three(mem[1]));
        lemma_reg_codes(Register::A, low_three(mem[1]));
        lemma_operands(0, mem[1], 0, 0, 0);
    }
    if mem.len() > 2 {
        lemma_operands(0, mem[2], 0, mem[1], mem[2]);
    }
}

/// What the exchange decoder gives is a supported instruction of its family
/// whose encoding begins the bytes.
proof fn lemma_exchange_sound(mem: Seq<u8>)
    ensures
        exchange_spec(mem) matches Some((instr, width)) ==> {
            &&& supported(instr)
            &&& instr.family() is Exchange
            &&& begins_with(mem, instr)
            &&& width == encoding(instr).len()
        },
{
    if mem.len() > 0 {
        lemma_opcode(mem[0]);
        lemma_reg_codes(Register::A, mid_three(mem[0]));
        lemma_reg_codes(Register::A, low_three(mem[0]));
        lemma_cond_codes(Condition::Z, mid_three(mem[0]));
    }
    if mem.len() > 1 {
        lemma_opcode(mem[1]);
        lemma_reg_codes(Register::A, mid_three(mem[1]));
        lemma_reg_codes(Register::A, low_three(mem[1]));
        lemma_operands(0, mem[1], 0, 0, 0);
    }
    if mem.len() > 2 {
        lemma_operands(0, mem[2], 0, mem[1], mem[2]);
    }
}

/// What the jump decoder gives is a supported instruction of its family
/// whose encoding begins the bytes.
proof fn lemma_jump_sound(mem: Seq<u8>)
    ensures
        jump_spec(mem) matches Some((instr, width)) ==> {
            &&& supported(instr)
            &&& instr.family() is Jump
            &&& begins_with(mem, instr)
            &&& width == encoding(instr).len()
        },
{
    if mem.len() > 0 {
        lemma_opcode(mem[0]);
        lemma_reg_codes(Register::A, mid_three(mem[0]));
        lemma_reg_codes(Register::A, low_three(mem[0]));
        lemma_cond_codes(Condition::Z, mid_three(mem[0]));
    }
    if mem.len() > 1 {
        lemma_opcode(mem[1]);
        lemma_reg_codes(Register::A, mid_three(mem[1]));
        lemma_reg_codes(Register::A, low_three(mem[1]));
        lemma_operands(0, mem[1], 0, 0, 0);
    }
    if mem.len() > 2 {
        lemma_operands(0, mem[2], 0, mem[1], mem[2]);
    }
}

/// What the arithmetic decoder gives is a supported instruction of its family
/// whose encoding begins the bytes.
proof fn lemma_arith_sound(mem: Seq<u8>)
    ensures
        arith8_spec(mem) matches Some((instr, width)) ==> {
            &&& supported(instr)
            &&& instr.family() is Arith8
            &&& begins_with(mem, instr)
            &&& width == encoding(instr).len()
        },
{
    if mem.len() > 0 {
        lemma_opcode(mem[0]);
        lemma_reg_codes(Register::A, mid_three(mem[0]));
        lemma_reg_codes(Register::A, low_three(mem[0]));
        lemma_cond_codes(Condition::Z, mid_three(mem[0]));
    }
    if mem.len() > 1 {
        lemma_opcode(mem[1]);
        lemma_reg_codes(Register::A, mid_three(mem[1]));
        lemma_reg_codes(Register::A, low_three(mem[1]));
        lemma_operands(0, mem[1], 0, 0, 0);
    }
    if mem.len() > 2 {
        lemma_operands(0, mem[2], 0, mem[1], mem[2]);
    }
}

/// What the decoder gives is a supported instruction whose encoding begins
/// the bytes, and the width is the length of that encoding: between one
/// and four bytes, none of them beyond the end of `mem`.
pub proof fn law_decode_sound(mem: Seq<u8>)
    ensures
        decode_spec(mem) matches Some((instr, width)) ==> supported(instr) && begins_with(
            mem,
            instr,
        ) && width == encoding(instr).len() && 1 <= width <= 4 && width <= mem.len(),
{
    reveal(decode_spec);
    lemma_load_sound(mem);
    lemma_exchange_sound(mem);
    lemma_jump_sound(mem);
    lemma_arith_sound(mem);
}

/// Where the decoder gives nothing, the bytes begin with the encoding of
/// no supported instruction.
pub proof fn law_decode_none(mem: Seq<u8>, instr: Instruction)
    requires
        decode_spec(mem) is None,
        supported(instr),
    ensures
        !begins_with(mem, instr),
{
    if begins_with(mem, instr) {
        law_decode_begins(instr, mem);
    }
}

/// No bytes begin with the encodings of two different supported
/// instructions.
pub proof fn law_encoding_unique(mem: Seq<u8>, first: Instruction, second: Instruction)
    requires
        supported(first),
        supported(second),
        begins_with(mem, first),
        begins_with(mem, second),
    ensures
        first == second,
{
    law_decode_begins(first, mem);
    law_decode_begins(second, mem);
}

/// At most one family of the decoder matches any bytes, so the order in
/// which the families are tried decides nothing.
pub proof fn law_one_family(mem: Seq<u8>)
    ensures
        load8_spec(mem) is Some ==> exchange_spec(mem) is None && jump_spec(mem) is None
            && arith8_spec(mem) is None,
        exchange_spec(mem) is Some ==> jump_spec(mem) is None && arith8_spec(mem) is None,
        jump_spec(mem) is Some ==> arith8_spec(mem) is None,
{
    lemma_load_sound(mem);
    lemma_exchange_sound(mem);
    lemma_jump_sound(mem);
    lemma_arith_sound(mem);
    if load8_spec(mem) is Some {
        law_decode_begins(load8_spec(mem).unwrap().0, mem);
    }
    if exchange_spec(mem) is Some {
        law_decode_begins(exchange_spec(mem).unwrap().0, mem);
    }
    if jump_spec(mem) is Some {
        law_decode_begins(jump_spec(mem).unwrap().0, mem);
    }
}

} // verus!
