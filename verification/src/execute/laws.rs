//! What holds of every execution.

use crate::cpu::{
    law_set_flag_then_flag, lemma_halves, reg_byte, wrap8, Flag, Register, Z80,
};
use crate::encoding::{selects, supported};
use crate::execute::arith8::{with_dec_flags, with_inc_flags};
use crate::execute::exchange::law_exchange_twice;
use crate::execute::addressed;
use crate::insts::Instruction;
use vstd::prelude::*;

verus! {

/// Where the memory spans the whole address space, every instruction can
/// be executed and every turn of the cycle can be made.
pub proof fn law_full_memory(cpu: Z80, instr: Instruction, mem: Seq<u8>)
    requires
        mem.len() >= 0x1_0000,
    ensures
        cpu.can_execute(instr, mem.len()),
        cpu.can_step(mem),
{
}

/// No instruction changes the size of the memory.
pub proof fn law_memory_keeps_its_length(cpu: Z80, instr: Instruction, mem: Seq<u8>)
    requires
        cpu.can_execute(instr, mem.len()),
    ensures
        cpu.memory_after(instr, mem).len() == mem.len(),
{
    reveal(Z80::memory_after);
}

/// Executed twice, each of the three unconditional exchanges restores
/// every register, and none of them touches memory.
pub proof fn law_exchange_undoes_itself(cpu: Z80, mem: Seq<u8>)
    ensures
        cpu.after(Instruction::EX_DE_HL, mem).after(Instruction::EX_DE_HL, mem) == cpu,
        cpu.after(Instruction::EX_AF_AF1, mem).after(Instruction::EX_AF_AF1, mem) == cpu,
        cpu.after(Instruction::EXX, mem).after(Instruction::EXX, mem) == cpu,
        cpu.memory_after(Instruction::EX_DE_HL, mem) == mem,
        cpu.memory_after(Instruction::EX_AF_AF1, mem) == mem,
        cpu.memory_after(Instruction::EXX, mem) == mem,
{
    reveal(Z80::after);
    reveal(Z80::memory_after);
    law_exchange_twice(cpu);
}

/// Setting a register that an instruction can select leaves the flag byte
/// as it was.
proof fn lemma_reg_keeps_flags(cpu: Z80, r: Register, val: u16)
    requires
        selects(r),
    ensures
        cpu.with_reg(r, val).flags() == cpu.flags(),
{
    lemma_halves(cpu.af, (val % 256) as u8);
}

/// A load changes no flag, but for the two loads of the accumulator from
/// the interrupt vector and from the refresh register.
pub proof fn law_load_keeps_flags(cpu: Z80, instr: Instruction, mem: Seq<u8>)
    requires
        supported(instr),
        instr.family() is Load,
        !(instr is LD_A_I),
        !(instr is LD_A_R),
    ensures
        cpu.after(instr, mem).flags() == cpu.flags(),
{
    reveal(Z80::after);
    match instr {
        Instruction::LD_r_r(r, r1) => lemma_reg_keeps_flags(cpu, r, cpu.reg_spec(r1)),
        Instruction::LD_r_n(r, n) => lemma_reg_keeps_flags(cpu, r, n as u16),
        Instruction::LD_r_HL(r) | Instruction::LD_r_IX(r, _) | Instruction::LD_r_IY(r, _) => {
            assert forall|val: u16| cpu.with_reg(r, val).flags() == cpu.flags() by {
                lemma_reg_keeps_flags(cpu, r, val);
            }
        },
        Instruction::LD_A_BC | Instruction::LD_A_DE | Instruction::LD_A_nn(_) => {
            assert forall|val: u16| cpu.with_reg(Register::A, val).flags() == cpu.flags() by {
                lemma_reg_keeps_flags(cpu, Register::A, val);
            }
        },
        _ => {},
    }
}

/// Setting the flags of an increment or of a decrement leaves the carry
/// flag as it was.
proof fn lemma_step_flags_keep_carry(cpu: Z80, operand: u8)
    ensures
        with_inc_flags(cpu, operand).flag_spec(Flag::C) == cpu.flag_spec(Flag::C),
        with_dec_flags(cpu, operand).flag_spec(Flag::C) == cpu.flag_spec(Flag::C),
{
    assert forall|c: Z80, f: Flag, val: bool| f != Flag::C implies #[trigger] c.with_flag(
        f,
        val,
    ).flag_spec(Flag::C) == c.flag_spec(Flag::C) by {
        law_set_flag_then_flag(c, f, val);
    }
}

/// Neither an increment nor a decrement touches the carry flag.
pub proof fn law_inc_dec_keep_carry(cpu: Z80, instr: Instruction, mem: Seq<u8>)
    requires
        supported(instr),
        instr is INC_r || instr is INC_HL || instr is INC_IX || instr is INC_IY || instr is DEC_r
            || instr is DEC_HL || instr is DEC_IX || instr is DEC_IY,
    ensures
        cpu.after(instr, mem).flag_spec(Flag::C) == cpu.flag_spec(Flag::C),
{
    reveal(Z80::after);
    match instr {
        Instruction::INC_r(r) => {
            let set = cpu.with_reg(r, wrap8(reg_byte(cpu, r) + 1) as u16);
            lemma_step_flags_keep_carry(set, reg_byte(cpu, r));
            lemma_reg_keeps_flags(cpu, r, wrap8(reg_byte(cpu, r) + 1) as u16);
            lemma_flags_decide(set, cpu, Flag::C);
        },
        Instruction::DEC_r(r) => {
            let set = cpu.with_reg(r, wrap8(reg_byte(cpu, r) - 1) as u16);
            lemma_step_flags_keep_carry(set, reg_byte(cpu, r));
            lemma_reg_keeps_flags(cpu, r, wrap8(reg_byte(cpu, r) - 1) as u16);
            lemma_flags_decide(set, cpu, Flag::C);
        },
        _ => {
            lemma_step_flags_keep_carry(cpu, addressed(cpu, instr, mem));
        },
    }
}

/// Two register files with the same flag byte agree in every flag.
proof fn lemma_flags_decide(first: Z80, second: Z80, f: Flag)
    requires
        first.flags() == second.flags(),
    ensures
        first.flag_spec(f) == second.flag_spec(f),
{
    reveal(crate::cpu::bit_at);
    let (x, y) = (first.af, second.af);
    assert(x % 256 == y % 256);
    let w = f.weight();
    assert((x as int / w) % 2 == ((x % 256) as int / w) % 2) by {
        lemma_low_bit(x, w);
    }
    assert((y as int / w) % 2 == ((y % 256) as int / w) % 2) by {
        lemma_low_bit(y, w);
    }
}

/// A bit of the low byte of a word is a bit of the word.
proof fn lemma_low_bit(x: u16, w: int)
    requires
        w == 1 || w == 2 || w == 4 || w == 16 || w == 64 || w == 128,
    ensures
        (x as int / w) % 2 == ((x % 256) as int / w) % 2,
{
}

} // verus!
