//! The instruction executor: what each instruction does to the registers
//! and to memory, and how long it takes at least.

pub mod arith8;
pub mod exchange;
pub mod jump;
pub mod laws;
pub mod load8;

use crate::cpu::{indexed, reg_byte, wrap16, wrap8, Flag, Register, Z80};
use crate::insts::Instruction;
use arith8::{add_spec, cp_spec, logic_spec, sub_spec, with_dec_flags, with_inc_flags};
use exchange::{
    block_move, block_search, ex_af_af1, ex_de_hl, exx, rewound, stack_exchanged, stack_top,
};
use jump::{condition_holds, djnz_spec, jumped_by, jumped_to};
use load8::special_load_spec;
use vstd::pervasive::unreached;
use vstd::prelude::*;

verus! {

/// The least time between two instructions, in nanoseconds: the period of
/// the clock that paces the run.
pub const CLOCK_SPEED_NANOS: u64 = 1_000_000_000 / 4_000;

/// The least time that an instruction takes, in nanoseconds. A repeating
/// block instruction takes longer while BC, as the instruction finds it,
/// is not zero.
pub open spec fn min_duration(instr: Instruction, bc: u16) -> u64 {
    match instr {
        Instruction::LD_r_r(..)
        | Instruction::EX_DE_HL
        | Instruction::EX_AF_AF1
        | Instruction::EXX
        | Instruction::ADD_A_r(..)
        | Instruction::ADC_A_r(..)
        | Instruction::SUB_A_r(..)
        | Instruction::SBC_A_r(..)
        | Instruction::AND_A_r(..)
        | Instruction::OR_A_r(..)
        | Instruction::XOR_A_r(..)
        | Instruction::CP_r(..)
        | Instruction::INC_r(..)
        | Instruction::DEC_r(..)
        | Instruction::JP_HL
        | Instruction::JP_IX
        | Instruction::JP_IY => 1000,
        Instruction::LD_r_n(..)
        | Instruction::LD_r_HL(..)
        | Instruction::LD_HL_r(..)
        | Instruction::LD_A_BC
        | Instruction::LD_A_DE
        | Instruction::LD_BC_A
        | Instruction::LD_DE_A
        | Instruction::ADD_A_n(..)
        | Instruction::ADD_A_HL
        | Instruction::ADC_A_n(..)
        | Instruction::ADC_A_HL
        | Instruction::SUB_A_n(..)
        | Instruction::SUB_A_HL
        | Instruction::SBC_A_n(..)
        | Instruction::SBC_A_HL
        | Instruction::AND_A_n(..)
        | Instruction::AND_A_HL
        | Instruction::OR_A_n(..)
        | Instruction::OR_A_HL
        | Instruction::XOR_A_n(..)
        | Instruction::XOR_A_HL
        | Instruction::CP_n(..)
        | Instruction::CP_HL => 1750,
        Instruction::LD_A_I
        | Instruction::LD_A_R
        | Instruction::LD_I_A
        | Instruction::LD_R_A => 2250,
        Instruction::LD_HL_n(..)
        | Instruction::LD_IY_n(..)
        | Instruction::JP_nn(..)
        | Instruction::JP_cc_nn(..) => 2500,
        Instruction::INC_HL
        | Instruction::DEC_HL => 2750,
        Instruction::JR_e(..)
        | Instruction::JR_C_e(..)
        | Instruction::JR_NC_e(..)
        | Instruction::JR_Z_e(..)
        | Instruction::JR_NZ_e(..) => 3000,
        Instruction::LD_A_nn(..)
        | Instruction::LD_nn_A(..)
        | Instruction::DJNZ_e(..) => 3250,
        Instruction::LDI
        | Instruction::LDD
        | Instruction::CPI
        | Instruction::CPD => 4000,
        Instruction::LD_r_IX(..)
        | Instruction::LD_r_IY(..)
        | Instruction::LD_IX_r(..)
        | Instruction::LD_IY_r(..)
        | Instruction::LD_IX_n(..)
        | Instruction::EX_SP_HL
        | Instruction::ADD_A_IX(..)
        | Instruction::ADD_A_IY(..)
        | Instruction::ADC_A_IX(..)
        | Instruction::ADC_A_IY(..)
        | Instruction::SUB_A_IX(..)
        | Instruction::SUB_A_IY(..)
        | Instruction::SBC_A_IX(..)
        | Instruction::SBC_A_IY(..)
        | Instruction::AND_A_IX(..)
        | Instruction::AND_A_IY(..)
        | Instruction::OR_A_IX(..)
        | Instruction::OR_A_IY(..)
        | Instruction::XOR_A_IX(..)
        | Instruction::XOR_A_IY(..)
        | Instruction::CP_IX(..)
        | Instruction::CP_IY(..) => 4750,
        Instruction::EX_SP_IX
        | Instruction::EX_SP_IY
        | Instruction::INC_IX(..)
        | Instruction::INC_IY(..)
        | Instruction::DEC_IX(..)
        | Instruction::DEC_IY(..) => 5750,
        Instruction::LDIR
        | Instruction::LDDR
        | Instruction::CPIR
        | Instruction::CPDR => if bc != 0 {
            5250
        } else {
            4000
        },
    }
}

/// The address of the byte of memory that an instruction reads or
/// writes, if it addresses memory: of the first such byte, where there are
/// two.
pub open spec fn first_address(cpu: Z80, instr: Instruction) -> Option<u16> {
    match instr {
        Instruction::LD_r_HL(_)
        | Instruction::LD_HL_r(_)
        | Instruction::LD_HL_n(_)
        | Instruction::LDI
        | Instruction::LDIR
        | Instruction::LDD
        | Instruction::LDDR
        | Instruction::CPI
        | Instruction::CPIR
        | Instruction::CPD
        | Instruction::CPDR
        | Instruction::ADD_A_HL
        | Instruction::ADC_A_HL
        | Instruction::SUB_A_HL
        | Instruction::SBC_A_HL
        | Instruction::AND_A_HL
        | Instruction::OR_A_HL
        | Instruction::XOR_A_HL
        | Instruction::CP_HL
        | Instruction::INC_HL
        | Instruction::DEC_HL => Some(cpu.hl),
        Instruction::LD_r_IX(_, d)
        | Instruction::LD_IX_r(d, _)
        | Instruction::LD_IX_n(d, _)
        | Instruction::ADD_A_IX(d)
        | Instruction::ADC_A_IX(d)
        | Instruction::SUB_A_IX(d)
        | Instruction::SBC_A_IX(d)
        | Instruction::AND_A_IX(d)
        | Instruction::OR_A_IX(d)
        | Instruction::XOR_A_IX(d)
        | Instruction::CP_IX(d)
        | Instruction::INC_IX(d)
        | Instruction::DEC_IX(d) => Some(indexed(cpu.index_x, d)),
        Instruction::LD_r_IY(_, d)
        | Instruction::LD_IY_r(d, _)
        | Instruction::LD_IY_n(d, _)
        | Instruction::ADD_A_IY(d)
        | Instruction::ADC_A_IY(d)
        | Instruction::SUB_A_IY(d)
        | Instruction::SBC_A_IY(d)
        | Instruction::AND_A_IY(d)
        | Instruction::OR_A_IY(d)
        | Instruction::XOR_A_IY(d)
        | Instruction::CP_IY(d)
        | Instruction::INC_IY(d)
        | Instruction::DEC_IY(d) => Some(indexed(cpu.index_y, d)),
        Instruction::LD_A_BC
        | Instruction::LD_BC_A => Some(cpu.bc),
        Instruction::LD_A_DE
        | Instruction::LD_DE_A => Some(cpu.de),
        Instruction::LD_A_nn(nn)
        | Instruction::LD_nn_A(nn) => Some(nn),
        Instruction::EX_SP_HL
        | Instruction::EX_SP_IX
        | Instruction::EX_SP_IY => Some(cpu.stack_ptr),
        _ => None,
    }
}

/// The address of the second byte of memory that an instruction reads or
/// writes, if there are two: the byte above the stack pointer for an
/// exchange with the stack, the destination for a block transfer.
pub open spec fn second_address(cpu: Z80, instr: Instruction) -> Option<u16> {
    match instr {
        Instruction::EX_SP_HL
        | Instruction::EX_SP_IX
        | Instruction::EX_SP_IY => Some(wrap16(cpu.stack_ptr + 1)),
        Instruction::LDI
        | Instruction::LDIR
        | Instruction::LDD
        | Instruction::LDDR => Some(cpu.de),
        _ => None,
    }
}

/// The address of the byte of memory that an instruction addresses.
pub open spec fn address(cpu: Z80, instr: Instruction) -> int
    recommends
        first_address(cpu, instr) is Some,
{
    first_address(cpu, instr).unwrap() as int
}

/// The byte of memory that an instruction addresses.
pub open spec fn addressed(cpu: Z80, instr: Instruction, mem: Seq<u8>) -> u8
    recommends
        first_address(cpu, instr) is Some,
{
    mem[address(cpu, instr)]
}

/// The operand of an arithmetic or logic instruction: the low byte of
/// the register that it names, its immediate byte, or the byte of memory
/// that it addresses.
pub open spec fn operand(cpu: Z80, instr: Instruction, mem: Seq<u8>) -> u8 {
    match instr {
        Instruction::ADD_A_r(r)
        | Instruction::ADC_A_r(r)
        | Instruction::SUB_A_r(r)
        | Instruction::SBC_A_r(r)
        | Instruction::AND_A_r(r)
        | Instruction::OR_A_r(r)
        | Instruction::XOR_A_r(r)
        | Instruction::CP_r(r) => reg_byte(cpu, r),
        Instruction::ADD_A_n(n)
        | Instruction::ADC_A_n(n)
        | Instruction::SUB_A_n(n)
        | Instruction::SBC_A_n(n)
        | Instruction::AND_A_n(n)
        | Instruction::OR_A_n(n)
        | Instruction::XOR_A_n(n)
        | Instruction::CP_n(n) => n,
        _ => addressed(cpu, instr, mem),
    }
}

impl Z80 {
    /// Whether every address that the instruction reads or writes lies
    /// within a memory of `len` bytes. It does for every instruction where
    /// the memory spans the whole address space of 65536 bytes.
    pub open spec fn can_execute(&self, instr: Instruction, len: nat) -> bool {
        &&& first_address(*self, instr) matches Some(addr) ==> addr < len
        &&& second_address(*self, instr) matches Some(addr) ==> addr < len
    }

    /// The register file after the instruction is executed on it and on
    /// the memory `mem`.
    #[verifier::opaque]
    pub open spec fn after(self, instr: Instruction, mem: Seq<u8>) -> Z80 {
        let cpu = self;
        match instr {
            Instruction::LD_r_r(r, r1) => cpu.with_reg(r, cpu.reg_spec(r1)),
            Instruction::LD_r_n(r, n) => cpu.with_reg(r, n as u16),
            Instruction::LD_r_HL(r)
            | Instruction::LD_r_IX(r, _)
            | Instruction::LD_r_IY(r, _) => cpu.with_reg(r, addressed(cpu, instr, mem) as u16),
            Instruction::LD_A_BC
            | Instruction::LD_A_DE
            | Instruction::LD_A_nn(_) => {
                cpu.with_reg(Register::A, addressed(cpu, instr, mem) as u16)
            },
            Instruction::LD_A_I => special_load_spec(cpu, cpu.interrupt),
            Instruction::LD_A_R => special_load_spec(cpu, cpu.refresh),
            Instruction::LD_I_A => Z80 { interrupt: cpu.acc(), ..cpu },
            Instruction::LD_R_A => Z80 { refresh: cpu.acc(), ..cpu },
            Instruction::EX_DE_HL => ex_de_hl(cpu),
            Instruction::EX_AF_AF1 => ex_af_af1(cpu),
            Instruction::EXX => exx(cpu),
            Instruction::EX_SP_HL => Z80 { hl: stack_top(mem, cpu.stack_ptr), ..cpu },
            Instruction::EX_SP_IX => Z80 { index_x: stack_top(mem, cpu.stack_ptr), ..cpu },
            Instruction::EX_SP_IY => Z80 { index_y: stack_top(mem, cpu.stack_ptr), ..cpu },
            Instruction::LDI => block_move(cpu, 1),
            Instruction::LDIR => rewound(block_move(cpu, 1), wrap16(cpu.bc - 1) != 0),
            Instruction::LDD => block_move(cpu, -1),
            Instruction::LDDR => rewound(block_move(cpu, -1), wrap16(cpu.bc - 1) != 0),
            Instruction::CPI => block_search(cpu, addressed(cpu, instr, mem), 1),
            Instruction::CPIR => rewound(
                block_search(cpu, addressed(cpu, instr, mem), 1),
                wrap16(cpu.bc - 1) != 0 || cpu.acc() != addressed(cpu, instr, mem),
            ),
            Instruction::CPD => block_search(cpu, addressed(cpu, instr, mem), -1),
            Instruction::CPDR => rewound(
                block_search(cpu, addressed(cpu, instr, mem), -1),
                wrap16(cpu.bc - 1) != 0 || cpu.acc() != addressed(cpu, instr, mem),
            ),
            Instruction::ADD_A_r(_)
            | Instruction::ADD_A_n(_)
            | Instruction::ADD_A_HL
            | Instruction::ADD_A_IX(_)
            | Instruction::ADD_A_IY(_) => add_spec(cpu, operand(cpu, instr, mem), false),
            Instruction::ADC_A_r(_)
            | Instruction::ADC_A_n(_)
            | Instruction::ADC_A_HL
            | Instruction::ADC_A_IX(_)
            | Instruction::ADC_A_IY(_) => add_spec(cpu, operand(cpu, instr, mem), true),
            Instruction::SUB_A_r(_)
            | Instruction::SUB_A_n(_)
            | Instruction::SUB_A_HL
            | Instruction::SUB_A_IX(_)
            | Instruction::SUB_A_IY(_) => sub_spec(cpu, operand(cpu, instr, mem), false),
            Instruction::SBC_A_r(_)
            | Instruction::SBC_A_n(_)
            | Instruction::SBC_A_HL
            | Instruction::SBC_A_IX(_)
            | Instruction::SBC_A_IY(_) => sub_spec(cpu, operand(cpu, instr, mem), true),
            Instruction::AND_A_r(_)
            | Instruction::AND_A_n(_)
            | Instruction::AND_A_HL
            | Instruction::AND_A_IX(_)
            | Instruction::AND_A_IY(_) => {
                logic_spec(cpu, cpu.acc() & operand(cpu, instr, mem), true)
            },
            Instruction::OR_A_r(_)
            | Instruction::OR_A_n(_)
            | Instruction::OR_A_HL
            | Instruction::OR_A_IX(_)
            | Instruction::OR_A_IY(_) => {
                logic_spec(cpu, cpu.acc() | operand(cpu, instr, mem), false)
            },
            Instruction::XOR_A_r(_)
            | Instruction::XOR_A_n(_)
            | Instruction::XOR_A_HL
            | Instruction::XOR_A_IX(_)
            | Instruction::XOR_A_IY(_) => {
                logic_spec(cpu, cpu.acc() ^ operand(cpu, instr, mem), false)
            },
            Instruction::CP_r(_)
            | Instruction::CP_n(_)
            | Instruction::CP_HL
            | Instruction::CP_IX(_)
            | Instruction::CP_IY(_) => cp_spec(cpu, operand(cpu, instr, mem)),
            Instruction::INC_r(r) => with_inc_flags(
                cpu.with_reg(r, wrap8(reg_byte(cpu, r) + 1) as u16),
                reg_byte(cpu, r),
            ),
            Instruction::INC_HL
            | Instruction::INC_IX(_)
            | Instruction::INC_IY(_) => with_inc_flags(cpu, addressed(cpu, instr, mem)),
            Instruction::DEC_r(r) => with_dec_flags(
                cpu.with_reg(r, wrap8(reg_byte(cpu, r) - 1) as u16),
                reg_byte(cpu, r),
            ),
            Instruction::DEC_HL
            | Instruction::DEC_IX(_)
            | Instruction::DEC_IY(_) => with_dec_flags(cpu, addressed(cpu, instr, mem)),
            Instruction::JP_nn(nn) => jumped_to(cpu, nn),
            Instruction::JP_cc_nn(cc, nn) => if condition_holds(cpu, cc) {
                jumped_to(cpu, nn)
            } else {
                cpu
            },
            Instruction::JR_e(e) => jumped_by(cpu, e),
            Instruction::JR_C_e(e) => if cpu.flag_spec(Flag::C) {
                jumped_by(cpu, e)
            } else {
                cpu
            },
            Instruction::JR_NC_e(e) => if !cpu.flag_spec(Flag::C) {
                jumped_by(cpu, e)
            } else {
                cpu
            },
            Instruction::JR_Z_e(e) => if cpu.flag_spec(Flag::Z) {
                jumped_by(cpu, e)
            } else {
                cpu
            },
            Instruction::JR_NZ_e(e) => if !cpu.flag_spec(Flag::Z) {
                jumped_by(cpu, e)
            } else {
                cpu
            },
            Instruction::JP_HL => jumped_to(cpu, cpu.hl),
            Instruction::JP_IX => jumped_to(cpu, cpu.index_x),
            Instruction::JP_IY => jumped_to(cpu, cpu.index_y),
            Instruction::DJNZ_e(e) => djnz_spec(cpu, e),
            _ => cpu,
        }
    }

    /// The memory after the instruction is executed on this register file
    /// and on the memory `mem`.
    #[verifier::opaque]
    pub open spec fn memory_after(self, instr: Instruction, mem: Seq<u8>) -> Seq<u8> {
        let cpu = self;
        match instr {
            Instruction::LD_HL_r(r)
            | Instruction::LD_IX_r(_, r)
            | Instruction::LD_IY_r(_, r) => mem.update(address(cpu, instr), reg_byte(cpu, r)),
            Instruction::LD_HL_n(n)
            | Instruction::LD_IX_n(_, n)
            | Instruction::LD_IY_n(_, n) => mem.update(address(cpu, instr), n),
            Instruction::LD_BC_A
            | Instruction::LD_DE_A
            | Instruction::LD_nn_A(_) => mem.update(address(cpu, instr), cpu.acc()),
            Instruction::EX_SP_HL => stack_exchanged(mem, cpu.stack_ptr, cpu.hl),
            Instruction::EX_SP_IX => stack_exchanged(mem, cpu.stack_ptr, cpu.index_x),
            Instruction::EX_SP_IY => stack_exchanged(mem, cpu.stack_ptr, cpu.index_y),
            Instruction::LDI
            | Instruction::LDIR
            | Instruction::LDD
            | Instruction::LDDR => mem.update(cpu.de as int, addressed(cpu, instr, mem)),
            Instruction::INC_HL
            | Instruction::INC_IX(_)
            | Instruction::INC_IY(_) => {
                mem.update(address(cpu, instr), wrap8(addressed(cpu, instr, mem) + 1))
            },
            Instruction::DEC_HL
            | Instruction::DEC_IX(_)
            | Instruction::DEC_IY(_) => {
                mem.update(address(cpu, instr), wrap8(addressed(cpu, instr, mem) - 1))
            },
            _ => mem,
        }
    }

    /// Executes a single instruction and returns the least time that it
    /// takes, in nanoseconds. The caller sees to it that this time passes.
    pub fn execute(&mut self, instr: Instruction, memory: &mut [u8]) -> (nanos: u64)
        requires
            old(self).can_execute(instr, old(memory)@.len()),
        ensures
            *final(self) == old(self).after(instr, old(memory)@),
            final(memory)@ == old(self).memory_after(instr, old(memory)@),
            final(memory)@.len() == old(memory)@.len(),
            nanos == min_duration(instr, old(self).bc),
    {
        match instr {
            Instruction::LD_r_r(..)
            | Instruction::LD_r_n(..)
            | Instruction::LD_r_HL(..)
            | Instruction::LD_r_IX(..)
            | Instruction::LD_r_IY(..)
            | Instruction::LD_HL_r(..)
            | Instruction::LD_IX_r(..)
            | Instruction::LD_IY_r(..)
            | Instruction::LD_HL_n(..)
            | Instruction::LD_IX_n(..)
            | Instruction::LD_IY_n(..)
            | Instruction::LD_A_BC
            | Instruction::LD_A_DE
            | Instruction::LD_A_nn(..)
            | Instruction::LD_BC_A
            | Instruction::LD_DE_A
            | Instruction::LD_nn_A(..)
            | Instruction::LD_A_I
            | Instruction::LD_A_R
            | Instruction::LD_I_A
            | Instruction::LD_R_A => self.execute_load(instr, memory),
            Instruction::EX_DE_HL
            | Instruction::EX_AF_AF1
            | Instruction::EXX
            | Instruction::EX_SP_HL
            | Instruction::EX_SP_IX
            | Instruction::EX_SP_IY
            | Instruction::LDI
            | Instruction::LDIR
            | Instruction::LDD
            | Instruction::LDDR
            | Instruction::CPI
            | Instruction::CPIR
            | Instruction::CPD
            | Instruction::CPDR => self.execute_exchange(instr, memory),
            Instruction::ADD_A_r(..)
            | Instruction::ADD_A_n(..)
            | Instruction::ADD_A_HL
            | Instruction::ADD_A_IX(..)
            | Instruction::ADD_A_IY(..)
            | Instruction::ADC_A_r(..)
            | Instruction::ADC_A_n(..)
            | Instruction::ADC_A_HL
            | Instruction::ADC_A_IX(..)
            | Instruction::ADC_A_IY(..)
            | Instruction::SUB_A_r(..)
            | Instruction::SUB_A_n(..)
            | Instruction::SUB_A_HL
            | Instruction::SUB_A_IX(..)
            | Instruction::SUB_A_IY(..)
            | Instruction::SBC_A_r(..)
            | Instruction::SBC_A_n(..)
            | Instruction::SBC_A_HL
            | Instruction::SBC_A_IX(..)
            | Instruction::SBC_A_IY(..)
            | Instruction::AND_A_r(..)
            | Instruction::AND_A_n(..)
            | Instruction::AND_A_HL
            | Instruction::AND_A_IX(..)
            | Instruction::AND_A_IY(..)
            | Instruction::OR_A_r(..)
            | Instruction::OR_A_n(..)
            | Instruction::OR_A_HL
            | Instruction::OR_A_IX(..)
            | Instruction::OR_A_IY(..)
            | Instruction::XOR_A_r(..)
            | Instruction::XOR_A_n(..)
            | Instruction::XOR_A_HL
            | Instruction::XOR_A_IX(..)
            | Instruction::XOR_A_IY(..)
            | Instruction::CP_r(..)
            | Instruction::CP_n(..)
            | Instruction::CP_HL
            | Instruction::CP_IX(..)
            | Instruction::CP_IY(..)
            | Instruction::INC_r(..)
            | Instruction::INC_HL
            | Instruction::INC_IX(..)
            | Instruction::INC_IY(..)
            | Instruction::DEC_r(..)
            | Instruction::DEC_HL
            | Instruction::DEC_IX(..)
            | Instruction::DEC_IY(..) => self.execute_arith8(instr, memory),
            Instruction::JP_nn(..)
            | Instruction::JP_cc_nn(..)
            | Instruction::JR_e(..)
            | Instruction::JR_C_e(..)
            | Instruction::JR_NC_e(..)
            | Instruction::JR_Z_e(..)
            | Instruction::JR_NZ_e(..)
            | Instruction::JP_HL
            | Instruction::JP_IX
            | Instruction::JP_IY
            | Instruction::DJNZ_e(..) => self.execute_jump(instr, memory),
        }
    }

    /// Executes an 8-bit load.
    fn execute_load(&mut self, instr: Instruction, memory: &mut [u8]) -> (nanos: u64)
        requires
            instr.family() is Load,
            old(self).can_execute(instr, old(memory)@.len()),
        ensures
            *final(self) == old(self).after(instr, old(memory)@),
            final(memory)@ == old(self).memory_after(instr, old(memory)@),
            final(memory)@.len() == old(memory)@.len(),
            nanos == min_duration(instr, old(self).bc),
    {
        reveal(Z80::after);
        reveal(Z80::memory_after);
        match instr {
            Instruction::LD_r_r(r, r1) => {
                load8::load_r_r(self, r, r1);
                1000
            },
            Instruction::LD_r_n(r, n) => {
                load8::load_r_n(self, r, n);
                1750
            },
            Instruction::LD_r_HL(r) => {
                load8::load_r_hl(self, r, memory);
                1750
            },
            Instruction::LD_r_IX(r, d) => {
                load8::load_r_ix(self, r, d, memory);
                4750
            },
            Instruction::LD_r_IY(r, d) => {
                load8::load_r_iy(self, r, d, memory);
                4750
            },
            Instruction::LD_HL_r(r) => {
                load8::load_hl_r(self, r, memory);
                1750
            },
            Instruction::LD_IX_r(d, r) => {
                load8::load_ix_r(self, d, r, memory);
                4750
            },
            Instruction::LD_IY_r(d, r) => {
                load8::load_iy_r(self, d, r, memory);
                4750
            },
            Instruction::LD_HL_n(n) => {
                load8::load_hl_n(self, n, memory);
                2500
            },
            Instruction::LD_IX_n(d, n) => {
                load8::load_ix_n(self, d, n, memory);
                4750
            },
            Instruction::LD_IY_n(d, n) => {
                load8::load_iy_n(self, d, n, memory);
                2500
            },
            Instruction::LD_A_BC => {
                load8::load_a_bc(self, memory);
                1750
            },
            Instruction::LD_A_DE => {
                load8::load_a_de(self, memory);
                1750
            },
            Instruction::LD_A_nn(nn) => {
                load8::load_a_nn(self, nn, memory);
                3250
            },
            Instruction::LD_BC_A => {
                load8::load_bc_a(self, memory);
                1750
            },
            Instruction::LD_DE_A => {
                load8::load_de_a(self, memory);
                1750
            },
            Instruction::LD_nn_A(nn) => {
                load8::load_nn_a(self, nn, memory);
                3250
            },
            Instruction::LD_A_I => {
                load8::load_a_i(self);
                2250
            },
            Instruction::LD_A_R => {
                load8::load_a_r(self);
                2250
            },
            Instruction::LD_I_A => {
                load8::load_i_a(self);
                2250
            },
            Instruction::LD_R_A => {
                load8::load_r_a(self);
                2250
            },
            _ => unreached(),
        }
    }

    /// Executes an exchange, a block transfer or a block search.
    fn execute_exchange(&mut self, instr: Instruction, memory: &mut [u8]) -> (nanos: u64)
        requires
            instr.family() is Exchange,
            old(self).can_execute(instr, old(memory)@.len()),
        ensures
            *final(self) == old(self).after(instr, old(memory)@),
            final(memory)@ == old(self).memory_after(instr, old(memory)@),
            final(memory)@.len() == old(memory)@.len(),
            nanos == min_duration(instr, old(self).bc),
    {
        reveal(Z80::after);
        reveal(Z80::memory_after);
        match instr {
            Instruction::EX_DE_HL => {
                exchange::exchange_de_hl(self);
                1000
            },
            Instruction::EX_AF_AF1 => {
                exchange::exchange_af_af1(self);
                1000
            },
            Instruction::EXX => {
                exchange::exchange_exx(self);
                1000
            },
            Instruction::EX_SP_HL => {
                exchange::exchange_sp_hl(self, memory);
                4750
            },
            Instruction::EX_SP_IX => {
                exchange::exchange_sp_ix(self, memory);
                5750
            },
            Instruction::EX_SP_IY => {
                exchange::exchange_sp_iy(self, memory);
                5750
            },
            Instruction::LDI => {
                exchange::exchange_ldi(self, memory);
                4000
            },
            Instruction::LDIR => {
                let nanos: u64 = if self.bc != 0 {
                    5250
                } else {
                    4000
                };
                exchange::exchange_ldir(self, memory);
                nanos
            },
            Instruction::LDD => {
                exchange::exchange_ldd(self, memory);
                4000
            },
            Instruction::LDDR => {
                let nanos: u64 = if self.bc != 0 {
                    5250
                } else {
                    4000
                };
                exchange::exchange_lddr(self, memory);
                nanos
            },
            Instruction::CPI => {
                exchange::exchange_cpi(self, memory);
                4000
            },
            Instruction::CPIR => {
                let nanos: u64 = if self.bc != 0 {
                    5250
                } else {
                    4000
                };
                exchange::exchange_cpir(self, memory);
                nanos
            },
            Instruction::CPD => {
                exchange::exchange_cpd(self, memory);
                4000
            },
            Instruction::CPDR => {
                let nanos: u64 = if self.bc != 0 {
                    5250
                } else {
                    4000
                };
                exchange::exchange_cpdr(self, memory);
                nanos
            },
            _ => unreached(),
        }
    }

    /// Executes an 8-bit arithmetic or logic instruction.
    fn execute_arith8(&mut self, instr: Instruction, memory: &mut [u8]) -> (nanos: u64)
        requires
            instr.family() is Arith8,
            old(self).can_execute(instr, old(memory)@.len()),
        ensures
            *final(self) == old(self).after(instr, old(memory)@),
            final(memory)@ == old(self).memory_after(instr, old(memory)@),
            final(memory)@.len() == old(memory)@.len(),
            nanos == min_duration(instr, old(self).bc),
    {
        reveal(Z80::after);
        reveal(Z80::memory_after);
        match instr {
            Instruction::ADD_A_r(r) => {
                arith8::add_a_r(self, r, false);
                1000
            },
            Instruction::ADD_A_n(n) => {
                arith8::add_a_n(self, n, false);
                1750
            },
            Instruction::ADD_A_HL => {
                arith8::add_a_hl(self, memory, false);
                1750
            },
            Instruction::ADD_A_IX(d) => {
                arith8::add_a_ix(self, d, memory, false);
                4750
            },
            Instruction::ADD_A_IY(d) => {
                arith8::add_a_iy(self, d, memory, false);
                4750
            },
            Instruction::ADC_A_r(r) => {
                arith8::add_a_r(self, r, true);
                1000
            },
            Instruction::ADC_A_n(n) => {
                arith8::add_a_n(self, n, true);
                1750
            },
            Instruction::ADC_A_HL => {
                arith8::add_a_hl(self, memory, true);
                1750
            },
            Instruction::ADC_A_IX(d) => {
                arith8::add_a_ix(self, d, memory, true);
                4750
            },
            Instruction::ADC_A_IY(d) => {
                arith8::add_a_iy(self, d, memory, true);
                4750
            },
            Instruction::SUB_A_r(r) => {
                let rhs: u8 = arith8::operand_r(self, r);
                arith8::sub_a(self, rhs, false);
                1000
            },
            Instruction::SUB_A_n(n) => {
                arith8::sub_a(self, n, false);
                1750
            },
            Instruction::SUB_A_HL => {
                let rhs: u8 = arith8::operand_hl(self, memory);
                arith8::sub_a(self, rhs, false);
                1750
            },
            Instruction::SUB_A_IX(d) => {
                let rhs: u8 = arith8::operand_ix(self, d, memory);
                arith8::sub_a(self, rhs, false);
                4750
            },
            Instruction::SUB_A_IY(d) => {
                let rhs: u8 = arith8::operand_iy(self, d, memory);
                arith8::sub_a(self, rhs, false);
                4750
            },
            Instruction::SBC_A_r(r) => {
                let rhs: u8 = arith8::operand_r(self, r);
                arith8::sub_a(self, rhs, true);
                1000
            },
            Instruction::SBC_A_n(n) => {
                arith8::sub_a(self, n, true);
                1750
            },
            Instruction::SBC_A_HL => {
                let rhs: u8 = arith8::operand_hl(self, memory);
                arith8::sub_a(self, rhs, true);
                1750
            },
            Instruction::SBC_A_IX(d) => {
                let rhs: u8 = arith8::operand_ix(self, d, memory);
                arith8::sub_a(self, rhs, true);
                4750
            },
            Instruction::SBC_A_IY(d) => {
                let rhs: u8 = arith8::operand_iy(self, d, memory);
                arith8::sub_a(self, rhs, true);
                4750
            },
            Instruction::AND_A_r(r) => {
                let rhs: u8 = arith8::operand_r(self, r);
                arith8::and_a(self, rhs);
                1000
            },
            Instruction::AND_A_n(n) => {
                arith8::and_a(self, n);
                1750
            },
            Instruction::AND_A_HL => {
                let rhs: u8 = arith8::operand_hl(self, memory);
                arith8::and_a(self, rhs);
                1750
            },
            Instruction::AND_A_IX(d) => {
                let rhs: u8 = arith8::operand_ix(self, d, memory);
                arith8::and_a(self, rhs);
                4750
            },
            Instruction::AND_A_IY(d) => {
                let rhs: u8 = arith8::operand_iy(self, d, memory);
                arith8::and_a(self, rhs);
                4750
            },
            Instruction::OR_A_r(r) => {
                let rhs: u8 = arith8::operand_r(self, r);
                arith8::or_a(self, rhs);
                1000
            },
            Instruction::OR_A_n(n) => {
                arith8::or_a(self, n);
                1750
            },
            Instruction::OR_A_HL => {
                let rhs: u8 = arith8::operand_hl(self, memory);
                arith8::or_a(self, rhs);
                1750
            },
            Instruction::OR_A_IX(d) => {
                let rhs: u8 = arith8::operand_ix(self, d, memory);
                arith8::or_a(self, rhs);
                4750
            },
            Instruction::OR_A_IY(d) => {
                let rhs: u8 = arith8::operand_iy(self, d, memory);
                arith8::or_a(self, rhs);
                4750
            },
            Instruction::XOR_A_r(r) => {
                let rhs: u8 = arith8::operand_r(self, r);
                arith8::xor_a(self, rhs);
                1000
            },
            Instruction::XOR_A_n(n) => {
                arith8::xor_a(self, n);
                1750
            },
            Instruction::XOR_A_HL => {
                let rhs: u8 = arith8::operand_hl(self, memory);
                arith8::xor_a(self, rhs);
                1750
            },
            Instruction::XOR_A_IX(d) => {
                let rhs: u8 = arith8::operand_ix(self, d, memory);
                arith8::xor_a(self, rhs);
                4750
            },
            Instruction::XOR_A_IY(d) => {
                let rhs: u8 = arith8::operand_iy(self, d, memory);
                arith8::xor_a(self, rhs);
                4750
            },
            Instruction::CP_r(r) => {
                let rhs: u8 = arith8::operand_r(self, r);
                arith8::cp_a(self, rhs);
                1000
            },
            Instruction::CP_n(n) => {
                arith8::cp_a(self, n);
                1750
            },
            Instruction::CP_HL => {
                let rhs: u8 = arith8::operand_hl(self, memory);
                arith8::cp_a(self, rhs);
                1750
            },
            Instruction::CP_IX(d) => {
                let rhs: u8 = arith8::operand_ix(self, d, memory);
                arith8::cp_a(self, rhs);
                4750
            },
            Instruction::CP_IY(d) => {
                let rhs: u8 = arith8::operand_iy(self, d, memory);
                arith8::cp_a(self, rhs);
                4750
            },
            Instruction::INC_r(r) => {
                arith8::inc_r(self, r);
                1000
            },
            Instruction::INC_HL => {
                arith8::inc_hl(self, memory);
                2750
            },
            Instruction::INC_IX(d) => {
                arith8::inc_ix(self, d, memory);
                5750
            },
            Instruction::INC_IY(d) => {
                arith8::inc_iy(self, d, memory);
                5750
            },
            Instruction::DEC_r(r) => {
                arith8::dec_r(self, r);
                1000
            },
            Instruction::DEC_HL => {
                arith8::dec_hl(self, memory);
                2750
            },
            Instruction::DEC_IX(d) => {
                arith8::dec_ix(self, d, memory);
                5750
            },
            Instruction::DEC_IY(d) => {
                arith8::dec_iy(self, d, memory);
                5750
            },
            _ => unreached(),
        }
    }

    /// Executes a jump.
    fn execute_jump(&mut self, instr: Instruction, memory: &mut [u8]) -> (nanos: u64)
        requires
            instr.family() is Jump,
            old(self).can_execute(instr, old(memory)@.len()),
        ensures
            *final(self) == old(self).after(instr, old(memory)@),
            final(memory)@ == old(self).memory_after(instr, old(memory)@),
            final(memory)@.len() == old(memory)@.len(),
            nanos == min_duration(instr, old(self).bc),
    {
        reveal(Z80::after);
        reveal(Z80::memory_after);
        match instr {
            Instruction::JP_nn(nn) => {
                jump::jump_nn(self, nn);
                2500
            },
            Instruction::JP_cc_nn(cc, nn) => {
                jump::jump_cc_nn(self, cc, nn);
                2500
            },
            Instruction::JR_e(e) => {
                jump::jumpr_e(self, e);
                3000
            },
            Instruction::JR_C_e(e) => {
                jump::jr_flag_e(self, Flag::C, e);
                3000
            },
            Instruction::JR_NC_e(e) => {
                jump::jr_nflag_e(self, Flag::C, e);
                3000
            },
            Instruction::JR_Z_e(e) => {
                jump::jr_flag_e(self, Flag::Z, e);
                3000
            },
            Instruction::JR_NZ_e(e) => {
                jump::jr_nflag_e(self, Flag::Z, e);
                3000
            },
            Instruction::JP_HL => {
                jump::jump_hl(self);
                1000
            },
            Instruction::JP_IX => {
                jump::jump_ix(self);
                1000
            },
            Instruction::JP_IY => {
                jump::jump_iy(self);
                1000
            },
            Instruction::DJNZ_e(e) => {
                jump::djnz_e(self, e);
                3250
            },
            _ => unreached(),
        }
    }
}

} // verus!
