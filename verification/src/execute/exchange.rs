//! Execution of the exchange, block transfer and block search
//! instructions.

use crate::alu::{ALUSub, ALU};
use crate::cpu::{wrap16, Flag, Register, Z80};
use crate::decode::word_le;
use crate::hi_lo::HiLo;
use std::mem::swap;
use vstd::prelude::*;

verus! {

/// The register file after `EX DE, HL`.
pub open spec fn ex_de_hl(cpu: Z80) -> Z80 {
    Z80 { de: cpu.hl, hl: cpu.de, ..cpu }
}

/// The register file after `EX AF, AF'`.
pub open spec fn ex_af_af1(cpu: Z80) -> Z80 {
    Z80 { af: cpu.af1, af1: cpu.af, ..cpu }
}

/// The register file after `EXX`.
pub open spec fn exx(cpu: Z80) -> Z80 {
    Z80 {
        bc: cpu.bc1,
        bc1: cpu.bc,
        de: cpu.de1,
        de1: cpu.de,
        hl: cpu.hl1,
        hl1: cpu.hl,
        ..cpu
    }
}

/// The register file after one element of a block transfer: DE and HL
/// move by `step` (1 or -1), BC counts down, half-carry and add/subtract
/// are reset, and parity/overflow tells whether BC is not yet zero.
pub open spec fn block_move(cpu: Z80, step: int) -> Z80 {
    (Z80 {
        de: wrap16(cpu.de + step),
        hl: wrap16(cpu.hl + step),
        bc: wrap16(cpu.bc - 1),
        ..cpu
    }).with_flag(Flag::H, false).with_flag(Flag::PV, wrap16(cpu.bc - 1) != 0).with_flag(
        Flag::N,
        false,
    )
}

/// The register file after one element of a block search that found `val`
/// at HL: HL moves by `step` (1 or -1), BC counts down, sign tells whether
/// the accumulator is less than `val` (the subtraction borrows), zero
/// whether it equals `val`, parity/overflow whether BC is not yet zero,
/// and add/subtract is set.
pub open spec fn block_search(cpu: Z80, val: u8, step: int) -> Z80 {
    (Z80 { hl: wrap16(cpu.hl + step), bc: wrap16(cpu.bc - 1), ..cpu }).with_flag(
        Flag::S,
        cpu.acc() < val,
    ).with_flag(Flag::Z, cpu.acc() == val).with_flag(Flag::PV, wrap16(cpu.bc - 1) != 0).with_flag(
        Flag::N,
        true,
    )
}

/// The register file with the program counter moved back over a two-byte
/// instruction if `repeat` holds, so that the instruction runs again.
pub open spec fn rewound(cpu: Z80, repeat: bool) -> Z80 {
    if repeat {
        Z80 { prog_counter: wrap16(cpu.prog_counter - 2), ..cpu }
    } else {
        cpu
    }
}

/// Memory after a 16-bit register with the value `pair` is exchanged with
/// the two bytes at the stack pointer `sp`.
pub open spec fn stack_exchanged(mem: Seq<u8>, sp: u16, pair: u16) -> Seq<u8> {
    mem.update(sp as int, pair.lo_spec()).update(wrap16(sp + 1) as int, pair.hi_spec())
}

/// The word that stands at the stack pointer `sp`, low byte first.
pub open spec fn stack_top(mem: Seq<u8>, sp: u16) -> u16 {
    word_le(mem[sp as int], mem[wrap16(sp + 1) as int])
}

/// `EX DE, HL`
#[inline]
pub fn exchange_de_hl(cpu: &mut Z80)
    ensures
        *final(cpu) == ex_de_hl(*old(cpu)),
{
    swap(&mut cpu.de, &mut cpu.hl);
}

/// `EX AF, AF'`
#[inline]
pub fn exchange_af_af1(cpu: &mut Z80)
    ensures
        *final(cpu) == ex_af_af1(*old(cpu)),
{
    swap(&mut cpu.af, &mut cpu.af1);
}

/// `EXX`
#[inline]
pub fn exchange_exx(cpu: &mut Z80)
    ensures
        *final(cpu) == exx(*old(cpu)),
{
    swap(&mut cpu.bc, &mut cpu.bc1);
    swap(&mut cpu.de, &mut cpu.de1);
    swap(&mut cpu.hl, &mut cpu.hl1);
}

/// `EX (SP), HL`
#[inline]
pub fn exchange_sp_hl(cpu: &mut Z80, mem: &mut [u8])
    requires
        old(cpu).stack_ptr < old(mem)@.len(),
        wrap16(old(cpu).stack_ptr + 1) < old(mem)@.len(),
    ensures
        *final(cpu) == (Z80 { hl: stack_top(old(mem)@, old(cpu).stack_ptr), ..*old(cpu) }),
        final(mem)@ == stack_exchanged(old(mem)@, old(cpu).stack_ptr, old(cpu).hl),
{
    let at: usize = cpu.stack_ptr as usize;
    let above: usize = cpu.stack_ptr.wrapping_add(1) as usize;
    let lo: u8 = mem[at];
    let hi: u8 = mem[above];
    mem[at] = cpu.hl.lo();
    mem[above] = cpu.hl.hi();
    cpu.hl.set_lo(lo);
    cpu.hl.set_hi(hi);
}

/// `EX (SP), IX`
#[inline]
pub fn exchange_sp_ix(cpu: &mut Z80, mem: &mut [u8])
    requires
        old(cpu).stack_ptr < old(mem)@.len(),
        wrap16(old(cpu).stack_ptr + 1) < old(mem)@.len(),
    ensures
        *final(cpu) == (Z80 { index_x: stack_top(old(mem)@, old(cpu).stack_ptr), ..*old(cpu) }),
        final(mem)@ == stack_exchanged(old(mem)@, old(cpu).stack_ptr, old(cpu).index_x),
{
    let at: usize = cpu.stack_ptr as usize;
    let above: usize = cpu.stack_ptr.wrapping_add(1) as usize;
    let lo: u8 = mem[at];
    let hi: u8 = mem[above];
    mem[at] = cpu.index_x.lo();
    mem[above] = cpu.index_x.hi();
    cpu.index_x.set_lo(lo);
    cpu.index_x.set_hi(hi);
}

/// `EX (SP), IY`
#[inline]
pub fn exchange_sp_iy(cpu: &mut Z80, mem: &mut [u8])
    requires
        old(cpu).stack_ptr < old(mem)@.len(),
        wrap16(old(cpu).stack_ptr + 1) < old(mem)@.len(),
    ensures
        *final(cpu) == (Z80 { index_y: stack_top(old(mem)@, old(cpu).stack_ptr), ..*old(cpu) }),
        final(mem)@ == stack_exchanged(old(mem)@, old(cpu).stack_ptr, old(cpu).index_y),
{
    let at: usize = cpu.stack_ptr as usize;
    let above: usize = cpu.stack_ptr.wrapping_add(1) as usize;
    let lo: u8 = mem[at];
    let hi: u8 = mem[above];
    mem[at] = cpu.index_y.lo();
    mem[above] = cpu.index_y.hi();
    cpu.index_y.set_lo(lo);
    cpu.index_y.set_hi(hi);
}

/// `LDI`
#[inline]
pub fn exchange_ldi(cpu: &mut Z80, mem: &mut [u8])
    requires
        old(cpu).hl < old(mem)@.len(),
        old(cpu).de < old(mem)@.len(),
    ensures
        *final(cpu) == block_move(*old(cpu), 1),
        final(mem)@ == old(mem)@.update(old(cpu).de as int, old(mem)@[old(cpu).hl as int]),
{
    let src: usize = cpu.hl as usize;
    let dest: usize = cpu.de as usize;
    mem[dest] = mem[src];
    cpu.de = cpu.de.wrapping_add(1);
    cpu.hl = cpu.hl.wrapping_add(1);
    cpu.bc = cpu.bc.wrapping_sub(1);

    cpu.set_flag(Flag::H, false);
    cpu.set_flag(Flag::PV, cpu.bc != 0);
    cpu.set_flag(Flag::N, false);
}

/// `LDIR`
#[inline]
pub fn exchange_ldir(cpu: &mut Z80, mem: &mut [u8])
    requires
        old(cpu).hl < old(mem)@.len(),
        old(cpu).de < old(mem)@.len(),
    ensures
        *final(cpu) == rewound(block_move(*old(cpu), 1), wrap16(old(cpu).bc - 1) != 0),
        final(mem)@ == old(mem)@.update(old(cpu).de as int, old(mem)@[old(cpu).hl as int]),
{
    exchange_ldi(cpu, mem);
    if cpu.bc != 0 {
        cpu.prog_counter = cpu.prog_counter.wrapping_sub(2);
    }
}

/// `LDD`
#[inline]
pub fn exchange_ldd(cpu: &mut Z80, mem: &mut [u8])
    requires
        old(cpu).hl < old(mem)@.len(),
        old(cpu).de < old(mem)@.len(),
    ensures
        *final(cpu) == block_move(*old(cpu), -1),
        final(mem)@ == old(mem)@.update(old(cpu).de as int, old(mem)@[old(cpu).hl as int]),
{
    let src: usize = cpu.hl as usize;
    let dest: usize = cpu.de as usize;
    mem[dest] = mem[src];
    cpu.de = cpu.de.wrapping_sub(1);
    cpu.hl = cpu.hl.wrapping_sub(1);
    cpu.bc = cpu.bc.wrapping_sub(1);

    cpu.set_flag(Flag::H, false);
    cpu.set_flag(Flag::PV, cpu.bc != 0);
    cpu.set_flag(Flag::N, false);
}

/// `LDDR`
#[inline]
pub fn exchange_lddr(cpu: &mut Z80, mem: &mut [u8])
    requires
        old(cpu).hl < old(mem)@.len(),
        old(cpu).de < old(mem)@.len(),
    ensures
        *final(cpu) == rewound(block_move(*old(cpu), -1), wrap16(old(cpu).bc - 1) != 0),
        final(mem)@ == old(mem)@.update(old(cpu).de as int, old(mem)@[old(cpu).hl as int]),
{
    exchange_ldd(cpu, mem);
    if cpu.bc != 0 {
        cpu.prog_counter = cpu.prog_counter.wrapping_sub(2);
    }
}

/// `CPI`
#[inline]
pub fn exchange_cpi(cpu: &mut Z80, mem: &[u8])
    requires
        old(cpu).hl < mem@.len(),
    ensures
        *final(cpu) == block_search(*old(cpu), mem@[old(cpu).hl as int], 1),
{
    let addr: usize = cpu.reg(Register::HL) as usize;
    let ALUSub(diff, _, borrow) = ALU::sub(cpu.af.hi(), mem[addr]);

    cpu.hl = cpu.hl.wrapping_add(1);
    cpu.bc = cpu.bc.wrapping_sub(1);

    cpu.set_flag(Flag::S, borrow);
    cpu.set_flag(Flag::Z, diff == 0);
    cpu.set_flag(Flag::PV, cpu.bc != 0);
    cpu.set_flag(Flag::N, true);
}

/// `CPIR`
#[inline]
pub fn exchange_cpir(cpu: &mut Z80, mem: &[u8])
    requires
        old(cpu).hl < mem@.len(),
    ensures
        *final(cpu) == rewound(
            block_search(*old(cpu), mem@[old(cpu).hl as int], 1),
            wrap16(old(cpu).bc - 1) != 0 || old(cpu).acc() != mem@[old(cpu).hl as int],
        ),
{
    let found: bool = mem[cpu.hl as usize] as u16 == cpu.reg(Register::A);
    exchange_cpi(cpu, mem);
    if cpu.bc != 0 || !found {
        cpu.prog_counter = cpu.prog_counter.wrapping_sub(2);
    }
}

/// `CPD`
#[inline]
pub fn exchange_cpd(cpu: &mut Z80, mem: &[u8])
    requires
        old(cpu).hl < mem@.len(),
    ensures
        *final(cpu) == block_search(*old(cpu), mem@[old(cpu).hl as int], -1),
{
    let addr: usize = cpu.reg(Register::HL) as usize;
    let ALUSub(diff, _, borrow) = ALU::sub(cpu.af.hi(), mem[addr]);

    cpu.hl = cpu.hl.wrapping_sub(1);
    cpu.bc = cpu.bc.wrapping_sub(1);

    cpu.set_flag(Flag::S, borrow);
    cpu.set_flag(Flag::Z, diff == 0);
    cpu.set_flag(Flag::PV, cpu.bc != 0);
    cpu.set_flag(Flag::N, true);
}

/// `CPDR`
#[inline]
pub fn exchange_cpdr(cpu: &mut Z80, mem: &[u8])
    requires
        old(cpu).hl < mem@.len(),
    ensures
        *final(cpu) == rewound(
            block_search(*old(cpu), mem@[old(cpu).hl as int], -1),
            wrap16(old(cpu).bc - 1) != 0 || old(cpu).acc() != mem@[old(cpu).hl as int],
        ),
{
    let found: bool = mem[cpu.hl as usize] as u16 == cpu.reg(Register::A);
    exchange_cpd(cpu, mem);
    if cpu.bc != 0 || !found {
        cpu.prog_counter = cpu.prog_counter.wrapping_sub(2);
    }
}

/// Each of the three unconditional exchanges undoes itself: applied twice,
/// it restores every register.
pub proof fn law_exchange_twice(cpu: Z80)
    ensures
        ex_de_hl(ex_de_hl(cpu)) == cpu,
        ex_af_af1(ex_af_af1(cpu)) == cpu,
        exx(exx(cpu)) == cpu,
{
}

/// The unconditional exchanges change no flag: `EX DE, HL` and `EXX` leave
/// AF alone.
pub proof fn law_exchange_keeps_flags(cpu: Z80)
    ensures
        ex_de_hl(cpu).af == cpu.af,
        exx(cpu).af == cpu.af,
{
}

} // verus!
