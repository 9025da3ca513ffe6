//! Execution of the 8-bit load instructions.

use crate::cpu::{indexed, reg_byte, Flag, Register, Z80};
use crate::hi_lo::HiLo;
use vstd::prelude::*;

verus! {

/// The register file after the accumulator is loaded from the interrupt
/// vector or the refresh register, which hold `val`: sign and zero follow
/// the value; half-carry and add/subtract are reset; parity/overflow takes
/// the state of the second interrupt flip-flop, which is reset in a core
/// that handles no interrupts; carry is kept.
pub open spec fn special_load_spec(cpu: Z80, val: u8) -> Z80 {
    cpu.with_reg(Register::A, val as u16).with_flag(Flag::S, val >= 0x80).with_flag(
        Flag::Z,
        val == 0,
    ).with_flag(Flag::H, false).with_flag(Flag::PV, false).with_flag(Flag::N, false)
}

/// `LD r, r'`
#[inline]
pub fn load_r_r(cpu: &mut Z80, r: Register, r1: Register)
    ensures
        *final(cpu) == old(cpu).with_reg(r, old(cpu).reg_spec(r1)),
{
    let x: u16 = cpu.reg(r1);
    cpu.set_reg(r, x);
}

/// `LD r, n`
#[inline]
pub fn load_r_n(cpu: &mut Z80, r: Register, n: u8)
    ensures
        *final(cpu) == old(cpu).with_reg(r, n as u16),
{
    cpu.set_reg(r, n as u16);
}

/// `LD r, (HL)`
#[inline]
pub fn load_r_hl(cpu: &mut Z80, r: Register, mem: &[u8])
    requires
        old(cpu).hl < mem@.len(),
    ensures
        *final(cpu) == old(cpu).with_reg(r, mem@[old(cpu).hl as int] as u16),
{
    let addr: u16 = cpu.reg(Register::HL);
    let nn: u8 = mem[addr as usize];
    cpu.set_reg(r, nn as u16);
}

/// `LD r, (IX+d)`
#[inline]
pub fn load_r_ix(cpu: &mut Z80, r: Register, d: i8, mem: &[u8])
    requires
        indexed(old(cpu).index_x, d) < mem@.len(),
    ensures
        *final(cpu) == old(cpu).with_reg(r, mem@[indexed(old(cpu).index_x, d) as int] as u16),
{
    let addr: u16 = cpu.index_x.wrapping_add_signed(d as i16);
    let nn: u8 = mem[addr as usize];
    cpu.set_reg(r, nn as u16);
}

/// `LD r, (IY+d)`
#[inline]
pub fn load_r_iy(cpu: &mut Z80, r: Register, d: i8, mem: &[u8])
    requires
        indexed(old(cpu).index_y, d) < mem@.len(),
    ensures
        *final(cpu) == old(cpu).with_reg(r, mem@[indexed(old(cpu).index_y, d) as int] as u16),
{
    let addr: u16 = cpu.index_y.wrapping_add_signed(d as i16);
    let nn: u8 = mem[addr as usize];
    cpu.set_reg(r, nn as u16);
}

/// `LD (HL), r`
#[inline]
pub fn load_hl_r(cpu: &mut Z80, r: Register, mem: &mut [u8])
    requires
        old(cpu).hl < old(mem)@.len(),
    ensures
        *final(cpu) == *old(cpu),
        final(mem)@ == old(mem)@.update(
            old(cpu).hl as int,
            reg_byte(*old(cpu), r),
        ),
{
    let addr: u16 = cpu.reg(Register::HL);
    mem[addr as usize] = cpu.reg(r).lo();
}

/// `LD (IX+d), r`
#[inline]
pub fn load_ix_r(cpu: &mut Z80, d: i8, r: Register, mem: &mut [u8])
    requires
        indexed(old(cpu).index_x, d) < old(mem)@.len(),
    ensures
        *final(cpu) == *old(cpu),
        final(mem)@ == old(mem)@.update(
            indexed(old(cpu).index_x, d) as int,
            reg_byte(*old(cpu), r),
        ),
{
    let addr: u16 = cpu.index_x.wrapping_add_signed(d as i16);
    mem[addr as usize] = cpu.reg(r).lo();
}

/// `LD (IY+d), r`
#[inline]
pub fn load_iy_r(cpu: &mut Z80, d: i8, r: Register, mem: &mut [u8])
    requires
        indexed(old(cpu).index_y, d) < old(mem)@.len(),
    ensures
        *final(cpu) == *old(cpu),
        final(mem)@ == old(mem)@.update(
            indexed(old(cpu).index_y, d) as int,
            reg_byte(*old(cpu), r),
        ),
{
    let addr: u16 = cpu.index_y.wrapping_add_signed(d as i16);
    mem[addr as usize] = cpu.reg(r).lo();
}

/// `LD (HL), n`
#[inline]
pub fn load_hl_n(cpu: &mut Z80, n: u8, mem: &mut [u8])
    requires
        old(cpu).hl < old(mem)@.len(),
    ensures
        *final(cpu) == *old(cpu),
        final(mem)@ == old(mem)@.update(old(cpu).hl as int, n),
{
    let addr: u16 = cpu.reg(Register::HL);
    mem[addr as usize] = n;
}

/// `LD (IX+d), n`
#[inline]
pub fn load_ix_n(cpu: &mut Z80, d: i8, n: u8, mem: &mut [u8])
    requires
        indexed(old(cpu).index_x, d) < old(mem)@.len(),
    ensures
        *final(cpu) == *old(cpu),
        final(mem)@ == old(mem)@.update(indexed(old(cpu).index_x, d) as int, n),
{
    let addr: u16 = cpu.index_x.wrapping_add_signed(d as i16);
    mem[addr as usize] = n;
}

/// `LD (IY+d), n`
#[inline]
pub fn load_iy_n(cpu: &mut Z80, d: i8, n: u8, mem: &mut [u8])
    requires
        indexed(old(cpu).index_y, d) < old(mem)@.len(),
    ensures
        *final(cpu) == *old(cpu),
        final(mem)@ == old(mem)@.update(indexed(old(cpu).index_y, d) as int, n),
{
    let addr: u16 = cpu.index_y.wrapping_add_signed(d as i16);
    mem[addr as usize] = n;
}

/// `LD A, (BC)`
#[inline]
pub fn load_a_bc(cpu: &mut Z80, mem: &[u8])
    requires
        old(cpu).bc < mem@.len(),
    ensures
        *final(cpu) == old(cpu).with_reg(Register::A, mem@[old(cpu).bc as int] as u16),
{
    let addr: usize = cpu.reg(Register::BC) as usize;
    let n: u16 = mem[addr] as u16;
    cpu.set_reg(Register::A, n);
}

/// `LD A, (DE)`
#[inline]
pub fn load_a_de(cpu: &mut Z80, mem: &[u8])
    requires
        old(cpu).de < mem@.len(),
    ensures
        *final(cpu) == old(cpu).with_reg(Register::A, mem@[old(cpu).de as int] as u16),
{
    let addr: usize = cpu.reg(Register::DE) as usize;
    let n: u16 = mem[addr] as u16;
    cpu.set_reg(Register::A, n);
}

/// `LD A, (nn)`
#[inline]
pub fn load_a_nn(cpu: &mut Z80, addr: u16, mem: &[u8])
    requires
        addr < mem@.len(),
    ensures
        *final(cpu) == old(cpu).with_reg(Register::A, mem@[addr as int] as u16),
{
    let n: u16 = mem[addr as usize] as u16;
    cpu.set_reg(Register::A, n);
}

/// `LD (BC), A`
#[inline]
pub fn load_bc_a(cpu: &mut Z80, mem: &mut [u8])
    requires
        old(cpu).bc < old(mem)@.len(),
    ensures
        *final(cpu) == *old(cpu),
        final(mem)@ == old(mem)@.update(old(cpu).bc as int, old(cpu).acc()),
{
    let addr: u16 = cpu.reg(Register::BC);
    mem[addr as usize] = cpu.reg(Register::A).lo();
}

/// `LD (DE), A`
#[inline]
pub fn load_de_a(cpu: &mut Z80, mem: &mut [u8])
    requires
        old(cpu).de < old(mem)@.len(),
    ensures
        *final(cpu) == *old(cpu),
        final(mem)@ == old(mem)@.update(old(cpu).de as int, old(cpu).acc()),
{
    let addr: u16 = cpu.reg(Register::DE);
    mem[addr as usize] = cpu.reg(Register::A).lo();
}

/// `LD (nn), A`
#[inline]
pub fn load_nn_a(cpu: &mut Z80, nn: u16, mem: &mut [u8])
    requires
        nn < old(mem)@.len(),
    ensures
        *final(cpu) == *old(cpu),
        final(mem)@ == old(mem)@.update(nn as int, old(cpu).acc()),
{
    mem[nn as usize] = cpu.reg(Register::A).lo();
}

/// Loads the accumulator from a special register that holds `val` and
/// sets the flags that such a load decides.
fn load_a_special(cpu: &mut Z80, val: u8)
    ensures
        *final(cpu) == special_load_spec(*old(cpu), val),
{
    cpu.set_reg(Register::A, val as u16);
    cpu.set_flag(Flag::S, val >= 0x80);
    cpu.set_flag(Flag::Z, val == 0);
    cpu.set_flag(Flag::H, false);
    cpu.set_flag(Flag::PV, false);
    cpu.set_flag(Flag::N, false);
}

/// `LD A, I`
#[inline]
pub fn load_a_i(cpu: &mut Z80)
    ensures
        *final(cpu) == special_load_spec(*old(cpu), old(cpu).interrupt),
{
    let val: u8 = cpu.interrupt;
    load_a_special(cpu, val);
}

/// `LD A, R`
#[inline]
pub fn load_a_r(cpu: &mut Z80)
    ensures
        *final(cpu) == special_load_spec(*old(cpu), old(cpu).refresh),
{
    let val: u8 = cpu.refresh;
    load_a_special(cpu, val);
}

/// `LD I, A`
#[inline]
pub fn load_i_a(cpu: &mut Z80)
    ensures
        *final(cpu) == (Z80 { interrupt: old(cpu).acc(), ..*old(cpu) }),
{
    cpu.interrupt = cpu.reg(Register::A).lo();
}

/// `LD R, A`
#[inline]
pub fn load_r_a(cpu: &mut Z80)
    ensures
        *final(cpu) == (Z80 { refresh: old(cpu).acc(), ..*old(cpu) }),
{
    cpu.refresh = cpu.reg(Register::A).lo();
}

} // verus!
