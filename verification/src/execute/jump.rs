//! Execution of the jump instructions.

use crate::cpu::{wrap16, wrap8, Condition, Flag, Register, Z80};
use vstd::prelude::*;

verus! {

/// Whether a jump condition holds of the flags: `Z` and `NZ` test the zero
/// flag, `C` and `NC` the carry flag, `PE` (parity even) and `PO` (parity
/// odd) the parity/overflow flag, `M` (sign negative) and `P` (sign
/// positive) the sign flag.
pub open spec fn condition_holds(cpu: Z80, cc: Condition) -> bool {
    match cc {
        Condition::NZ => !cpu.flag_spec(Flag::Z),
        Condition::Z => cpu.flag_spec(Flag::Z),
        Condition::NC => !cpu.flag_spec(Flag::C),
        Condition::C => cpu.flag_spec(Flag::C),
        Condition::PO => !cpu.flag_spec(Flag::PV),
        Condition::PE => cpu.flag_spec(Flag::PV),
        Condition::P => !cpu.flag_spec(Flag::S),
        Condition::M => cpu.flag_spec(Flag::S),
    }
}

/// The register file with the program counter set to `nn`.
pub open spec fn jumped_to(cpu: Z80, nn: u16) -> Z80 {
    Z80 { prog_counter: nn, ..cpu }
}

/// The register file with the program counter moved by `e`.
pub open spec fn jumped_by(cpu: Z80, e: i8) -> Z80 {
    Z80 { prog_counter: wrap16(cpu.prog_counter + e), ..cpu }
}

/// The register file after `DJNZ e`: B counts down, and the program
/// counter moves by `e` unless B has reached zero.
pub open spec fn djnz_spec(cpu: Z80, e: i8) -> Z80 {
    let b = wrap8(cpu.reg_spec(Register::B) - 1);
    let counted = cpu.with_reg(Register::B, b as u16);
    if b != 0 {
        jumped_by(counted, e)
    } else {
        counted
    }
}

/// `JP nn`
#[inline]
pub fn jump_nn(cpu: &mut Z80, nn: u16)
    ensures
        *final(cpu) == jumped_to(*old(cpu), nn),
{
    cpu.prog_counter = nn;
}

/// `JP cc, nn`
#[inline]
pub fn jump_cc_nn(cpu: &mut Z80, cc: Condition, nn: u16)
    ensures
        *final(cpu) == (if condition_holds(*old(cpu), cc) {
            jumped_to(*old(cpu), nn)
        } else {
            *old(cpu)
        }),
{
    let flag: bool = match cc {
        Condition::Z => cpu.flag(Flag::Z),
        Condition::NZ => !cpu.flag(Flag::Z),
        Condition::C => cpu.flag(Flag::C),
        Condition::NC => !cpu.flag(Flag::C),
        Condition::PE => cpu.flag(Flag::PV),
        Condition::PO => !cpu.flag(Flag::PV),
        Condition::M => cpu.flag(Flag::S),
        Condition::P => !cpu.flag(Flag::S),
    };

    if flag {
        cpu.prog_counter = nn;
    }
}

/// `JR e`
#[inline]
pub fn jumpr_e(cpu: &mut Z80, e: i8)
    ensures
        *final(cpu) == jumped_by(*old(cpu), e),
{
    cpu.prog_counter = cpu.prog_counter.wrapping_add_signed(e as i16);
}

/// `JR C, e` and `JR Z, e`: the jump is made if the flag is set.
#[inline]
pub fn jr_flag_e(cpu: &mut Z80, flag: Flag, e: i8)
    ensures
        *final(cpu) == (if old(cpu).flag_spec(flag) {
            jumped_by(*old(cpu), e)
        } else {
            *old(cpu)
        }),
{
    if cpu.flag(flag) {
        jumpr_e(cpu, e);
    }
}

/// `JR NC, e` and `JR NZ, e`: the jump is made if the flag is not set.
#[inline]
pub fn jr_nflag_e(cpu: &mut Z80, flag: Flag, e: i8)
    ensures
        *final(cpu) == (if old(cpu).flag_spec(flag) {
            *old(cpu)
        } else {
            jumped_by(*old(cpu), e)
        }),
{
    if !cpu.flag(flag) {
        jumpr_e(cpu, e);
    }
}

/// `JP (HL)`
#[inline]
pub fn jump_hl(cpu: &mut Z80)
    ensures
        *final(cpu) == jumped_to(*old(cpu), old(cpu).hl),
{
    cpu.prog_counter = cpu.hl;
}

/// `JP (IX)`
#[inline]
pub fn jump_ix(cpu: &mut Z80)
    ensures
        *final(cpu) == jumped_to(*old(cpu), old(cpu).index_x),
{
    cpu.prog_counter = cpu.index_x;
}

/// `JP (IY)`
#[inline]
pub fn jump_iy(cpu: &mut Z80)
    ensures
        *final(cpu) == jumped_to(*old(cpu), old(cpu).index_y),
{
    cpu.prog_counter = cpu.index_y;
}

/// `DJNZ e`
#[inline]
pub fn djnz_e(cpu: &mut Z80, e: i8)
    ensures
        *final(cpu) == djnz_spec(*old(cpu), e),
{
    let b: u16 = cpu.reg(Register::B);
    let counted: u16 = if b == 0 {
        0xff
    } else {
        b - 1
    };
    cpu.set_reg(Register::B, counted);
    if counted != 0 {
        jumpr_e(cpu, e);
    }
}

} // verus!
