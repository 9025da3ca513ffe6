//! Execution of the 8-bit arithmetic and logic instructions.

use crate::alu::{overflows_i8, signed, ALUAdd, ALUSub, ALU};
use crate::bits::{lemma_add_overflow_bits, lemma_parity_fold, lemma_sub_overflow_bits};
use crate::cpu::{indexed, reg_byte, wrap8, Flag, Register, Z80};
use crate::hi_lo::HiLo;
use vstd::prelude::*;

verus! {

/// One for a carry or a borrow that comes in, zero for none.
pub open spec fn unit(carry_in: bool) -> int {
    if carry_in {
        1
    } else {
        0
    }
}

/// The result of adding two bytes and a carry that comes in: the carries
/// and the overflow are those of the whole sum.
pub open spec fn add_with_carry(a: u8, rhs: u8, carry_in: bool) -> ALUAdd {
    ALUAdd {
        sum: wrap8(a + rhs + unit(carry_in)),
        carry3: a % 16 + rhs % 16 + unit(carry_in) > 15,
        carry7: a + rhs + unit(carry_in) > 255,
        overflow: overflows_i8(signed(a) + signed(rhs) + unit(carry_in)),
    }
}

/// The result of subtracting a byte and a borrow that comes in from a
/// byte: the difference, the half-borrow and the borrow.
pub open spec fn sub_with_borrow(a: u8, rhs: u8, borrow_in: bool) -> ALUSub {
    ALUSub(
        wrap8(a - rhs - unit(borrow_in)),
        a % 16 - rhs % 16 - unit(borrow_in) < 0,
        a - rhs - unit(borrow_in) < 0,
    )
}

/// Whether subtracting a byte and a borrow that comes in from a byte
/// overflows as a subtraction of two's-complement numbers.
pub open spec fn sub_overflows(a: u8, rhs: u8, borrow_in: bool) -> bool {
    overflows_i8(signed(a) - signed(rhs) - unit(borrow_in))
}

/// The number of bits that are set in a byte.
pub open spec fn ones(x: u8) -> int {
    x % 2 + (x / 2) % 2 + (x / 4) % 2 + (x / 8) % 2 + (x / 16) % 2 + (x / 32) % 2 + (x / 64) % 2
        + (x / 128) % 2
}

/// Whether a byte has an even number of set bits.
pub open spec fn even_parity(x: u8) -> bool {
    ones(x) % 2 == 0
}

/// The register file with the six flags as an addition leaves them: sign
/// and zero follow the sum, half-carry and carry its carries,
/// parity/overflow its signed overflow, and add/subtract is reset.
pub open spec fn with_add_flags(cpu: Z80, r: ALUAdd) -> Z80 {
    cpu.with_flag(Flag::S, r.sum >= 0x80).with_flag(Flag::Z, r.sum == 0).with_flag(
        Flag::H,
        r.carry3,
    ).with_flag(Flag::PV, r.overflow).with_flag(Flag::N, false).with_flag(Flag::C, r.carry7)
}

/// The register file with the six flags as a subtraction leaves them:
/// sign and zero follow the difference, half-carry and carry its borrows,
/// parity/overflow its signed overflow, and add/subtract is set.
pub open spec fn with_sub_flags(cpu: Z80, r: ALUSub, overflow: bool) -> Z80 {
    cpu.with_flag(Flag::S, r.0 >= 0x80).with_flag(Flag::Z, r.0 == 0).with_flag(
        Flag::H,
        r.1,
    ).with_flag(Flag::PV, overflow).with_flag(Flag::N, true).with_flag(Flag::C, r.2)
}

/// The register file after `ADD A, s`, or after `ADC A, s` where
/// `with_carry` holds: the accumulator takes the sum of itself, the
/// operand and, for `ADC`, the carry flag.
#[verifier::opaque]
pub open spec fn add_spec(cpu: Z80, rhs: u8, with_carry: bool) -> Z80 {
    let r = add_with_carry(cpu.acc(), rhs, with_carry && cpu.flag_spec(Flag::C));
    with_add_flags(cpu.with_reg(Register::A, r.sum as u16), r)
}

/// The register file after `SUB A, s`, or after `SBC A, s` where
/// `with_carry` holds: the accumulator loses the operand and, for `SBC`,
/// the carry flag.
#[verifier::opaque]
pub open spec fn sub_spec(cpu: Z80, rhs: u8, with_carry: bool) -> Z80 {
    let borrow_in = with_carry && cpu.flag_spec(Flag::C);
    let r = sub_with_borrow(cpu.acc(), rhs, borrow_in);
    with_sub_flags(
        cpu.with_reg(Register::A, r.0 as u16),
        r,
        sub_overflows(cpu.acc(), rhs, borrow_in),
    )
}

/// The register file after `CP s`: the flags of the subtraction, with the
/// accumulator kept.
#[verifier::opaque]
pub open spec fn cp_spec(cpu: Z80, rhs: u8) -> Z80 {
    with_sub_flags(
        cpu,
        sub_with_borrow(cpu.acc(), rhs, false),
        sub_overflows(cpu.acc(), rhs, false),
    )
}

/// The register file after a logic instruction that leaves `result` in
/// the accumulator: sign and zero follow the result, parity/overflow is
/// set on even parity, add/subtract and carry are reset, and half-carry
/// is set by `AND` and reset by `OR` and `XOR`.
#[verifier::opaque]
pub open spec fn logic_spec(cpu: Z80, result: u8, half: bool) -> Z80 {
    cpu.with_reg(Register::A, result as u16).with_flag(Flag::S, result >= 0x80).with_flag(
        Flag::Z,
        result == 0,
    ).with_flag(Flag::H, half).with_flag(Flag::PV, even_parity(result)).with_flag(
        Flag::N,
        false,
    ).with_flag(Flag::C, false)
}

/// The register file with the flags as incrementing `operand` leaves
/// them: as after adding one, but for the carry flag, which is kept.
pub open spec fn with_inc_flags(cpu: Z80, operand: u8) -> Z80 {
    let r = ALU::add_spec(operand, 1);
    cpu.with_flag(Flag::S, r.sum >= 0x80).with_flag(Flag::Z, r.sum == 0).with_flag(
        Flag::H,
        r.carry3,
    ).with_flag(Flag::PV, r.overflow).with_flag(Flag::N, false)
}

/// The register file with the flags as decrementing `operand` leaves
/// them: as after subtracting one, but for the carry flag, which is kept.
pub open spec fn with_dec_flags(cpu: Z80, operand: u8) -> Z80 {
    let r = ALU::sub_spec(operand, 1);
    cpu.with_flag(Flag::S, r.0 >= 0x80).with_flag(Flag::Z, r.0 == 0).with_flag(
        Flag::H,
        r.1,
    ).with_flag(Flag::PV, sub_overflows(operand, 1, false)).with_flag(Flag::N, true)
}

/// Reduction to eight bits of a number that is off by less than 256.
pub proof fn lemma_wrap8(x: int)
    requires
        -256 <= x < 512,
    ensures
        wrap8(x) == (if x < 0 {
            x + 256
        } else if x >= 256 {
            x - 256
        } else {
            x
        }),
{
}

/// Adding the operand and then the carry that comes in, each through the
/// ALU, gives the sum and the carries of the whole addition.
pub proof fn lemma_add_chain(a: u8, rhs: u8, carry_in: bool)
    ensures
        ({
            let c = unit(carry_in) as u8;
            let first = ALU::add_spec(a, rhs);
            let second = ALU::add_spec(first.sum, c);
            let whole = add_with_carry(a, rhs, carry_in);
            &&& second.sum == whole.sum
            &&& (first.carry3 || second.carry3) == whole.carry3
            &&& (first.carry7 || second.carry7) == whole.carry7
            &&& (whole.sum == a + rhs + c || whole.sum + 256 == a + rhs + c)
            &&& whole.overflow == ((a < 128 && rhs < 128 && a + rhs + c >= 128) || (a >= 128 && rhs
                >= 128 && a + rhs + c < 384))
        }),
{
    let c = unit(carry_in);
    lemma_wrap8(a + rhs);
    lemma_wrap8(a + rhs + c);
    let s1 = wrap8(a + rhs);
    lemma_wrap8(s1 + c);
    let (x, y) = (a % 16, rhs % 16);
    assert(a == 16 * (a / 16) + x && rhs == 16 * (rhs / 16) + y);
    assert(s1 % 16 == (if x + y > 15 {
        x + y - 16
    } else {
        x + y
    })) by {
        if a + rhs > 255 {
            assert(s1 == 16 * (a / 16 + rhs / 16 - 16) + (x + y));
        } else {
            assert(s1 == 16 * (a / 16 + rhs / 16) + (x + y));
        }
    }
}

/// Subtracting the operand and then the borrow that comes in, each
/// through the ALU, gives the difference and the borrows of the whole
/// subtraction.
pub proof fn lemma_sub_chain(a: u8, rhs: u8, borrow_in: bool)
    ensures
        ({
            let c = unit(borrow_in) as u8;
            let first = ALU::sub_spec(a, rhs);
            let second = ALU::sub_spec(first.0, c);
            let whole = sub_with_borrow(a, rhs, borrow_in);
            &&& second.0 == whole.0
            &&& (first.1 || second.1) == whole.1
            &&& (first.2 || second.2) == whole.2
            &&& ((a >= rhs + c && whole.0 + rhs + c == a) || (a < rhs + c && whole.0 + rhs + c == a
                + 256))
            &&& sub_overflows(a, rhs, borrow_in) == ((a >= 128 && rhs < 128 && a < 128 + rhs + c)
                || (a < 128 && rhs >= 128 && a + 128 >= rhs + c))
        }),
{
    let c = unit(borrow_in);
    lemma_wrap8(a - rhs);
    lemma_wrap8(a - rhs - c);
    let d1 = wrap8(a - rhs);
    lemma_wrap8(d1 - c);
    let (x, y) = (a % 16, rhs % 16);
    assert(a == 16 * (a / 16) + x && rhs == 16 * (rhs / 16) + y);
    assert(d1 % 16 == (if x < y {
        x - y + 16
    } else {
        x - y
    })) by {
        if a < rhs {
            if x < y {
                assert(d1 == 16 * (a / 16 - rhs / 16 + 15) + (x - y + 16));
            } else {
                assert(d1 == 16 * (a / 16 - rhs / 16 + 16) + (x - y));
            }
        } else {
            if x < y {
                assert(d1 == 16 * (a / 16 - rhs / 16 - 1) + (x - y + 16));
            } else {
                assert(d1 == 16 * (a / 16 - rhs / 16) + (x - y));
            }
        }
    }
}

/// Stores a sum in the accumulator and sets the flags.
#[inline]
fn store_sum(cpu: &mut Z80, r: ALUAdd)
    ensures
        *final(cpu) == with_add_flags(old(cpu).with_reg(Register::A, r.sum as u16), r),
{
    cpu.set_reg(Register::A, r.sum as u16);
    cpu.set_flag(Flag::S, r.sum >= 0x80);
    cpu.set_flag(Flag::Z, r.sum == 0);
    cpu.set_flag(Flag::H, r.carry3);
    cpu.set_flag(Flag::PV, r.overflow);
    cpu.set_flag(Flag::N, false);
    cpu.set_flag(Flag::C, r.carry7);
}

/// Sets the flags of a subtraction.
#[inline]
fn store_sub_flags(cpu: &mut Z80, r: ALUSub, overflow: bool)
    ensures
        *final(cpu) == with_sub_flags(*old(cpu), r, overflow),
{
    cpu.set_flag(Flag::S, r.0 >= 0x80);
    cpu.set_flag(Flag::Z, r.0 == 0);
    cpu.set_flag(Flag::H, r.1);
    cpu.set_flag(Flag::PV, overflow);
    cpu.set_flag(Flag::N, true);
    cpu.set_flag(Flag::C, r.2);
}

/// Adds the operand to the accumulator.
#[inline]
fn add(cpu: &mut Z80, rhs: u8)
    ensures
        *final(cpu) == add_spec(*old(cpu), rhs, false),
{
    reveal(add_spec);
    let r = ALU::add(cpu.af.hi(), rhs);
    proof {
        lemma_add_chain(cpu.acc(), rhs, false);
    }
    assert(r == add_with_carry(cpu.acc(), rhs, false));
    store_sum(cpu, r);
}

/// Adds the operand and the carry flag to the accumulator.
#[inline]
fn add_carry(cpu: &mut Z80, rhs: u8)
    ensures
        *final(cpu) == add_spec(*old(cpu), rhs, true),
{
    reveal(add_spec);
    let c: u8 = if cpu.flag(Flag::C) {
        1
    } else {
        0
    };
    let a: u8 = cpu.af.hi();
    let first = ALU::add(a, rhs);
    let second = ALU::add(first.sum, c);
    proof {
        lemma_add_chain(a, rhs, c == 1);
        lemma_add_overflow_bits(a, rhs, c, second.sum);
    }
    let overflow: bool = (a ^ second.sum) & (rhs ^ second.sum) & 0x80 != 0;
    let r = ALUAdd::new(
        second.sum,
        first.carry3 || second.carry3,
        first.carry7 || second.carry7,
        overflow,
    );
    assert(r == add_with_carry(a, rhs, c == 1));
    store_sum(cpu, r);
}

/// Whether a byte has an even number of set bits.
pub fn parity_even(x: u8) -> (even: bool)
    ensures
        even == even_parity(x),
{
    proof {
        lemma_parity_fold(x);
    }
    let a: u8 = x ^ (x >> 4);
    let b: u8 = a ^ (a >> 2);
    let c: u8 = b ^ (b >> 1);
    c & 1 == 0
}

/// Stores the result of a logic instruction in the accumulator and sets
/// the flags.
#[inline]
fn store_logic(cpu: &mut Z80, result: u8, half: bool)
    ensures
        *final(cpu) == logic_spec(*old(cpu), result, half),
{
    reveal(logic_spec);
    cpu.set_reg(Register::A, result as u16);
    cpu.set_flag(Flag::S, result >= 0x80);
    cpu.set_flag(Flag::Z, result == 0);
    cpu.set_flag(Flag::H, half);
    cpu.set_flag(Flag::PV, parity_even(result));
    cpu.set_flag(Flag::N, false);
    cpu.set_flag(Flag::C, false);
}

/// Subtracts `rhs` and, where `borrow_in` holds, one more from the
/// accumulator's value, through the ALU.
#[inline]
fn difference(a: u8, rhs: u8, borrow_in: bool) -> (out: (ALUSub, bool))
    ensures
        out.0 == sub_with_borrow(a, rhs, borrow_in),
        out.1 == sub_overflows(a, rhs, borrow_in),
{
    let c: u8 = if borrow_in {
        1
    } else {
        0
    };
    let first = ALU::sub(a, rhs);
    let second = ALU::sub(first.0, c);
    proof {
        lemma_sub_chain(a, rhs, borrow_in);
        lemma_sub_overflow_bits(a, rhs, c, second.0);
    }
    let overflow: bool = (a ^ rhs) & (a ^ second.0) & 0x80 != 0;
    (ALUSub(second.0, first.1 || second.1, first.2 || second.2), overflow)
}

/// The low byte of a register, the operand of the forms that name a
/// register.
#[inline]
pub fn operand_r(cpu: &Z80, r: Register) -> (rhs: u8)
    ensures
        rhs == reg_byte(*cpu, r),
{
    cpu.reg(r).lo()
}

/// The byte at HL, the operand of the `(HL)` forms.
#[inline]
pub fn operand_hl(cpu: &Z80, mem: &[u8]) -> (rhs: u8)
    requires
        cpu.hl < mem@.len(),
    ensures
        rhs == mem@[cpu.hl as int],
{
    mem[cpu.reg(Register::HL) as usize]
}

/// The byte at IX plus `d`, the operand of the `(IX+d)` forms.
#[inline]
pub fn operand_ix(cpu: &Z80, d: i8, mem: &[u8]) -> (rhs: u8)
    requires
        indexed(cpu.index_x, d) < mem@.len(),
    ensures
        rhs == mem@[indexed(cpu.index_x, d) as int],
{
    mem[cpu.index_x.wrapping_add_signed(d as i16) as usize]
}

/// The byte at IY plus `d`, the operand of the `(IY+d)` forms.
#[inline]
pub fn operand_iy(cpu: &Z80, d: i8, mem: &[u8]) -> (rhs: u8)
    requires
        indexed(cpu.index_y, d) < mem@.len(),
    ensures
        rhs == mem@[indexed(cpu.index_y, d) as int],
{
    mem[cpu.index_y.wrapping_add_signed(d as i16) as usize]
}

/// `ADD A, r`, or `ADC A, r` where `carry` holds.
#[inline]
pub fn add_a_r(cpu: &mut Z80, r: Register, carry: bool)
    ensures
        *final(cpu) == add_spec(*old(cpu), reg_byte(*old(cpu), r), carry),
{
    let rhs: u8 = operand_r(cpu, r);
    if carry {
        add_carry(cpu, rhs);
    } else {
        self::add(cpu, rhs);
    }
}

/// `ADD A, n`, or `ADC A, n` where `carry` holds.
#[inline]
pub fn add_a_n(cpu: &mut Z80, n: u8, carry: bool)
    ensures
        *final(cpu) == add_spec(*old(cpu), n, carry),
{
    if carry {
        add_carry(cpu, n);
    } else {
        self::add(cpu, n);
    }
}

/// `ADD A, (HL)`, or `ADC A, (HL)` where `carry` holds.
#[inline]
pub fn add_a_hl(cpu: &mut Z80, mem: &[u8], carry: bool)
    requires
        old(cpu).hl < mem@.len(),
    ensures
        *final(cpu) == add_spec(*old(cpu), mem@[old(cpu).hl as int], carry),
{
    let rhs: u8 = operand_hl(cpu, mem);
    if carry {
        add_carry(cpu, rhs);
    } else {
        self::add(cpu, rhs);
    }
}

/// `ADD A, (IX+d)`, or `ADC A, (IX+d)` where `carry` holds.
#[inline]
pub fn add_a_ix(cpu: &mut Z80, d: i8, mem: &[u8], carry: bool)
    requires
        indexed(old(cpu).index_x, d) < mem@.len(),
    ensures
        *final(cpu) == add_spec(*old(cpu), mem@[indexed(old(cpu).index_x, d) as int], carry),
{
    let rhs: u8 = operand_ix(cpu, d, mem);
    if carry {
        add_carry(cpu, rhs);
    } else {
        self::add(cpu, rhs);
    }
}

/// `ADD A, (IY+d)`, or `ADC A, (IY+d)` where `carry` holds.
#[inline]
pub fn add_a_iy(cpu: &mut Z80, d: i8, mem: &[u8], carry: bool)
    requires
        indexed(old(cpu).index_y, d) < mem@.len(),
    ensures
        *final(cpu) == add_spec(*old(cpu), mem@[indexed(old(cpu).index_y, d) as int], carry),
{
    let rhs: u8 = operand_iy(cpu, d, mem);
    if carry {
        add_carry(cpu, rhs);
    } else {
        self::add(cpu, rhs);
    }
}

/// `SUB A, s`, or `SBC A, s` where `carry` holds, for the operand `rhs`.
#[inline]
pub fn sub_a(cpu: &mut Z80, rhs: u8, carry: bool)
    ensures
        *final(cpu) == sub_spec(*old(cpu), rhs, carry),
{
    reveal(sub_spec);
    let borrow_in: bool = carry && cpu.flag(Flag::C);
    let (r, overflow) = difference(cpu.af.hi(), rhs, borrow_in);
    cpu.set_reg(Register::A, r.0 as u16);
    store_sub_flags(cpu, r, overflow);
}

/// `CP s` for the operand `rhs`.
#[inline]
pub fn cp_a(cpu: &mut Z80, rhs: u8)
    ensures
        *final(cpu) == cp_spec(*old(cpu), rhs),
{
    reveal(cp_spec);
    let (r, overflow) = difference(cpu.af.hi(), rhs, false);
    store_sub_flags(cpu, r, overflow);
}

/// `AND A, s` for the operand `rhs`.
#[inline]
pub fn and_a(cpu: &mut Z80, rhs: u8)
    ensures
        *final(cpu) == logic_spec(*old(cpu), old(cpu).acc() & rhs, true),
{
    let result: u8 = cpu.af.hi() & rhs;
    store_logic(cpu, result, true);
}

/// `OR A, s` for the operand `rhs`.
#[inline]
pub fn or_a(cpu: &mut Z80, rhs: u8)
    ensures
        *final(cpu) == logic_spec(*old(cpu), old(cpu).acc() | rhs, false),
{
    let result: u8 = cpu.af.hi() | rhs;
    store_logic(cpu, result, false);
}

/// `XOR A, s` for the operand `rhs`.
#[inline]
pub fn xor_a(cpu: &mut Z80, rhs: u8)
    ensures
        *final(cpu) == logic_spec(*old(cpu), old(cpu).acc() ^ rhs, false),
{
    let result: u8 = cpu.af.hi() ^ rhs;
    store_logic(cpu, result, false);
}

/// Sets the flags of an increment of `operand` and returns the new value.
#[inline]
fn increment(cpu: &mut Z80, operand: u8) -> (sum: u8)
    ensures
        *final(cpu) == with_inc_flags(*old(cpu), operand),
        sum == wrap8(operand + 1),
{
    let r = ALU::increment(operand);
    cpu.set_flag(Flag::S, r.sum >= 0x80);
    cpu.set_flag(Flag::Z, r.sum == 0);
    cpu.set_flag(Flag::H, r.carry3);
    cpu.set_flag(Flag::PV, r.overflow);
    cpu.set_flag(Flag::N, false);
    r.sum
}

/// Sets the flags of a decrement of `operand` and returns the new value.
#[inline]
fn decrement(cpu: &mut Z80, operand: u8) -> (diff: u8)
    ensures
        *final(cpu) == with_dec_flags(*old(cpu), operand),
        diff == wrap8(operand - 1),
{
    let r = ALU::sub(operand, 1);
    cpu.set_flag(Flag::S, r.0 >= 0x80);
    cpu.set_flag(Flag::Z, r.0 == 0);
    cpu.set_flag(Flag::H, r.1);
    cpu.set_flag(Flag::PV, operand == 0x80);
    cpu.set_flag(Flag::N, true);
    r.0
}

/// `INC r`
#[inline]
pub fn inc_r(cpu: &mut Z80, r: Register)
    ensures
        *final(cpu) == with_inc_flags(
            old(cpu).with_reg(r, wrap8(reg_byte(*old(cpu), r) + 1) as u16),
            reg_byte(*old(cpu), r),
        ),
{
    let operand: u8 = operand_r(cpu, r);
    let r1 = ALU::increment(operand);
    cpu.set_reg(r, r1.sum as u16);
    increment(cpu, operand);
}

/// `DEC r`
#[inline]
pub fn dec_r(cpu: &mut Z80, r: Register)
    ensures
        *final(cpu) == with_dec_flags(
            old(cpu).with_reg(r, wrap8(reg_byte(*old(cpu), r) - 1) as u16),
            reg_byte(*old(cpu), r),
        ),
{
    let operand: u8 = operand_r(cpu, r);
    cpu.set_reg(r, operand.wrapping_sub(1) as u16);
    decrement(cpu, operand);
}

/// Increments the byte at `addr`.
#[inline]
fn inc_at(cpu: &mut Z80, addr: u16, memory: &mut [u8])
    requires
        addr < old(memory)@.len(),
    ensures
        *final(cpu) == with_inc_flags(*old(cpu), old(memory)@[addr as int]),
        final(memory)@ == old(memory)@.update(
            addr as int,
            wrap8(old(memory)@[addr as int] + 1),
        ),
{
    let idx: usize = addr as usize;
    let sum: u8 = increment(cpu, memory[idx]);
    memory[idx] = sum;
}

/// Decrements the byte at `addr`.
#[inline]
fn dec_at(cpu: &mut Z80, addr: u16, memory: &mut [u8])
    requires
        addr < old(memory)@.len(),
    ensures
        *final(cpu) == with_dec_flags(*old(cpu), old(memory)@[addr as int]),
        final(memory)@ == old(memory)@.update(
            addr as int,
            wrap8(old(memory)@[addr as int] - 1),
        ),
{
    let idx: usize = addr as usize;
    let diff: u8 = decrement(cpu, memory[idx]);
    memory[idx] = diff;
}

/// `INC (HL)`
#[inline]
pub fn inc_hl(cpu: &mut Z80, memory: &mut [u8])
    requires
        old(cpu).hl < old(memory)@.len(),
    ensures
        *final(cpu) == with_inc_flags(*old(cpu), old(memory)@[old(cpu).hl as int]),
        final(memory)@ == old(memory)@.update(
            old(cpu).hl as int,
            wrap8(old(memory)@[old(cpu).hl as int] + 1),
        ),
{
    let addr: u16 = cpu.reg(Register::HL);
    inc_at(cpu, addr, memory);
}

/// `INC (IX+d)`
#[inline]
pub fn inc_ix(cpu: &mut Z80, d: i8, memory: &mut [u8])
    requires
        indexed(old(cpu).index_x, d) < old(memory)@.len(),
    ensures
        *final(cpu) == with_inc_flags(
            *old(cpu),
            old(memory)@[indexed(old(cpu).index_x, d) as int],
        ),
        final(memory)@ == old(memory)@.update(
            indexed(old(cpu).index_x, d) as int,
            wrap8(old(memory)@[indexed(old(cpu).index_x, d) as int] + 1),
        ),
{
    let addr: u16 = cpu.index_x.wrapping_add_signed(d as i16);
    inc_at(cpu, addr, memory);
}

/// `INC (IY+d)`
#[inline]
pub fn inc_iy(cpu: &mut Z80, d: i8, memory: &mut [u8])
    requires
        indexed(old(cpu).index_y, d) < old(memory)@.len(),
    ensures
        *final(cpu) == with_inc_flags(
            *old(cpu),
            old(memory)@[indexed(old(cpu).index_y, d) as int],
        ),
        final(memory)@ == old(memory)@.update(
            indexed(old(cpu).index_y, d) as int,
            wrap8(old(memory)@[indexed(old(cpu).index_y, d) as int] + 1),
        ),
{
    let addr: u16 = cpu.index_y.wrapping_add_signed(d as i16);
    inc_at(cpu, addr, memory);
}

/// `DEC (HL)`
#[inline]
pub fn dec_hl(cpu: &mut Z80, memory: &mut [u8])
    requires
        old(cpu).hl < old(memory)@.len(),
    ensures
        *final(cpu) == with_dec_flags(*old(cpu), old(memory)@[old(cpu).hl as int]),
        final(memory)@ == old(memory)@.update(
            old(cpu).hl as int,
            wrap8(old(memory)@[old(cpu).hl as int] - 1),
        ),
{
    let addr: u16 = cpu.reg(Register::HL);
    dec_at(cpu, addr, memory);
}

/// `DEC (IX+d)`
#[inline]
pub fn dec_ix(cpu: &mut Z80, d: i8, memory: &mut [u8])
    requires
        indexed(old(cpu).index_x, d) < old(memory)@.len(),
    ensures
        *final(cpu) == with_dec_flags(
            *old(cpu),
            old(memory)@[indexed(old(cpu).index_x, d) as int],
        ),
        final(memory)@ == old(memory)@.update(
            indexed(old(cpu).index_x, d) as int,
            wrap8(old(memory)@[indexed(old(cpu).index_x, d) as int] - 1),
        ),
{
    let addr: u16 = cpu.index_x.wrapping_add_signed(d as i16);
    dec_at(cpu, addr, memory);
}

/// `DEC (IY+d)`
#[inline]
pub fn dec_iy(cpu: &mut Z80, d: i8, memory: &mut [u8])
    requires
        indexed(old(cpu).index_y, d) < old(memory)@.len(),
    ensures
        *final(cpu) == with_dec_flags(
            *old(cpu),
            old(memory)@[indexed(old(cpu).index_y, d) as int],
        ),
        final(memory)@ == old(memory)@.update(
            indexed(old(cpu).index_y, d) as int,
            wrap8(old(memory)@[indexed(old(cpu).index_y, d) as int] - 1),
        ),
{
    let addr: u16 = cpu.index_y.wrapping_add_signed(d as i16);
    dec_at(cpu, addr, memory);
}

} // verus!
