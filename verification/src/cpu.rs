//! The register file and the flag codec.

use crate::bits::{lemma_bit_mask, lemma_bit_order, lemma_bit_update, lemma_bytes};
use crate::hi_lo::HiLo;
use vstd::arithmetic::power2::{lemma2_to64, pow2};
use vstd::prelude::*;

verus! {

/// Names of the registers that instructions select.
#[derive(Clone, Copy, Debug, PartialEq, Eq, Structural)]
pub enum Register {
    /// Accumulator register
    A,
    /// Flag register
    F,
    /// B register
    B,
    /// C register
    C,
    /// BC register pair
    BC,
    /// D register
    D,
    /// E register
    E,
    /// DE register pair
    DE,
    /// H register
    H,
    /// L register
    L,
    /// HL register pair
    HL,
}

/// Names of the status flags held in the F register.
#[derive(Clone, Copy, Debug, PartialEq, Eq, Structural)]
pub enum Flag {
    /// Carry flag, bit 0
    C,
    /// Add/subtract flag, bit 1
    N,
    /// Parity/overflow flag, bit 2
    PV,
    /// Half-carry flag, bit 4
    H,
    /// Zero flag, bit 6
    Z,
    /// Sign flag, bit 7
    S,
}

/// Names of the jump conditions.
#[derive(Clone, Copy, Debug, PartialEq, Eq, Structural)]
pub enum Condition {
    /// Non-zero
    NZ,
    /// Zero
    Z,
    /// No carry
    NC,
    /// Carry
    C,
    /// Parity odd
    PO,
    /// Parity even
    PE,
    /// Sign positive
    P,
    /// Sign negative
    M,
}

/// Whether `weight` is the weight of one of the eight bits of a byte.
pub open spec fn is_bit_weight(weight: int) -> bool {
    weight == 1 || weight == 2 || weight == 4 || weight == 8 || weight == 16 || weight == 32
        || weight == 64 || weight == 128
}

/// Whether the bit of the given weight (a power of two) is set in a word.
#[verifier::opaque]
pub open spec fn bit_at(word: u16, weight: int) -> bool {
    (word as int / weight) % 2 == 1
}

/// The word with the bit of the given weight set to `val` and every other
/// bit as it was.
#[verifier::opaque]
pub open spec fn with_bit(word: u16, weight: int, val: bool) -> u16 {
    (word - (if bit_at(word, weight) {
        weight
    } else {
        0
    }) + (if val {
        weight
    } else {
        0
    })) as u16
}

/// An integer reduced to sixteen bits: addresses and register pairs wrap
/// around.
pub open spec fn wrap16(x: int) -> u16 {
    (x % 0x1_0000) as u16
}

/// An integer reduced to eight bits: half registers wrap around.
pub open spec fn wrap8(x: int) -> u8 {
    (x % 0x100) as u8
}

/// The address at a displacement from an index register.
pub open spec fn indexed(base: u16, d: i8) -> u16 {
    wrap16(base + d)
}

impl Register {
    /// Whether the register is one of the 8-bit halves.
    pub open spec fn is_half(self) -> bool {
        !(self is BC || self is DE || self is HL)
    }

    /// Whether the two names reach a common byte of the register file: they
    /// are the same register, or one is a pair and the other a half of it.
    pub open spec fn overlaps(self, other: Register) -> bool {
        self == other || self.holds(other) || other.holds(self)
    }

    /// Whether this register is a pair and `half` one of its two halves.
    pub open spec fn holds(self, half: Register) -> bool {
        match self {
            Register::BC => half is B || half is C,
            Register::DE => half is D || half is E,
            Register::HL => half is H || half is L,
            _ => false,
        }
    }

    /// The bits of a value that the register holds: all sixteen for a
    /// pair, the low eight for a half.
    pub open spec fn mask(self) -> u16 {
        if self.is_half() {
            0x00ff
        } else {
            0xffff
        }
    }
}

impl Flag {
    /// The position of the flag's bit in the F register.
    pub open spec fn bit(self) -> nat {
        match self {
            Flag::C => 0,
            Flag::N => 1,
            Flag::PV => 2,
            Flag::H => 4,
            Flag::Z => 6,
            Flag::S => 7,
        }
    }

    /// The weight of the flag's bit: two to the power of its position.
    pub open spec fn weight(self) -> int {
        match self {
            Flag::C => 1,
            Flag::N => 2,
            Flag::PV => 4,
            Flag::H => 16,
            Flag::Z => 64,
            Flag::S => 128,
        }
    }

    /// The byte that has the flag's bit set and no other.
    pub fn mask(self) -> (m: u8)
        ensures
            m == self.weight(),
    {
        match self {
            Flag::C => 0x01,
            Flag::N => 0x02,
            Flag::PV => 0x04,
            Flag::H => 0x10,
            Flag::Z => 0x40,
            Flag::S => 0x80,
        }
    }
}

/// Emulated Z80 CPU: the register file.
#[derive(Clone, Copy, Debug, PartialEq, Eq)]
pub struct Z80 {
    /// Main AF register pair
    pub af: u16,
    /// Alternate AF register pair
    pub af1: u16,
    /// Main BC register pair
    pub bc: u16,
    /// Alternate BC register pair
    pub bc1: u16,
    /// Main DE register pair
    pub de: u16,
    /// Alternate DE register pair
    pub de1: u16,
    /// Main HL register pair
    pub hl: u16,
    /// Alternate HL register pair
    pub hl1: u16,
    /// Index register X
    pub index_x: u16,
    /// Index register Y
    pub index_y: u16,
    /// Stack pointer
    pub stack_ptr: u16,
    /// Interrupt vector
    pub interrupt: u8,
    /// Memory refresh
    pub refresh: u8,
    /// Program counter
    pub prog_counter: u16,
}

impl Default for Z80 {
    /// A CPU after reset: every register, flag and the program counter zero.
    fn default() -> (cpu: Z80)
        ensures
            cpu == Z80::reset(),
    {
        Z80 {
            af: 0,
            af1: 0,
            bc: 0,
            bc1: 0,
            de: 0,
            de1: 0,
            hl: 0,
            hl1: 0,
            index_x: 0,
            index_y: 0,
            stack_ptr: 0,
            interrupt: 0,
            refresh: 0,
            prog_counter: 0,
        }
    }
}

impl Z80 {
    /// The register file with everything zero.
    pub open spec fn reset() -> Z80 {
        Z80 {
            af: 0,
            af1: 0,
            bc: 0,
            bc1: 0,
            de: 0,
            de1: 0,
            hl: 0,
            hl1: 0,
            index_x: 0,
            index_y: 0,
            stack_ptr: 0,
            interrupt: 0,
            refresh: 0,
            prog_counter: 0,
        }
    }

    /// The accumulator: the high byte of AF.
    pub open spec fn acc(&self) -> u8 {
        self.af.hi_spec()
    }

    /// The flag byte: the low byte of AF.
    pub open spec fn flags(&self) -> u8 {
        self.af.lo_spec()
    }

    /// The value of a register. A half is the high or the low byte of its
    /// pair, in the low eight bits of the result.
    pub open spec fn reg_spec(&self, reg: Register) -> u16 {
        match reg {
            Register::A => self.af.hi_spec() as u16,
            Register::F => self.af.lo_spec() as u16,
            Register::B => self.bc.hi_spec() as u16,
            Register::C => self.bc.lo_spec() as u16,
            Register::BC => self.bc,
            Register::D => self.de.hi_spec() as u16,
            Register::E => self.de.lo_spec() as u16,
            Register::DE => self.de,
            Register::H => self.hl.hi_spec() as u16,
            Register::L => self.hl.lo_spec() as u16,
            Register::HL => self.hl,
        }
    }

    /// The register file after a register is set. A half takes the low
    /// eight bits of `val` and leaves the other half of its pair alone.
    pub open spec fn with_reg(self, reg: Register, val: u16) -> Z80 {
        let byte = (val % 256) as u8;
        match reg {
            Register::A => Z80 { af: self.af.with_hi(byte), ..self },
            Register::F => Z80 { af: self.af.with_lo(byte), ..self },
            Register::B => Z80 { bc: self.bc.with_hi(byte), ..self },
            Register::C => Z80 { bc: self.bc.with_lo(byte), ..self },
            Register::BC => Z80 { bc: val, ..self },
            Register::D => Z80 { de: self.de.with_hi(byte), ..self },
            Register::E => Z80 { de: self.de.with_lo(byte), ..self },
            Register::DE => Z80 { de: val, ..self },
            Register::H => Z80 { hl: self.hl.with_hi(byte), ..self },
            Register::L => Z80 { hl: self.hl.with_lo(byte), ..self },
            Register::HL => Z80 { hl: val, ..self },
        }
    }

    /// Whether a status flag is set: its bit of the flag byte, the low byte
    /// of AF.
    pub open spec fn flag_spec(&self, f: Flag) -> bool {
        bit_at(self.af, f.weight())
    }

    /// The register file after a status flag is set or cleared: only the
    /// flag's bit of AF can differ.
    pub open spec fn with_flag(self, f: Flag, val: bool) -> Z80 {
        Z80 { af: with_bit(self.af, f.weight(), val), ..self }
    }

    /// Returns the value of the specified register.
    ///
    /// If a single-width register is specified, only the lower 8 bits of
    /// the return value can be set.
    pub fn reg(&self, reg: Register) -> (val: u16)
        ensures
            val == self.reg_spec(reg),
    {
        match reg {
            Register::A => self.af.hi() as u16,
            Register::F => self.af.lo() as u16,
            Register::B => self.bc.hi() as u16,
            Register::C => self.bc.lo() as u16,
            Register::BC => self.bc,
            Register::D => self.de.hi() as u16,
            Register::E => self.de.lo() as u16,
            Register::DE => self.de,
            Register::H => self.hl.hi() as u16,
            Register::L => self.hl.lo() as u16,
            Register::HL => self.hl,
        }
    }

    /// Sets the value of the specified register.
    ///
    /// When setting a single-width register, only the lower 8 bits of `val`
    /// are used.
    pub fn set_reg(&mut self, reg: Register, val: u16)
        ensures
            *final(self) == old(self).with_reg(reg, val),
    {
        proof {
            lemma_bytes(val, 0);
        }
        let byte: u8 = (val & 0x00ff) as u8;
        match reg {
            Register::A => self.af.set_hi(byte),
            Register::F => self.af.set_lo(byte),
            Register::B => self.bc.set_hi(byte),
            Register::C => self.bc.set_lo(byte),
            Register::BC => self.bc = val,
            Register::D => self.de.set_hi(byte),
            Register::E => self.de.set_lo(byte),
            Register::DE => self.de = val,
            Register::H => self.hl.set_hi(byte),
            Register::L => self.hl.set_lo(byte),
            Register::HL => self.hl = val,
        }
    }

    /// Returns whether the given status flag is set.
    pub fn flag(&self, f: Flag) -> (set: bool)
        ensures
            set == self.flag_spec(f),
    {
        let mask: u16 = f.mask() as u16;
        proof {
            reveal(bit_at);
            lemma_bit_mask(self.af, mask);
        }
        self.af & mask != 0
    }

    /// Sets or clears the given status flag.
    pub fn set_flag(&mut self, f: Flag, val: bool)
        ensures
            *final(self) == old(self).with_flag(f, val),
    {
        let mask: u16 = f.mask() as u16;
        proof {
            lemma_with_bit_ops(self.af, mask as int, val);
        }
        self.af = if val {
            self.af | mask
        } else {
            self.af & !mask
        };
    }

    /// Returns the part of memory that begins at the program counter.
    pub fn fetch<'a>(&self, memory: &'a [u8]) -> (window: &'a [u8])
        requires
            self.prog_counter <= memory@.len(),
        ensures
            window@ == memory@.subrange(self.prog_counter as int, memory@.len() as int),
    {
        &memory[self.prog_counter as usize..memory.len()]
    }
}

/// The low byte of a register: the register itself where it is a half.
pub open spec fn reg_byte(cpu: Z80, r: Register) -> u8 {
    (cpu.reg_spec(r) % 256) as u8
}

/// Each flag's weight is two to the power of its bit position, and its
/// bit lies in the flag byte.
pub proof fn law_flag_weight(f: Flag)
    ensures
        f.weight() == pow2(f.bit()),
        f.bit() < 8,
        is_bit_weight(f.weight()),
{
    lemma2_to64();
}

/// Every pair is made of its two halves: the first named half is its high
/// byte and the second its low byte.
pub proof fn law_pair_of_halves(cpu: Z80)
    ensures
        cpu.reg_spec(Register::BC) == cpu.reg_spec(Register::B) * 256 + cpu.reg_spec(Register::C),
        cpu.reg_spec(Register::DE) == cpu.reg_spec(Register::D) * 256 + cpu.reg_spec(Register::E),
        cpu.reg_spec(Register::HL) == cpu.reg_spec(Register::H) * 256 + cpu.reg_spec(Register::L),
        cpu.af == cpu.reg_spec(Register::A) * 256 + cpu.reg_spec(Register::F),
        forall|r: Register| r.is_half() ==> cpu.reg_spec(r) < 256,
{
}

/// Replacing one half of a 16-bit word gives a word with that half and
/// with the other half as it was.
pub proof fn lemma_halves(x: u16, byte: u8)
    ensures
        x.with_hi(byte).hi_spec() == byte,
        x.with_hi(byte).lo_spec() == x.lo_spec(),
        x.with_lo(byte).lo_spec() == byte,
        x.with_lo(byte).hi_spec() == x.hi_spec(),
        x.with_hi(x.hi_spec()) == x,
        x.with_lo(x.lo_spec()) == x,
{
}

/// Reading a register after setting it gives the value that was set, cut
/// to the register's width; no register that shares no byte with it
/// changes, so setting a half leaves its sibling half alone; and nothing
/// outside AF, BC, DE and HL changes.
pub proof fn law_set_reg_then_reg(cpu: Z80, reg: Register, val: u16)
    ensures
        cpu.with_reg(reg, val).reg_spec(reg) == val & reg.mask(),
        forall|other: Register|
            !reg.overlaps(other) ==> cpu.with_reg(reg, val).reg_spec(other) == cpu.reg_spec(other),
        cpu.with_reg(reg, val) == (Z80 {
            af: cpu.with_reg(reg, val).af,
            bc: cpu.with_reg(reg, val).bc,
            de: cpu.with_reg(reg, val).de,
            hl: cpu.with_reg(reg, val).hl,
            ..cpu
        }),
{
    lemma_bytes(val, 0);
    assert(val & 0xffff == val) by (bit_vector);
    let byte = (val % 256) as u8;
    lemma_halves(cpu.af, byte);
    lemma_halves(cpu.bc, byte);
    lemma_halves(cpu.de, byte);
    lemma_halves(cpu.hl, byte);
    let after = cpu.with_reg(reg, val);
    assert(after.reg_spec(reg) == val & reg.mask());
    assert forall|other: Register| !reg.overlaps(other) implies after.reg_spec(other)
        == cpu.reg_spec(other) by {
        lemma_unshared(cpu, reg, val, other);
    }
}

/// Setting a register changes no register that shares no byte with it.
proof fn lemma_unshared(cpu: Z80, reg: Register, val: u16, other: Register)
    requires
        !reg.overlaps(other),
    ensures
        cpu.with_reg(reg, val).reg_spec(other) == cpu.reg_spec(other),
{
    let byte = (val % 256) as u8;
    lemma_halves(cpu.af, byte);
    lemma_halves(cpu.bc, byte);
    lemma_halves(cpu.de, byte);
    lemma_halves(cpu.hl, byte);
}

/// Setting a bit is an `or` with its mask, clearing it an `and` with the
/// complement of its mask.
pub proof fn lemma_with_bit_ops(word: u16, weight: int, val: bool)
    requires
        is_bit_weight(weight),
    ensures
        with_bit(word, weight, val) == (if val {
            word | (weight as u16)
        } else {
            word & !(weight as u16)
        }),
{
    reveal(bit_at);
    reveal(with_bit);
    lemma_bit_mask(word, weight as u16);
}

/// Setting one bit of the low byte of a word decides that bit and leaves
/// the seven others of that byte, and the high byte, as they were.
pub proof fn lemma_with_bit(word: u16, weight: int, val: bool)
    requires
        is_bit_weight(weight),
    ensures
        forall|other: int|
            is_bit_weight(other) ==> #[trigger] bit_at(with_bit(word, weight, val), other) == (
            if other == weight {
                val
            } else {
                bit_at(word, other)
            }),
        with_bit(word, weight, val).hi_spec() == word.hi_spec(),
{
    reveal(bit_at);
    let m = weight as u16;
    lemma_with_bit_ops(word, weight, val);
    lemma_bit_update(word, m, m);
    assert forall|other: int| is_bit_weight(other) implies #[trigger] bit_at(
        with_bit(word, weight, val),
        other,
    ) == (if other == weight {
        val
    } else {
        bit_at(word, other)
    }) by {
        lemma_bit_update(word, m, other as u16);
    }
}

/// Reading a flag after setting it gives the value that was set; no other
/// flag, neither of the two unused bits of the flag byte, nor the
/// accumulator changes.
pub proof fn law_set_flag_then_flag(cpu: Z80, f: Flag, val: bool)
    ensures
        cpu.with_flag(f, val).flag_spec(f) == val,
        forall|g: Flag|
            g != f ==> #[trigger] cpu.with_flag(f, val).flag_spec(g) == cpu.flag_spec(g),
        bit_at(cpu.with_flag(f, val).af, 8) == bit_at(cpu.af, 8),
        bit_at(cpu.with_flag(f, val).af, 32) == bit_at(cpu.af, 32),
        cpu.with_flag(f, val).acc() == cpu.acc(),
        cpu.with_flag(f, val) == (Z80 { af: cpu.with_flag(f, val).af, ..cpu }),
{
    lemma_with_bit(cpu.af, f.weight(), val);
    assert forall|g: Flag| g != f implies cpu.with_flag(f, val).flag_spec(g) == cpu.flag_spec(
        g,
    ) by {
        assert(is_bit_weight(g.weight()));
        assert(g.weight() != f.weight());
    }
    assert(is_bit_weight(8) && is_bit_weight(32));
}

/// Setting a flag to the value it has changes nothing, and of two settings
/// of one flag the later one stands.
pub proof fn law_set_flag_idempotent(cpu: Z80, f: Flag, first: bool, second: bool)
    ensures
        cpu.with_flag(f, cpu.flag_spec(f)) == cpu,
        cpu.with_flag(f, first).with_flag(f, second) == cpu.with_flag(f, second),
{
    let w = f.weight();
    lemma_with_bit_ops(cpu.af, w, first);
    lemma_with_bit_ops(cpu.af, w, second);
    lemma_with_bit_ops(with_bit(cpu.af, w, first), w, second);
    lemma_bit_order(cpu.af, w as u16, w as u16);
    assert(with_bit(cpu.af, w, bit_at(cpu.af, w)) == cpu.af) by {
        reveal(with_bit);
    }
}

/// Settings of two different flags can be made in either order.
pub proof fn law_set_flag_commutes(cpu: Z80, f: Flag, x: bool, g: Flag, y: bool)
    requires
        f != g,
    ensures
        cpu.with_flag(f, x).with_flag(g, y) == cpu.with_flag(g, y).with_flag(f, x),
{
    let (v, w) = (f.weight(), g.weight());
    lemma_with_bit_ops(cpu.af, v, x);
    lemma_with_bit_ops(cpu.af, w, y);
    lemma_with_bit_ops(with_bit(cpu.af, v, x), w, y);
    lemma_with_bit_ops(with_bit(cpu.af, w, y), v, x);
    lemma_bit_order(cpu.af, v as u16, w as u16);
    lemma_bit_order(cpu.af, w as u16, v as u16);
}

} // verus!
