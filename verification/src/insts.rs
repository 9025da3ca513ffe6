//! The instructions of the Z80 with their operands.

use crate::cpu::{Condition, Register};
use vstd::prelude::*;

verus! {

/// Short name of [`Instruction`].
pub type Instr = Instruction;

/// A single Z80 instruction with its arguments.
///
/// Relative jumps hold their displacement with the width of the
/// instruction, 2, already added. An instruction holds neither its address
/// nor its width.
#[derive(Clone, Copy, Debug, PartialEq, Eq, Structural)]
#[allow(non_camel_case_types)]
pub enum Instruction {
    // 8-Bit Load
    /// `LD r, r`
    LD_r_r(Register, Register),
    /// `LD r, n`
    LD_r_n(Register, u8),
    /// `LD r, (HL)`
    LD_r_HL(Register),
    /// `LD r, (IX+d)`
    LD_r_IX(Register, i8),
    /// `LD r, (IY+d)`
    LD_r_IY(Register, i8),
    /// `LD (HL), r`
    LD_HL_r(Register),
    /// `LD (IX+d), r`
    LD_IX_r(i8, Register),
    /// `LD (IY+d), r`
    LD_IY_r(i8, Register),
    /// `LD (HL), n`
    LD_HL_n(u8),
    /// `LD (IX+d), n`
    LD_IX_n(i8, u8),
    /// `LD (IY+d), n`
    LD_IY_n(i8, u8),
    /// `LD A, (BC)`
    LD_A_BC,
    /// `LD A, (DE)`
    LD_A_DE,
    /// `LD A, (nn)`
    LD_A_nn(u16),
    /// `LD (BC), A`
    LD_BC_A,
    /// `LD (DE), A`
    LD_DE_A,
    /// `LD (nn), A`
    LD_nn_A(u16),
    /// `LD A, I`
    LD_A_I,
    /// `LD A, R`
    LD_A_R,
    /// `LD I, A`
    LD_I_A,
    /// `LD R, A`
    LD_R_A,
    // Exchange and Transfer
    /// `EX DE, HL`
    EX_DE_HL,
    /// `EX AF, AF'`
    EX_AF_AF1,
    /// `EXX`
    EXX,
    /// `EX (SP), HL`
    EX_SP_HL,
    /// `EX (SP), IX`
    EX_SP_IX,
    /// `EX (SP), IY`
    EX_SP_IY,
    /// `LDI`
    LDI,
    /// `LDIR`
    LDIR,
    /// `LDD`
    LDD,
    /// `LDDR`
    LDDR,
    /// `CPI`
    CPI,
    /// `CPIR`
    CPIR,
    /// `CPD`
    CPD,
    /// `CPDR`
    CPDR,
    // 8-bit Arithmetic
    /// `ADD A, r`
    ADD_A_r(Register),
    /// `ADD A, n`
    ADD_A_n(u8),
    /// `ADD A, (HL)`
    ADD_A_HL,
    /// `ADD A, (IX+d)`
    ADD_A_IX(i8),
    /// `ADD A, (IY+d)`
    ADD_A_IY(i8),
    /// `ADC A, r`
    ADC_A_r(Register),
    /// `ADC A, n`
    ADC_A_n(u8),
    /// `ADC A, (HL)`
    ADC_A_HL,
    /// `ADC A, (IX+d)`
    ADC_A_IX(i8),
    /// `ADC A, (IY+d)`
    ADC_A_IY(i8),
    /// `SUB A, r`
    SUB_A_r(Register),
    /// `SUB A, n`
    SUB_A_n(u8),
    /// `SUB A, (HL)`
    SUB_A_HL,
    /// `SUB A, (IX+d)`
    SUB_A_IX(i8),
    /// `SUB A, (IY+d)`
    SUB_A_IY(i8),
    /// `SBC A, r`
    SBC_A_r(Register),
    /// `SBC A, n`
    SBC_A_n(u8),
    /// `SBC A, (HL)`
    SBC_A_HL,
    /// `SBC A, (IX+d)`
    SBC_A_IX(i8),
    /// `SBC A, (IY+d)`
    SBC_A_IY(i8),
    /// `AND A, r`
    AND_A_r(Register),
    /// `AND A, n`
    AND_A_n(u8),
    /// `AND A, (HL)`
    AND_A_HL,
    /// `AND A, (IX+d)`
    AND_A_IX(i8),
    /// `AND A, (IY+d)`
    AND_A_IY(i8),
    /// `OR A, r`
    OR_A_r(Register),
    /// `OR A, n`
    OR_A_n(u8),
    /// `OR A, (HL)`
    OR_A_HL,
    /// `OR A, (IX+d)`
    OR_A_IX(i8),
    /// `OR A, (IY+d)`
    OR_A_IY(i8),
    /// `XOR A, r`
    XOR_A_r(Register),
    /// `XOR A, n`
    XOR_A_n(u8),
    /// `XOR A, (HL)`
    XOR_A_HL,
    /// `XOR A, (IX+d)`
    XOR_A_IX(i8),
    /// `XOR A, (IY+d)`
    XOR_A_IY(i8),
    /// `CP r`
    CP_r(Register),
    /// `CP n`
    CP_n(u8),
    /// `CP (HL)`
    CP_HL,
    /// `CP (IX+d)`
    CP_IX(i8),
    /// `CP (IY+d)`
    CP_IY(i8),
    /// `INC r`
    INC_r(Register),
    /// `INC (HL)`
    INC_HL,
    /// `INC (IX+d)`
    INC_IX(i8),
    /// `INC (IY+d)`
    INC_IY(i8),
    /// `DEC r`
    DEC_r(Register),
    /// `DEC (HL)`
    DEC_HL,
    /// `DEC (IX+d)`
    DEC_IX(i8),
    /// `DEC (IY+d)`
    DEC_IY(i8),
    // Jump
    /// `JP nn`
    JP_nn(u16),
    /// `JP cc, nn`
    JP_cc_nn(Condition, u16),
    /// `JR e`
    JR_e(i8),
    /// `JR C, e`
    JR_C_e(i8),
    /// `JR NC, e`
    JR_NC_e(i8),
    /// `JR Z, e`
    JR_Z_e(i8),
    /// `JR NZ, e`
    JR_NZ_e(i8),
    /// `JP (HL)`
    JP_HL,
    /// `JP (IX)`
    JP_IX,
    /// `JP (IY)`
    JP_IY,
    /// `DJNZ e`
    DJNZ_e(i8),
}

/// The families of instructions, in the order in which the decoder tries
/// them.
#[derive(Clone, Copy, Debug, PartialEq, Eq, Structural)]
pub enum Family {
    /// 8-bit loads
    Load,
    /// Exchanges, block transfers and block searches
    Exchange,
    /// Jumps
    Jump,
    /// 8-bit arithmetic and logic
    Arith8,
}

impl Instruction {
    /// The family that the instruction belongs to.
    pub open spec fn family(self) -> Family {
        match self {
            Instruction::LD_r_r(..)
            | Instruction::LD_r_n(..)
            | Instruction::LD_r_HL(..)
            | Instruction::LD_r_IX(..)
            | Instruction::LD_r_IY(..)
            | Instruction::LD_HL_r(..)
            | Instruction::LD_IX_r(..)
            | Instruction::LD_IY_r(..)
            | Instruction::LD_HL_n(..)
            | Instruction::LD_IX_n(..)
            | Instruction::LD_IY_n(..)
            | Instruction::LD_A_BC
            | Instruction::LD_A_DE
            | Instruction::LD_A_nn(..)
            | Instruction::LD_BC_A
            | Instruction::LD_DE_A
            | Instruction::LD_nn_A(..)
            | Instruction::LD_A_I
            | Instruction::LD_A_R
            | Instruction::LD_I_A
            | Instruction::LD_R_A => Family::Load,
            Instruction::EX_DE_HL
            | Instruction::EX_AF_AF1
            | Instruction::EXX
            | Instruction::EX_SP_HL
            | Instruction::EX_SP_IX
            | Instruction::EX_SP_IY
            | Instruction::LDI
            | Instruction::LDIR
            | Instruction::LDD
            | Instruction::LDDR
            | Instruction::CPI
            | Instruction::CPIR
            | Instruction::CPD
            | Instruction::CPDR => Family::Exchange,
            Instruction::JP_nn(..)
            | Instruction::JP_cc_nn(..)
            | Instruction::JR_e(..)
            | Instruction::JR_C_e(..)
            | Instruction::JR_NC_e(..)
            | Instruction::JR_Z_e(..)
            | Instruction::JR_NZ_e(..)
            | Instruction::JP_HL
            | Instruction::JP_IX
            | Instruction::JP_IY
            | Instruction::DJNZ_e(..) => Family::Jump,
            _ => Family::Arith8,
        }
    }
}

} // verus!
