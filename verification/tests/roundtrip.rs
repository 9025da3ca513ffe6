use rz80::{Condition, Instr, Instruction, Register, Z80};

const REGS: [(Register, u8); 7] = [
    (Register::A, 7),
    (Register::B, 0),
    (Register::C, 1),
    (Register::D, 2),
    (Register::E, 3),
    (Register::H, 4),
    (Register::L, 5),
];

const CONDS: [(Condition, u8); 8] = [
    (Condition::NZ, 0),
    (Condition::Z, 1),
    (Condition::NC, 2),
    (Condition::C, 3),
    (Condition::PO, 4),
    (Condition::PE, 5),
    (Condition::P, 6),
    (Condition::M, 7),
];

const BYTES: [u8; 8] = [0x00, 0x01, 0x36, 0x7d, 0x7f, 0x80, 0xdd, 0xff];

const WORDS: [u16; 6] = [0x0000, 0x00ff, 0x0100, 0x1234, 0xed57, 0xffff];

/// Every supported instruction, over a choice of operands, beside the
/// bytes that encode it.
fn table() -> Vec<(Instruction, Vec<u8>)> {
    let mut t: Vec<(Instruction, Vec<u8>)> = Vec::new();
    for (r, c) in REGS {
        for (r1, c1) in REGS {
            t.push((Instr::LD_r_r(r, r1), vec![0x40 | c << 3 | c1]));
        }
        t.push((Instr::LD_r_HL(r), vec![0x46 | c << 3]));
        t.push((Instr::LD_HL_r(r), vec![0x70 | c]));
        t.push((Instr::ADD_A_r(r), vec![0x80 | c]));
        t.push((Instr::ADC_A_r(r), vec![0x88 | c]));
        t.push((Instr::SUB_A_r(r), vec![0x90 | c]));
        t.push((Instr::SBC_A_r(r), vec![0x98 | c]));
        t.push((Instr::AND_A_r(r), vec![0xa0 | c]));
        t.push((Instr::XOR_A_r(r), vec![0xa8 | c]));
        t.push((Instr::OR_A_r(r), vec![0xb0 | c]));
        t.push((Instr::CP_r(r), vec![0xb8 | c]));
        t.push((Instr::INC_r(r), vec![0x04 | c << 3]));
        t.push((Instr::DEC_r(r), vec![0x05 | c << 3]));
        for n in BYTES {
            t.push((Instr::LD_r_n(r, n), vec![0x06 | c << 3, n]));
            let d = n as i8;
            t.push((Instr::LD_r_IX(r, d), vec![0xdd, 0x46 | c << 3, n]));
            t.push((Instr::LD_r_IY(r, d), vec![0xfd, 0x46 | c << 3, n]));
            t.push((Instr::LD_IX_r(d, r), vec![0xdd, 0x70 | c, n]));
            t.push((Instr::LD_IY_r(d, r), vec![0xfd, 0x70 | c, n]));
        }
    }
    for n in BYTES {
        let d = n as i8;
        t.push((Instr::LD_HL_n(n), vec![0x36, n]));
        for m in BYTES {
            t.push((Instr::LD_IX_n(d, m), vec![0xdd, 0x36, n, m]));
            t.push((Instr::LD_IY_n(d, m), vec![0xfd, 0x36, n, m]));
        }
        t.push((Instr::ADD_A_n(n), vec![0xc6, n]));
        t.push((Instr::ADC_A_n(n), vec![0xce, n]));
        t.push((Instr::SUB_A_n(n), vec![0xd6, n]));
        t.push((Instr::SBC_A_n(n), vec![0xde, n]));
        t.push((Instr::AND_A_n(n), vec![0xe6, n]));
        t.push((Instr::XOR_A_n(n), vec![0xee, n]));
        t.push((Instr::OR_A_n(n), vec![0xf6, n]));
        t.push((Instr::CP_n(n), vec![0xfe, n]));
        for (prefix, ix) in [(0xddu8, true), (0xfd, false)] {
            let pick = |x: Instruction, y: Instruction| if ix { x } else { y };
            t.push((pick(Instr::ADD_A_IX(d), Instr::ADD_A_IY(d)), vec![prefix, 0x86, n]));
            t.push((pick(Instr::ADC_A_IX(d), Instr::ADC_A_IY(d)), vec![prefix, 0x8e, n]));
            t.push((pick(Instr::SUB_A_IX(d), Instr::SUB_A_IY(d)), vec![prefix, 0x96, n]));
            t.push((pick(Instr::SBC_A_IX(d), Instr::SBC_A_IY(d)), vec![prefix, 0x9e, n]));
            t.push((pick(Instr::AND_A_IX(d), Instr::AND_A_IY(d)), vec![prefix, 0xa6, n]));
            t.push((pick(Instr::XOR_A_IX(d), Instr::XOR_A_IY(d)), vec![prefix, 0xae, n]));
            t.push((pick(Instr::OR_A_IX(d), Instr::OR_A_IY(d)), vec![prefix, 0xb6, n]));
            t.push((pick(Instr::CP_IX(d), Instr::CP_IY(d)), vec![prefix, 0xbe, n]));
            t.push((pick(Instr::INC_IX(d), Instr::INC_IY(d)), vec![prefix, 0x34, n]));
            t.push((pick(Instr::DEC_IX(d), Instr::DEC_IY(d)), vec![prefix, 0x35, n]));
        }
    }
    for e in -126..=127i8 {
        let raw = (e as i16 - 2) as u8;
        t.push((Instr::JR_e(e), vec![0x18, raw]));
        t.push((Instr::JR_C_e(e), vec![0x38, raw]));
        t.push((Instr::JR_NC_e(e), vec![0x30, raw]));
        t.push((Instr::JR_Z_e(e), vec![0x28, raw]));
        t.push((Instr::JR_NZ_e(e), vec![0x20, raw]));
        t.push((Instr::DJNZ_e(e), vec![0x10, raw]));
    }
    for nn in WORDS {
        let (lo, hi) = (nn as u8, (nn >> 8) as u8);
        t.push((Instr::LD_A_nn(nn), vec![0x3a, lo, hi]));
        t.push((Instr::LD_nn_A(nn), vec![0x32, lo, hi]));
        t.push((Instr::JP_nn(nn), vec![0xc3, lo, hi]));
        for (cc, c) in CONDS {
            t.push((Instr::JP_cc_nn(cc, nn), vec![0xc2 | c << 3, lo, hi]));
        }
    }
    t.push((Instr::LD_A_BC, vec![0x0a]));
    t.push((Instr::LD_A_DE, vec![0x1a]));
    t.push((Instr::LD_BC_A, vec![0x02]));
    t.push((Instr::LD_DE_A, vec![0x12]));
    t.push((Instr::LD_A_I, vec![0xed, 0x57]));
    t.push((Instr::LD_A_R, vec![0xed, 0x5f]));
    t.push((Instr::LD_I_A, vec![0xed, 0x47]));
    t.push((Instr::LD_R_A, vec![0xed, 0x4f]));
    t.push((Instr::EX_DE_HL, vec![0xeb]));
    t.push((Instr::EX_AF_AF1, vec![0x08]));
    t.push((Instr::EXX, vec![0xd9]));
    t.push((Instr::EX_SP_HL, vec![0xe3]));
    t.push((Instr::EX_SP_IX, vec![0xdd, 0xe3]));
    t.push((Instr::EX_SP_IY, vec![0xfd, 0xe3]));
    t.push((Instr::LDI, vec![0xed, 0xa0]));
    t.push((Instr::LDIR, vec![0xed, 0xb0]));
    t.push((Instr::LDD, vec![0xed, 0xa8]));
    t.push((Instr::LDDR, vec![0xed, 0xb8]));
    t.push((Instr::CPI, vec![0xed, 0xa1]));
    t.push((Instr::CPIR, vec![0xed, 0xb1]));
    t.push((Instr::CPD, vec![0xed, 0xa9]));
    t.push((Instr::CPDR, vec![0xed, 0xb9]));
    t.push((Instr::ADD_A_HL, vec![0x86]));
    t.push((Instr::ADC_A_HL, vec![0x8e]));
    t.push((Instr::SUB_A_HL, vec![0x96]));
    t.push((Instr::SBC_A_HL, vec![0x9e]));
    t.push((Instr::AND_A_HL, vec![0xa6]));
    t.push((Instr::XOR_A_HL, vec![0xae]));
    t.push((Instr::OR_A_HL, vec![0xb6]));
    t.push((Instr::CP_HL, vec![0xbe]));
    t.push((Instr::INC_HL, vec![0x34]));
    t.push((Instr::DEC_HL, vec![0x35]));
    t.push((Instr::JP_HL, vec![0xe9]));
    t.push((Instr::JP_IX, vec![0xdd, 0xe9]));
    t.push((Instr::JP_IY, vec![0xfd, 0xe9]));
    t
}

#[test]
fn decoding_an_encoding_gives_the_instruction_back() {
    let cpu = Z80::default();
    for (instr, bytes) in table() {
        assert_eq!(Some((instr, bytes.len() as u8)), cpu.decode(&bytes));
    }
}

#[test]
fn bytes_behind_an_encoding_decide_nothing() {
    let cpu = Z80::default();
    for (instr, bytes) in table() {
        for tail in [[0x00u8, 0x00], [0xdd, 0x36], [0xed, 0xb0], [0xff, 0xff]] {
            let mut mem = bytes.clone();
            mem.extend_from_slice(&tail);
            assert_eq!(Some((instr, bytes.len() as u8)), cpu.decode(&mem));
        }
    }
}

#[test]
fn a_cut_encoding_is_no_instruction() {
    let cpu = Z80::default();
    for (_, bytes) in table() {
        for cut in 0..bytes.len() {
            assert_eq!(None, cpu.decode(&bytes[..cut]));
        }
    }
}

#[test]
fn no_two_instructions_share_an_encoding() {
    let t = table();
    let mut seen: Vec<&Vec<u8>> = t.iter().map(|(_, b)| b).collect();
    seen.sort();
    let before = seen.len();
    seen.dedup();
    assert_eq!(before, seen.len());
}
