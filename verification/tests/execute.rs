use rz80::execute::arith8::{
    add_a_hl, add_a_ix, add_a_iy, add_a_n, add_a_r, and_a, cp_a, dec_hl, dec_ix, dec_iy, dec_r,
    inc_hl, inc_ix, inc_iy, inc_r, operand_hl, operand_ix, operand_iy, operand_r, or_a,
    parity_even, sub_a, xor_a,
};
use rz80::execute::exchange::{
    exchange_af_af1, exchange_cpd, exchange_cpdr, exchange_cpi, exchange_cpir, exchange_de_hl,
    exchange_exx, exchange_ldd, exchange_lddr, exchange_ldi, exchange_ldir, exchange_sp_hl,
    exchange_sp_ix, exchange_sp_iy,
};
use rz80::execute::jump::{
    djnz_e, jr_flag_e, jr_nflag_e, jump_cc_nn, jump_hl, jump_ix, jump_iy, jump_nn, jumpr_e,
};
use rz80::execute::load8::{
    load_a_bc, load_a_de, load_a_i, load_a_nn, load_a_r, load_bc_a, load_de_a, load_hl_n,
    load_hl_r, load_i_a, load_ix_n, load_ix_r, load_iy_n, load_iy_r, load_nn_a, load_r_a,
    load_r_hl, load_r_ix, load_r_iy, load_r_n, load_r_r,
};
use rz80::execute::CLOCK_SPEED_NANOS;
use rz80::{Condition, Flag, Instr, Instruction, Register, Z80};

const C: u16 = 0x01;
const N: u16 = 0x02;
const PV: u16 = 0x04;
const H: u16 = 0x10;
const Z: u16 = 0x40;
const S: u16 = 0x80;

fn memory() -> Vec<u8> {
    vec![0u8; 0x1_0000]
}

fn cpu() -> Z80 {
    let mut cpu = Z80::default();
    cpu.af = 0x0100;
    cpu.bc = 0x0203;
    cpu.de = 0x0405;
    cpu.hl = 0x0607;
    cpu.af1 = 0x1112;
    cpu.bc1 = 0x1314;
    cpu.de1 = 0x1516;
    cpu.hl1 = 0x1718;
    cpu.index_x = 0x2000;
    cpu.index_y = 0x3000;
    cpu.stack_ptr = 0x4000;
    cpu.interrupt = 0x21;
    cpu.refresh = 0x22;
    cpu.prog_counter = 0x0100;
    cpu
}

fn with_a(a: u8, flags: u16) -> Z80 {
    Z80 { af: (a as u16) << 8 | flags, ..cpu() }
}

// 8-bit load

#[test]
fn ld_r_r_copies_a_register() {
    let mut c = cpu();
    load_r_r(&mut c, Register::B, Register::L);
    assert_eq!(Z80 { bc: 0x0703, ..cpu() }, c);
}

#[test]
fn ld_r_n_sets_a_register_and_no_flag() {
    for flags in [0x00u16, 0xff, 0xd7, 0x28] {
        let mut c = with_a(0x77, flags);
        load_r_n(&mut c, Register::A, 5);
        assert_eq!(with_a(5, flags), c);
    }
}

#[test]
fn ld_r_from_memory() {
    let mut mem = memory();
    mem[0x0607] = 0xaa;
    mem[0x2005] = 0xbb;
    mem[0x2ffe] = 0xcc;
    let mut c = cpu();
    load_r_hl(&mut c, Register::D, &mem);
    assert_eq!(Z80 { de: 0xaa05, ..cpu() }, c);
    let mut c = cpu();
    load_r_ix(&mut c, Register::E, 5, &mem);
    assert_eq!(Z80 { de: 0x04bb, ..cpu() }, c);
    let mut c = cpu();
    load_r_iy(&mut c, Register::A, -2, &mem);
    assert_eq!(Z80 { af: 0xcc00, ..cpu() }, c);
}

#[test]
fn ld_memory_from_r() {
    let mut mem = memory();
    let mut c = cpu();
    load_hl_r(&mut c, Register::B, &mut mem);
    load_ix_r(&mut c, -1, Register::C, &mut mem);
    load_iy_r(&mut c, 127, Register::E, &mut mem);
    assert_eq!(cpu(), c);
    assert_eq!(0x02, mem[0x0607]);
    assert_eq!(0x03, mem[0x1fff]);
    assert_eq!(0x05, mem[0x307f]);
    assert_eq!(3, mem.iter().filter(|b| **b != 0).count());
}

#[test]
fn ld_memory_from_n() {
    let mut mem = memory();
    let mut c = cpu();
    load_hl_n(&mut c, 0x5d, &mut mem);
    load_ix_n(&mut c, -128, 0x1f, &mut mem);
    load_iy_n(&mut c, 0, 0x2f, &mut mem);
    assert_eq!(cpu(), c);
    assert_eq!(0x5d, mem[0x0607]);
    assert_eq!(0x1f, mem[0x1f80]);
    assert_eq!(0x2f, mem[0x3000]);
}

#[test]
fn indexed_addresses_wrap_around() {
    let mut mem = memory();
    mem[0xffff] = 0x11;
    mem[0x0001] = 0x22;
    let mut c = cpu();
    c.index_x = 0x0000;
    c.index_y = 0xfffe;
    load_r_ix(&mut c, Register::B, -1, &mem);
    assert_eq!(0x11, c.reg(Register::B));
    load_r_iy(&mut c, Register::C, 3, &mem);
    assert_eq!(0x22, c.reg(Register::C));
    assert_eq!(0x11, operand_ix(&c, -1, &mem));
    assert_eq!(0x22, operand_iy(&c, 3, &mem));
}

#[test]
fn ld_a_from_memory() {
    let mut mem = memory();
    mem[0x0203] = 0x31;
    mem[0x0405] = 0x32;
    mem[0xface] = 0x33;
    let mut c = cpu();
    load_a_bc(&mut c, &mem);
    assert_eq!(with_a(0x31, 0), c);
    load_a_de(&mut c, &mem);
    assert_eq!(with_a(0x32, 0), c);
    load_a_nn(&mut c, 0xface, &mem);
    assert_eq!(with_a(0x33, 0), c);
}

#[test]
fn ld_memory_from_a() {
    let mut mem = memory();
    let mut c = with_a(0x99, 0xff);
    load_bc_a(&mut c, &mut mem);
    load_de_a(&mut c, &mut mem);
    load_nn_a(&mut c, 0xffff, &mut mem);
    assert_eq!(with_a(0x99, 0xff), c);
    assert_eq!(0x99, mem[0x0203]);
    assert_eq!(0x99, mem[0x0405]);
    assert_eq!(0x99, mem[0xffff]);
}

#[test]
fn ld_a_i_sets_flags() {
    // Sign and zero follow the value; H, P/V and N are reset; C is kept.
    let mut c = with_a(0, 0xff);
    c.interrupt = 0x80;
    load_a_i(&mut c);
    assert_eq!(0x8000 | S | C | 0x28, c.af);

    let mut c = with_a(0x55, 0x00);
    c.interrupt = 0x00;
    load_a_i(&mut c);
    assert_eq!(0x0000 | Z, c.af);

    let mut c = with_a(0x55, H | PV | N);
    c.interrupt = 0x21;
    load_a_i(&mut c);
    assert_eq!(0x2100, c.af);
    assert_eq!(Z80 { af: 0x2100, ..cpu() }, c);
}

#[test]
fn ld_a_r_sets_flags() {
    let mut c = with_a(0, C);
    c.refresh = 0xfe;
    load_a_r(&mut c);
    assert_eq!(0xfe00 | S | C, c.af);
    let mut c = with_a(7, 0xd7);
    c.refresh = 0;
    load_a_r(&mut c);
    assert_eq!(0x0000 | Z | C, c.af);
}

#[test]
fn ld_i_and_r_from_a() {
    let mut c = with_a(0x42, 0xff);
    load_i_a(&mut c);
    assert_eq!(Z80 { interrupt: 0x42, ..with_a(0x42, 0xff) }, c);
    load_r_a(&mut c);
    assert_eq!(Z80 { interrupt: 0x42, refresh: 0x42, ..with_a(0x42, 0xff) }, c);
}

// Exchange, block transfer, block search

#[test]
fn ex_de_hl_swaps() {
    let mut c = cpu();
    c.de = 0x1234;
    c.hl = 0x5678;
    let before = c;
    exchange_de_hl(&mut c);
    assert_eq!(Z80 { de: 0x5678, hl: 0x1234, ..before }, c);
}

#[test]
fn ex_de_hl_twice_restores() {
    let mut c = cpu();
    exchange_de_hl(&mut c);
    assert_ne!(cpu(), c);
    exchange_de_hl(&mut c);
    assert_eq!(cpu(), c);
}

#[test]
fn ex_af_and_exx_swap_with_shadows() {
    let mut c = cpu();
    exchange_af_af1(&mut c);
    assert_eq!(Z80 { af: 0x1112, af1: 0x0100, ..cpu() }, c);
    exchange_af_af1(&mut c);
    assert_eq!(cpu(), c);
    exchange_exx(&mut c);
    assert_eq!(
        Z80 { bc: 0x1314, bc1: 0x0203, de: 0x1516, de1: 0x0405, hl: 0x1718, hl1: 0x0607, ..cpu() },
        c
    );
    exchange_exx(&mut c);
    assert_eq!(cpu(), c);
}

#[test]
fn ex_sp_hl_exchanges_with_the_stack() {
    let mut mem = memory();
    mem[0x4000] = 0x34;
    mem[0x4001] = 0x12;
    let mut c = cpu();
    exchange_sp_hl(&mut c, &mut mem);
    assert_eq!(Z80 { hl: 0x1234, ..cpu() }, c);
    assert_eq!(0x07, mem[0x4000]);
    assert_eq!(0x06, mem[0x4001]);
}

#[test]
fn ex_sp_index_exchanges_with_the_stack() {
    let mut mem = memory();
    mem[0x4000] = 0x34;
    mem[0x4001] = 0x12;
    let mut c = cpu();
    exchange_sp_ix(&mut c, &mut mem);
    assert_eq!(Z80 { index_x: 0x1234, ..cpu() }, c);
    assert_eq!([0x00, 0x20], mem[0x4000..0x4002]);
    exchange_sp_iy(&mut c, &mut mem);
    assert_eq!(Z80 { index_x: 0x1234, index_y: 0x2000, ..cpu() }, c);
    assert_eq!([0x00, 0x30], mem[0x4000..0x4002]);
}

#[test]
fn ex_sp_wraps_at_the_top_of_memory() {
    let mut mem = memory();
    mem[0xffff] = 0xcd;
    mem[0x0000] = 0xab;
    let mut c = cpu();
    c.stack_ptr = 0xffff;
    exchange_sp_hl(&mut c, &mut mem);
    assert_eq!(0xabcd, c.hl);
    assert_eq!(0x07, mem[0xffff]);
    assert_eq!(0x06, mem[0x0000]);
}

#[test]
fn ldi_moves_one_byte_up() {
    let mut mem = memory();
    mem[0x0607] = 0x5a;
    let mut c = with_a(1, 0xff);
    exchange_ldi(&mut c, &mut mem);
    assert_eq!(0x5a, mem[0x0405]);
    // H and N reset, P/V set while BC is not zero, the rest kept.
    assert_eq!(Z80 { de: 0x0406, hl: 0x0608, bc: 0x0202, af: 0x01ff & !(H | N), ..cpu() }, c);
}

#[test]
fn ldd_moves_one_byte_down() {
    let mut mem = memory();
    mem[0x0607] = 0x5a;
    let mut c = cpu();
    c.bc = 1;
    exchange_ldd(&mut c, &mut mem);
    assert_eq!(0x5a, mem[0x0405]);
    // BC has reached zero: P/V is reset.
    assert_eq!(Z80 { de: 0x0404, hl: 0x0606, bc: 0, af: 0x0100, ..cpu() }, c);
}

#[test]
fn block_counters_wrap_around() {
    let mut mem = memory();
    let mut c = cpu();
    c.hl = 0xffff;
    c.de = 0xffff;
    c.bc = 0;
    exchange_ldi(&mut c, &mut mem);
    assert_eq!((0x0000, 0x0000, 0xffff), (c.hl, c.de, c.bc));
    assert!(c.flag(Flag::PV));
    c.hl = 0;
    c.de = 0;
    exchange_ldd(&mut c, &mut mem);
    assert_eq!((0xffff, 0xffff, 0xfffe), (c.hl, c.de, c.bc));
}

#[test]
fn ldir_rewinds_until_bc_is_zero() {
    let mut mem = memory();
    mem[0x0607] = 0x11;
    mem[0x0608] = 0x22;
    let mut c = cpu();
    c.bc = 2;
    c.prog_counter = 0x0102;
    exchange_ldir(&mut c, &mut mem);
    assert_eq!(0x0100, c.prog_counter);
    assert_eq!(1, c.bc);
    c.prog_counter = 0x0102;
    exchange_ldir(&mut c, &mut mem);
    assert_eq!(0x0102, c.prog_counter);
    assert_eq!(0, c.bc);
    assert_eq!([0x11, 0x22], mem[0x0405..0x0407]);
    assert_eq!((0x0609, 0x0407), (c.hl, c.de));
}

#[test]
fn lddr_rewinds_until_bc_is_zero() {
    let mut mem = memory();
    mem[0x0607] = 0x11;
    mem[0x0606] = 0x22;
    let mut c = cpu();
    c.bc = 2;
    c.prog_counter = 0x0001;
    exchange_lddr(&mut c, &mut mem);
    // The rewind wraps around below zero.
    assert_eq!(0xffff, c.prog_counter);
    c.prog_counter = 0x0102;
    exchange_lddr(&mut c, &mut mem);
    assert_eq!(0x0102, c.prog_counter);
    assert_eq!([0x22, 0x11], mem[0x0404..0x0406]);
    assert_eq!((0x0605, 0x0403, 0), (c.hl, c.de, c.bc));
}

#[test]
fn cpi_compares_and_steps() {
    let mut mem = memory();
    mem[0x0607] = 0x10;
    let mut c = with_a(0x10, 0);
    exchange_cpi(&mut c, &mem);
    assert_eq!(Z80 { hl: 0x0608, bc: 0x0202, af: 0x1000 | Z | PV | N, ..cpu() }, c);

    let mut c = with_a(0x0f, C | H);
    exchange_cpi(&mut c, &mem);
    // The accumulator is less: sign is set; carry and half-carry are kept.
    assert_eq!(0x0f00 | S | PV | N | C | H, c.af);

    let mut c = with_a(0x11, S | Z);
    c.bc = 1;
    exchange_cpi(&mut c, &mem);
    assert_eq!(0x1100 | N, c.af);
    assert_eq!(0, c.bc);
}

#[test]
fn cpd_compares_and_steps_down() {
    let mut mem = memory();
    mem[0x0607] = 0x10;
    let mut c = with_a(0x10, 0);
    exchange_cpd(&mut c, &mem);
    assert_eq!(Z80 { hl: 0x0606, bc: 0x0202, af: 0x1000 | Z | PV | N, ..cpu() }, c);
}

#[test]
fn cpir_rewinds_unless_found_at_the_end() {
    let mut mem = memory();
    mem[0x0607] = 0x10;
    // Not found, BC not zero: again.
    let mut c = with_a(0x99, 0);
    exchange_cpir(&mut c, &mem);
    assert_eq!(0x00fe, c.prog_counter);
    // Not found, BC zero: again.
    let mut c = with_a(0x99, 0);
    c.bc = 1;
    exchange_cpir(&mut c, &mem);
    assert_eq!(0x00fe, c.prog_counter);
    // Found, BC not zero: again.
    let mut c = with_a(0x10, 0);
    exchange_cpir(&mut c, &mem);
    assert_eq!(0x00fe, c.prog_counter);
    // Found, BC zero: done.
    let mut c = with_a(0x10, 0);
    c.bc = 1;
    exchange_cpir(&mut c, &mem);
    assert_eq!(0x0100, c.prog_counter);
    assert_eq!(Z80 { hl: 0x0608, bc: 0, af: 0x1000 | Z | N, ..cpu() }, c);
}

#[test]
fn cpdr_rewinds_unless_found_at_the_end() {
    let mut mem = memory();
    mem[0x0607] = 0x10;
    let mut c = with_a(0x99, 0);
    exchange_cpdr(&mut c, &mem);
    assert_eq!(0x00fe, c.prog_counter);
    assert_eq!(0x0606, c.hl);
    let mut c = with_a(0x10, 0);
    c.bc = 1;
    exchange_cpdr(&mut c, &mem);
    assert_eq!(Z80 { hl: 0x0606, bc: 0, af: 0x1000 | Z | N, ..cpu() }, c);
}

// Jump

#[test]
fn jp_sets_the_program_counter() {
    let mut c = cpu();
    jump_nn(&mut c, 0xbeef);
    assert_eq!(Z80 { prog_counter: 0xbeef, ..cpu() }, c);
    jump_hl(&mut c);
    assert_eq!(Z80 { prog_counter: 0x0607, ..cpu() }, c);
    jump_ix(&mut c);
    assert_eq!(Z80 { prog_counter: 0x2000, ..cpu() }, c);
    jump_iy(&mut c);
    assert_eq!(Z80 { prog_counter: 0x3000, ..cpu() }, c);
}

#[test]
fn jp_cc_tests_one_flag() {
    let table = [
        (Condition::NZ, Z, false),
        (Condition::Z, Z, true),
        (Condition::NC, C, false),
        (Condition::C, C, true),
        (Condition::PO, PV, false),
        (Condition::PE, PV, true),
        (Condition::P, S, false),
        (Condition::M, S, true),
    ];
    for (cc, bit, wanted) in table {
        for (flags, set) in [(bit, true), (0xff & !bit, false), (0x00, false), (0xff, true)] {
            let mut c = with_a(0x12, flags);
            jump_cc_nn(&mut c, cc, 0xbeef);
            let pc = if set == wanted { 0xbeef } else { 0x0100 };
            assert_eq!(Z80 { prog_counter: pc, ..with_a(0x12, flags) }, c);
        }
    }
}

#[test]
fn jr_adds_the_displacement() {
    let mut c = cpu();
    jumpr_e(&mut c, 7);
    assert_eq!(Z80 { prog_counter: 0x0107, ..cpu() }, c);
    jumpr_e(&mut c, -128);
    assert_eq!(0x0087, c.prog_counter);
    c.prog_counter = 0xfffe;
    jumpr_e(&mut c, 5);
    assert_eq!(0x0003, c.prog_counter);
    jumpr_e(&mut c, -4);
    assert_eq!(0xffff, c.prog_counter);
}

#[test]
fn jr_on_flag() {
    for f in [Flag::C, Flag::Z] {
        let mut c = cpu();
        c.set_flag(f, true);
        let set = c;
        jr_flag_e(&mut c, f, 4);
        assert_eq!(Z80 { prog_counter: 0x0104, ..set }, c);
        jr_nflag_e(&mut c, f, 4);
        assert_eq!(Z80 { prog_counter: 0x0104, ..set }, c);

        let mut c = cpu();
        jr_flag_e(&mut c, f, 4);
        assert_eq!(cpu(), c);
        jr_nflag_e(&mut c, f, -4);
        assert_eq!(Z80 { prog_counter: 0x00fc, ..cpu() }, c);
    }
}

#[test]
fn djnz_counts_b_down() {
    let mut c = cpu();
    c.bc = 0x0177;
    djnz_e(&mut c, -3);
    assert_eq!(Z80 { bc: 0x0077, ..cpu() }, c);

    let mut c = cpu();
    c.bc = 0x0277;
    djnz_e(&mut c, -3);
    assert_eq!(Z80 { bc: 0x0177, prog_counter: 0x00fd, ..cpu() }, c);

    let mut c = cpu();
    c.bc = 0x0077;
    djnz_e(&mut c, 2);
    assert_eq!(Z80 { bc: 0xff77, prog_counter: 0x0102, ..cpu() }, c);
}

// 8-bit arithmetic

#[test]
fn add_sets_all_six_flags() {
    let mut c = with_a(0x0f, N | 0x28);
    add_a_n(&mut c, 0x01, false);
    assert_eq!(with_a(0x10, H | 0x28), c);

    let mut c = with_a(0x7f, 0);
    add_a_n(&mut c, 0x01, false);
    assert_eq!(with_a(0x80, S | H | PV), c);

    let mut c = with_a(0xff, 0);
    add_a_n(&mut c, 0x01, false);
    assert_eq!(with_a(0x00, Z | H | C), c);

    let mut c = with_a(0x80, 0);
    add_a_n(&mut c, 0x80, false);
    assert_eq!(with_a(0x00, Z | PV | C), c);

    let mut c = with_a(0xf0, C);
    add_a_n(&mut c, 0xff, false);
    assert_eq!(with_a(0xef, S | C), c);
}

#[test]
fn adc_adds_the_carry_flag() {
    let mut c = with_a(0x10, C);
    add_a_n(&mut c, 0x01, true);
    assert_eq!(with_a(0x12, 0), c);

    let mut c = with_a(0x10, 0);
    add_a_n(&mut c, 0x01, true);
    assert_eq!(with_a(0x11, 0), c);

    // The carry that comes in takes part in every carry that goes out.
    let mut c = with_a(0x00, C);
    add_a_n(&mut c, 0xff, true);
    assert_eq!(with_a(0x00, Z | H | C), c);

    let mut c = with_a(0x7f, C);
    add_a_n(&mut c, 0x00, true);
    assert_eq!(with_a(0x80, S | H | PV), c);

    let mut c = with_a(0x0f, C);
    add_a_n(&mut c, 0x00, true);
    assert_eq!(with_a(0x10, H), c);
}

#[test]
fn add_takes_its_operand_from_everywhere() {
    let mut mem = memory();
    mem[0x0607] = 0x20;
    mem[0x2001] = 0x30;
    mem[0x2fff] = 0x40;
    let mut c = cpu();
    add_a_r(&mut c, Register::B, false);
    assert_eq!(with_a(0x03, 0), c);
    add_a_r(&mut c, Register::A, false);
    assert_eq!(with_a(0x06, 0), c);
    add_a_hl(&mut c, &mem, false);
    assert_eq!(with_a(0x26, 0), c);
    add_a_ix(&mut c, 1, &mem, false);
    assert_eq!(with_a(0x56, 0), c);
    add_a_iy(&mut c, -1, &mem, false);
    assert_eq!(with_a(0x96, S | PV), c);
    add_a_r(&mut c, Register::L, true);
    assert_eq!(with_a(0x9d, S), c);
    assert_eq!(0x20, operand_hl(&c, &mem));
    assert_eq!(0x07, operand_r(&c, Register::L));
    assert_eq!(0x07, operand_r(&c, Register::HL));
}

#[test]
fn add_agrees_with_wide_arithmetic_everywhere() {
    for a in 0..=255u8 {
        for b in 0..=255u8 {
            for carry in [0u8, 1] {
                let mut c = with_a(a, carry as u16 | 0x28);
                add_a_n(&mut c, b, true);
                let wide = a as u16 + b as u16 + carry as u16;
                let signed = (a as i8) as i16 + (b as i8) as i16 + carry as i16;
                let sum = wide as u8;
                let mut f = 0x28u16;
                if sum >= 0x80 {
                    f |= S;
                }
                if sum == 0 {
                    f |= Z;
                }
                if (a & 0xf) + (b & 0xf) + carry > 0xf {
                    f |= H;
                }
                if signed < -128 || signed > 127 {
                    f |= PV;
                }
                if wide > 0xff {
                    f |= C;
                }
                assert_eq!(with_a(sum, f), c);
            }
        }
    }
}

#[test]
fn sub_sets_all_six_flags() {
    let mut c = with_a(0x10, 0);
    sub_a(&mut c, 0x01, false);
    assert_eq!(with_a(0x0f, H | N), c);

    let mut c = with_a(0x00, 0);
    sub_a(&mut c, 0x01, false);
    assert_eq!(with_a(0xff, S | H | N | C), c);

    let mut c = with_a(0x80, 0);
    sub_a(&mut c, 0x01, false);
    assert_eq!(with_a(0x7f, H | PV | N), c);

    let mut c = with_a(0x42, C);
    sub_a(&mut c, 0x42, false);
    assert_eq!(with_a(0x00, Z | N), c);
}

#[test]
fn sbc_subtracts_the_carry_flag() {
    let mut c = with_a(0x10, C);
    sub_a(&mut c, 0x01, true);
    assert_eq!(with_a(0x0e, H | N), c);

    let mut c = with_a(0x00, C);
    sub_a(&mut c, 0xff, true);
    assert_eq!(with_a(0x00, Z | H | N | C), c);

    let mut c = with_a(0x10, 0);
    sub_a(&mut c, 0x01, true);
    assert_eq!(with_a(0x0f, H | N), c);
}

#[test]
fn sub_agrees_with_wide_arithmetic_everywhere() {
    for a in 0..=255u8 {
        for b in 0..=255u8 {
            for carry in [0u8, 1] {
                let wide = a as i16 - b as i16 - carry as i16;
                let signed = (a as i8) as i16 - (b as i8) as i16 - carry as i16;
                let diff = wide as u8;
                let mut f = N;
                if diff >= 0x80 {
                    f |= S;
                }
                if diff == 0 {
                    f |= Z;
                }
                if ((a & 0xf) as i16) - ((b & 0xf) as i16) - (carry as i16) < 0 {
                    f |= H;
                }
                if signed < -128 || signed > 127 {
                    f |= PV;
                }
                if wide < 0 {
                    f |= C;
                }
                let mut c = with_a(a, carry as u16);
                sub_a(&mut c, b, true);
                assert_eq!(with_a(diff, f), c);
                if carry == 0 {
                    let mut c = with_a(a, C);
                    sub_a(&mut c, b, false);
                    assert_eq!(with_a(diff, f), c);
                    let mut c = with_a(a, C);
                    cp_a(&mut c, b);
                    assert_eq!(with_a(a, f), c);
                }
            }
        }
    }
}

#[test]
fn cp_keeps_the_accumulator() {
    let mut c = with_a(0x10, 0);
    cp_a(&mut c, 0x10);
    assert_eq!(with_a(0x10, Z | N), c);
    let mut c = with_a(0x10, 0);
    cp_a(&mut c, 0x20);
    assert_eq!(with_a(0x10, S | N | C), c);
}

#[test]
fn logic_sets_parity() {
    let mut c = with_a(0b1100_1100, C | N);
    and_a(&mut c, 0b1010_1010);
    assert_eq!(with_a(0b1000_1000, S | H | PV), c);

    let mut c = with_a(0b1100_1100, C | N | H);
    or_a(&mut c, 0b0000_0011);
    assert_eq!(with_a(0b1100_1111, S | PV), c);

    let mut c = with_a(0b1100_1100, C | N | H);
    xor_a(&mut c, 0b1100_1101);
    assert_eq!(with_a(0b0000_0001, 0), c);

    let mut c = with_a(0x5a, 0);
    xor_a(&mut c, 0x5a);
    assert_eq!(with_a(0x00, Z | PV), c);

    let mut c = with_a(0xf0, 0x28);
    and_a(&mut c, 0x0f);
    assert_eq!(with_a(0x00, Z | H | PV | 0x28), c);
}

#[test]
fn parity_counts_set_bits() {
    for x in 0..=255u8 {
        assert_eq!(x.count_ones() % 2 == 0, parity_even(x));
    }
}

#[test]
fn inc_never_touches_carry() {
    for carry in [0, C] {
        let mut c = with_a(0, carry);
        c.bc = 0x0fff;
        inc_r(&mut c, Register::B);
        assert_eq!(Z80 { bc: 0x10ff, af: H | carry, ..cpu() }, c);

        let mut c = with_a(0x7f, carry | N);
        inc_r(&mut c, Register::A);
        assert_eq!(with_a(0x80, S | H | PV | carry), c);

        let mut c = with_a(0xff, carry);
        inc_r(&mut c, Register::A);
        assert_eq!(with_a(0x00, Z | H | carry), c);
    }
}

#[test]
fn dec_never_touches_carry() {
    for carry in [0, C] {
        let mut c = with_a(0, carry);
        c.bc = 0x1000;
        dec_r(&mut c, Register::B);
        assert_eq!(Z80 { bc: 0x0f00, af: H | N | carry, ..cpu() }, c);

        let mut c = with_a(0x80, carry);
        dec_r(&mut c, Register::A);
        assert_eq!(with_a(0x7f, H | PV | N | carry), c);

        let mut c = with_a(0x00, carry);
        dec_r(&mut c, Register::A);
        assert_eq!(with_a(0xff, S | H | N | carry), c);

        let mut c = with_a(0x01, carry);
        dec_r(&mut c, Register::A);
        assert_eq!(with_a(0x00, Z | N | carry), c);
    }
}

#[test]
fn inc_and_dec_in_memory() {
    let mut mem = memory();
    mem[0x0607] = 0xff;
    mem[0x2002] = 0x7f;
    mem[0x2ffd] = 0x00;
    let mut c = with_a(0x55, C);
    inc_hl(&mut c, &mut mem);
    assert_eq!(0x00, mem[0x0607]);
    assert_eq!(with_a(0x55, Z | H | C), c);
    inc_ix(&mut c, 2, &mut mem);
    assert_eq!(0x80, mem[0x2002]);
    assert_eq!(with_a(0x55, S | H | PV | C), c);
    inc_iy(&mut c, -3, &mut mem);
    assert_eq!(0x01, mem[0x2ffd]);
    assert_eq!(with_a(0x55, C), c);

    dec_hl(&mut c, &mut mem);
    assert_eq!(0xff, mem[0x0607]);
    assert_eq!(with_a(0x55, S | H | N | C), c);
    dec_ix(&mut c, 2, &mut mem);
    assert_eq!(0x7f, mem[0x2002]);
    assert_eq!(with_a(0x55, H | PV | N | C), c);
    dec_iy(&mut c, -3, &mut mem);
    assert_eq!(0x00, mem[0x2ffd]);
    assert_eq!(with_a(0x55, Z | N | C), c);
}

// The executor as a whole

fn run(instr: Instruction, c: &mut Z80, mem: &mut Vec<u8>) -> u64 {
    c.execute(instr, mem)
}

#[test]
fn execute_load_immediate_changes_no_flag() {
    let mut mem = memory();
    let mut c = with_a(0x77, 0xff);
    let nanos = run(Instr::LD_r_n(Register::A, 5), &mut c, &mut mem);
    assert_eq!(with_a(5, 0xff), c);
    assert_eq!(1750, nanos);
    assert!(mem.iter().all(|b| *b == 0));
}

#[test]
fn execute_exchange_de_hl() {
    let mut mem = memory();
    let mut c = cpu();
    c.de = 0x1234;
    c.hl = 0x5678;
    let nanos = run(Instr::EX_DE_HL, &mut c, &mut mem);
    assert_eq!((0x5678, 0x1234), (c.de, c.hl));
    assert_eq!(1000, nanos);
    run(Instr::EX_DE_HL, &mut c, &mut mem);
    assert_eq!((0x1234, 0x5678), (c.de, c.hl));
}

#[test]
fn execute_dispatches_every_family() {
    let mut mem = memory();
    mem[0x0607] = 0x21;
    let mut c = cpu();
    run(Instr::LD_r_HL(Register::B), &mut c, &mut mem);
    assert_eq!(0x2103, c.bc);
    run(Instr::LD_nn_A(0x8000), &mut c, &mut mem);
    assert_eq!(0x01, mem[0x8000]);
    run(Instr::EXX, &mut c, &mut mem);
    assert_eq!(0x1314, c.bc);
    run(Instr::ADD_A_r(Register::B), &mut c, &mut mem);
    assert_eq!(0x1400, c.af);
    run(Instr::ADC_A_n(0xf0), &mut c, &mut mem);
    assert_eq!(0x0400 | C, c.af);
    run(Instr::ADC_A_n(0x00), &mut c, &mut mem);
    assert_eq!(0x0500, c.af);
    run(Instr::SUB_A_r(Register::A), &mut c, &mut mem);
    assert_eq!(Z | N, c.af);
    run(Instr::SBC_A_n(1), &mut c, &mut mem);
    assert_eq!(0xff00 | S | H | N | C, c.af);
    run(Instr::AND_A_n(0x0f), &mut c, &mut mem);
    assert_eq!(0x0f00 | H | PV, c.af);
    run(Instr::OR_A_r(Register::C), &mut c, &mut mem);
    assert_eq!(0x1f00, c.af);
    run(Instr::XOR_A_n(0x1f), &mut c, &mut mem);
    assert_eq!(Z | PV, c.af);
    run(Instr::CP_n(1), &mut c, &mut mem);
    assert_eq!(S | H | N | C, c.af);
    run(Instr::JP_cc_nn(Condition::M, 0x9000), &mut c, &mut mem);
    assert_eq!(0x9000, c.prog_counter);
    run(Instr::JR_NZ_e(-16), &mut c, &mut mem);
    assert_eq!(0x8ff0, c.prog_counter);
    run(Instr::JR_Z_e(-16), &mut c, &mut mem);
    assert_eq!(0x8ff0, c.prog_counter);
    run(Instr::JR_C_e(16), &mut c, &mut mem);
    assert_eq!(0x9000, c.prog_counter);
    run(Instr::JR_NC_e(16), &mut c, &mut mem);
    assert_eq!(0x9000, c.prog_counter);
}

#[test]
fn execute_arithmetic_on_memory() {
    let mut mem = memory();
    mem[0x0607] = 0x10;
    mem[0x2003] = 0x20;
    mem[0x2ffc] = 0x30;
    let mut c = cpu();
    run(Instr::ADD_A_HL, &mut c, &mut mem);
    assert_eq!(0x1100, c.af);
    run(Instr::SUB_A_IX(3), &mut c, &mut mem);
    assert_eq!(0xf100 | S | N | C, c.af);
    run(Instr::XOR_A_IY(-4), &mut c, &mut mem);
    assert_eq!(0xc100 | S, c.af);
    run(Instr::CP_HL, &mut c, &mut mem);
    assert_eq!(0xc100 | S | N, c.af);
    run(Instr::AND_A_HL, &mut c, &mut mem);
    assert_eq!(0x0000 | Z | H | PV, c.af);
    run(Instr::OR_A_IX(3), &mut c, &mut mem);
    assert_eq!(0x2000, c.af);
    run(Instr::SBC_A_IY(-4), &mut c, &mut mem);
    assert_eq!(0xf000 | S | N | C, c.af);
    run(Instr::ADC_A_HL, &mut c, &mut mem);
    assert_eq!(0x0100 | C, c.af);
    run(Instr::INC_IX(3), &mut c, &mut mem);
    run(Instr::DEC_IY(-4), &mut c, &mut mem);
    run(Instr::INC_HL, &mut c, &mut mem);
    run(Instr::DEC_HL, &mut c, &mut mem);
    assert_eq!((0x10, 0x21, 0x2f), (mem[0x0607], mem[0x2003], mem[0x2ffc]));
    assert_eq!(0x0100 | C | N, c.af);
}

#[test]
fn durations() {
    let mut mem = memory();
    let r = Register::B;
    let table = [
        (Instr::LD_r_r(r, r), 1000),
        (Instr::LD_r_n(r, 0), 1750),
        (Instr::LD_r_HL(r), 1750),
        (Instr::LD_r_IX(r, 0), 4750),
        (Instr::LD_r_IY(r, 0), 4750),
        (Instr::LD_HL_r(r), 1750),
        (Instr::LD_IX_r(0, r), 4750),
        (Instr::LD_IY_r(0, r), 4750),
        (Instr::LD_HL_n(0), 2500),
        (Instr::LD_IX_n(0, 0), 4750),
        (Instr::LD_IY_n(0, 0), 2500),
        (Instr::LD_A_BC, 1750),
        (Instr::LD_A_DE, 1750),
        (Instr::LD_A_nn(0), 3250),
        (Instr::LD_BC_A, 1750),
        (Instr::LD_DE_A, 1750),
        (Instr::LD_nn_A(0), 3250),
        (Instr::LD_A_I, 2250),
        (Instr::LD_A_R, 2250),
        (Instr::LD_I_A, 2250),
        (Instr::LD_R_A, 2250),
        (Instr::EX_DE_HL, 1000),
        (Instr::EX_AF_AF1, 1000),
        (Instr::EXX, 1000),
        (Instr::EX_SP_HL, 4750),
        (Instr::EX_SP_IX, 5750),
        (Instr::EX_SP_IY, 5750),
        (Instr::LDI, 4000),
        (Instr::LDD, 4000),
        (Instr::CPI, 4000),
        (Instr::CPD, 4000),
        (Instr::ADD_A_r(r), 1000),
        (Instr::ADC_A_n(0), 1750),
        (Instr::SUB_A_HL, 1750),
        (Instr::SBC_A_IX(0), 4750),
        (Instr::AND_A_IY(0), 4750),
        (Instr::OR_A_r(r), 1000),
        (Instr::XOR_A_n(0), 1750),
        (Instr::CP_HL, 1750),
        (Instr::INC_r(r), 1000),
        (Instr::INC_HL, 2750),
        (Instr::INC_IX(0), 5750),
        (Instr::INC_IY(0), 5750),
        (Instr::DEC_r(r), 1000),
        (Instr::DEC_HL, 2750),
        (Instr::DEC_IX(0), 5750),
        (Instr::DEC_IY(0), 5750),
        (Instr::JP_nn(0), 2500),
        (Instr::JP_cc_nn(Condition::Z, 0), 2500),
        (Instr::JR_e(0), 3000),
        (Instr::JR_C_e(0), 3000),
        (Instr::JR_NC_e(0), 3000),
        (Instr::JR_Z_e(0), 3000),
        (Instr::JR_NZ_e(0), 3000),
        (Instr::JP_HL, 1000),
        (Instr::JP_IX, 1000),
        (Instr::JP_IY, 1000),
        (Instr::DJNZ_e(0), 3250),
    ];
    for (instr, nanos) in table {
        let mut c = cpu();
        assert_eq!(nanos, run(instr, &mut c, &mut mem));
    }
}

#[test]
fn repeating_block_instructions_take_longer_while_bc_is_not_zero() {
    let mut mem = memory();
    for instr in [Instr::LDIR, Instr::LDDR, Instr::CPIR, Instr::CPDR] {
        let mut c = cpu();
        c.bc = 2;
        assert_eq!(5250, run(instr, &mut c, &mut mem));
        let mut c = cpu();
        c.bc = 0;
        assert_eq!(4000, run(instr, &mut c, &mut mem));
    }
}

#[test]
fn clock_period() {
    assert_eq!(250_000, CLOCK_SPEED_NANOS);
}
