use rz80::{Flag, Register, Z80};

fn loaded() -> Z80 {
    let mut z80 = Z80::default();
    z80.af = 0x0123;
    z80.bc = 0x4567;
    z80.de = 0x89ab;
    z80.hl = 0xcdef;
    z80
}

const REGISTERS: [Register; 11] = [
    Register::A,
    Register::F,
    Register::B,
    Register::C,
    Register::BC,
    Register::D,
    Register::E,
    Register::DE,
    Register::H,
    Register::L,
    Register::HL,
];

const FLAGS: [Flag; 6] = [Flag::C, Flag::N, Flag::PV, Flag::H, Flag::Z, Flag::S];

fn is_pair(r: Register) -> bool {
    matches!(r, Register::BC | Register::DE | Register::HL)
}

#[test]
fn default_is_all_zero() {
    let z80 = Z80::default();
    assert_eq!(
        Z80 {
            af: 0,
            af1: 0,
            bc: 0,
            bc1: 0,
            de: 0,
            de1: 0,
            hl: 0,
            hl1: 0,
            index_x: 0,
            index_y: 0,
            stack_ptr: 0,
            interrupt: 0,
            refresh: 0,
            prog_counter: 0,
        },
        z80
    );
    for f in FLAGS {
        assert!(!z80.flag(f));
    }
}

#[test]
fn test_get_reg_a() {
    assert_eq!(0x01, loaded().reg(Register::A));
}

#[test]
fn test_get_reg_f() {
    assert_eq!(0x23, loaded().reg(Register::F));
}

#[test]
fn test_get_reg_b() {
    assert_eq!(0x45, loaded().reg(Register::B));
}

#[test]
fn test_get_reg_c() {
    assert_eq!(0x67, loaded().reg(Register::C));
}

#[test]
fn test_get_reg_bc() {
    assert_eq!(0x4567, loaded().reg(Register::BC));
}

#[test]
fn test_get_reg_d() {
    assert_eq!(0x89, loaded().reg(Register::D));
}

#[test]
fn test_get_reg_e() {
    assert_eq!(0xab, loaded().reg(Register::E));
}

#[test]
fn test_get_reg_de() {
    assert_eq!(0x89ab, loaded().reg(Register::DE));
}

#[test]
fn test_get_reg_h() {
    assert_eq!(0xcd, loaded().reg(Register::H));
}

#[test]
fn test_get_reg_l() {
    assert_eq!(0xef, loaded().reg(Register::L));
}

#[test]
fn test_get_reg_hl() {
    assert_eq!(0xcdef, loaded().reg(Register::HL));
}

fn set_then_get(rname: Register, val: u16) {
    let mut z80 = Z80::default();
    z80.set_reg(rname, val);
    assert_eq!(val, z80.reg(rname));
}

#[test]
fn test_set_reg_a() {
    set_then_get(Register::A, 0x01);
}

#[test]
fn test_set_reg_b() {
    set_then_get(Register::B, 0x45);
}

#[test]
fn test_set_reg_c() {
    set_then_get(Register::C, 0x67);
}

#[test]
fn test_set_reg_bc() {
    set_then_get(Register::BC, 0x4567);
}

#[test]
fn test_set_reg_d() {
    set_then_get(Register::D, 0x89);
}

#[test]
fn test_set_reg_e() {
    set_then_get(Register::E, 0xab);
}

#[test]
fn test_set_reg_de() {
    set_then_get(Register::DE, 0x89ab);
}

#[test]
fn test_set_reg_h() {
    set_then_get(Register::H, 0xcd);
}

#[test]
fn test_set_reg_l() {
    set_then_get(Register::L, 0xef);
}

#[test]
fn test_set_reg_hl() {
    set_then_get(Register::HL, 0xcdef);
}

#[test]
fn set_half_register_uses_low_byte() {
    let mut cpu = Z80::default();
    cpu.set_reg(Register::C, 0xabcd);
    assert_eq!(0xcd, cpu.reg(Register::C));
    assert_eq!(0x00cd, cpu.bc);
}

#[test]
fn set_then_get_is_masked_for_every_register() {
    for r in REGISTERS {
        for v in [0x0000u16, 0x0001, 0x00ff, 0x0100, 0x1234, 0xabcd, 0xffff] {
            let mut cpu = loaded();
            cpu.set_reg(r, v);
            let mask = if is_pair(r) { 0xffff } else { 0x00ff };
            assert_eq!(v & mask, cpu.reg(r));
        }
    }
}

#[test]
fn set_half_leaves_sibling_half() {
    let pairs = [
        (Register::A, Register::F),
        (Register::B, Register::C),
        (Register::D, Register::E),
        (Register::H, Register::L),
    ];
    for (hi, lo) in pairs {
        let mut cpu = loaded();
        let before = cpu.reg(lo);
        cpu.set_reg(hi, 0x5a);
        assert_eq!(before, cpu.reg(lo));
        assert_eq!(0x5a, cpu.reg(hi));

        let mut cpu = loaded();
        let before = cpu.reg(hi);
        cpu.set_reg(lo, 0xa5);
        assert_eq!(before, cpu.reg(hi));
        assert_eq!(0xa5, cpu.reg(lo));
    }
}

#[test]
fn halves_are_views_of_their_pair() {
    let mut cpu = Z80::default();
    cpu.set_reg(Register::HL, 0xbeef);
    assert_eq!(0xbe, cpu.reg(Register::H));
    assert_eq!(0xef, cpu.reg(Register::L));
    cpu.set_reg(Register::H, 0x12);
    assert_eq!(0x12ef, cpu.reg(Register::HL));
    cpu.set_reg(Register::L, 0x34);
    assert_eq!(0x1234, cpu.hl);
}

#[test]
fn set_reg_touches_nothing_else() {
    let mut cpu = loaded();
    cpu.index_x = 0x1111;
    cpu.index_y = 0x2222;
    cpu.stack_ptr = 0x3333;
    cpu.prog_counter = 0x4444;
    let before = cpu;
    cpu.set_reg(Register::D, 0x77);
    assert_eq!(Z80 { de: 0x77ab, ..before }, cpu);
}

#[test]
fn set_flag_then_flag() {
    let mut z80 = Z80::default();
    z80.set_flag(Flag::N, true);
    assert!(z80.flag(Flag::N));
    z80.set_flag(Flag::N, false);
    assert!(!z80.flag(Flag::N));
}

#[test]
fn flags_sit_at_their_bits() {
    let bits = [
        (Flag::C, 0x01u16),
        (Flag::N, 0x02),
        (Flag::PV, 0x04),
        (Flag::H, 0x10),
        (Flag::Z, 0x40),
        (Flag::S, 0x80),
    ];
    for (f, bit) in bits {
        assert_eq!(bit as u8, f.mask());
        let mut cpu = Z80::default();
        cpu.set_flag(f, true);
        assert_eq!(bit, cpu.af);
        let mut cpu = Z80::default();
        cpu.af = 0xffff;
        cpu.set_flag(f, false);
        assert_eq!(0xffff & !bit, cpu.af);
    }
}

#[test]
fn set_flag_leaves_other_bits() {
    for f in FLAGS {
        for val in [false, true] {
            for af in [0x0000u16, 0x12ff, 0xab28, 0xffd7, 0x5a5a] {
                let mut cpu = loaded();
                cpu.af = af;
                cpu.set_flag(f, val);
                assert_eq!(val, cpu.flag(f));
                for g in FLAGS {
                    if g.mask() != f.mask() {
                        let mut before = loaded();
                        before.af = af;
                        assert_eq!(before.flag(g), cpu.flag(g));
                    }
                }
                // Neither the accumulator nor the unused bits 3 and 5 move.
                assert_eq!(af & 0xff28, cpu.af & 0xff28);
                assert_eq!(Z80 { af: cpu.af, ..loaded() }, cpu);
            }
        }
    }
}

#[test]
fn flag_reads_the_low_byte_of_af() {
    let mut cpu = Z80::default();
    cpu.af = 0xff00;
    for f in FLAGS {
        assert!(!cpu.flag(f));
    }
    cpu.af = 0x00d7;
    for f in FLAGS {
        assert!(cpu.flag(f));
    }
}

#[test]
fn test_fetch() {
    let mut z80 = Z80::default();
    z80.prog_counter = 2;
    let mem = vec![0x12, 0x34, 0x56, 0x78, 0x9a];
    let s = z80.fetch(&mem);
    assert_eq!(0x56, s[0]);
    assert_eq!(0x78, s[1]);
    assert_eq!(0x9a, s[2]);
    assert_eq!(3, s.len());
}

#[test]
fn fetch_at_the_end_is_empty() {
    let mut z80 = Z80::default();
    z80.prog_counter = 5;
    let mem = vec![0x12, 0x34, 0x56, 0x78, 0x9a];
    assert!(z80.fetch(&mem).is_empty());
}
