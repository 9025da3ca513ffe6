//! The repeating block transfer over the turns of the cycle.

use crate::cpu::{law_set_flag_then_flag, wrap16, Flag, Z80};
use crate::decode::decode_spec;
use crate::encoding::{begins_with, encoding, law_decode_begins};
use crate::execute::exchange::{block_move, rewound};
use crate::insts::Instruction;
use vstd::prelude::*;

verus! {

/// The register file and the memory after `n` turns of the
/// fetch-decode-execute cycle, or after fewer where the bytes at the
/// program counter are no instruction.
pub open spec fn turns(cpu: Z80, mem: Seq<u8>, n: nat) -> (Z80, Seq<u8>)
    decreases n,
{
    if n == 0 {
        (cpu, mem)
    } else {
        match decode_spec(cpu.window(mem)) {
            Some((instr, width)) => turns(
                cpu.fetched(width).after(instr, mem),
                cpu.fetched(width).memory_after(instr, mem),
                (n - 1) as nat,
            ),
            None => (cpu, mem),
        }
    }
}

/// Whether `LDIR` at the program counter is about to move a block that it
/// can move as a whole: the memory spans the address space; BC counts at
/// least one byte; neither the block at HL nor the block at DE runs past
/// the end of memory; and the block at DE meets neither the block at HL
/// nor the two bytes of the instruction.
pub open spec fn moves_block(cpu: Z80, mem: Seq<u8>) -> bool {
    let pc = cpu.prog_counter as int;
    let n = cpu.bc as int;
    &&& mem.len() == 0x1_0000
    &&& pc + 1 < 0x1_0000
    &&& mem[pc] == 0xed
    &&& mem[pc + 1] == 0xb0
    &&& n >= 1
    &&& cpu.hl + n <= 0x1_0000
    &&& cpu.de + n <= 0x1_0000
    &&& (cpu.de + n <= cpu.hl || cpu.hl + n <= cpu.de)
    &&& (cpu.de + n <= pc || pc + 1 < cpu.de)
}

/// Whether `after` and `moved` are what `LDIR` leaves of `cpu` and `mem`
/// when it has moved the block, BC bytes long, from HL to DE: the bytes
/// of the block stand at DE and no other byte has changed; BC is zero; HL
/// and DE stand behind their blocks and the program counter behind the
/// instruction; half-carry, parity/overflow and add/subtract are reset;
/// and nothing else has changed.
pub open spec fn block_moved(cpu: Z80, mem: Seq<u8>, after: Z80, moved: Seq<u8>) -> bool {
    let n = cpu.bc as int;
    &&& moved.len() == mem.len()
    &&& forall|a: int|
        cpu.de <= a < cpu.de + n ==> #[trigger] moved[a] == mem[a - cpu.de + cpu.hl]
    &&& forall|a: int|
        0 <= a < mem.len() && !(cpu.de <= a < cpu.de + n) ==> #[trigger] moved[a] == mem[a]
    &&& after == (Z80 {
        bc: 0,
        hl: wrap16(cpu.hl + n),
        de: wrap16(cpu.de + n),
        prog_counter: wrap16(cpu.prog_counter + 2),
        af: after.af,
        ..cpu
    })
    &&& after.acc() == cpu.acc()
    &&& !after.flag_spec(Flag::H)
    &&& !after.flag_spec(Flag::PV)
    &&& !after.flag_spec(Flag::N)
    &&& after.flag_spec(Flag::C) == cpu.flag_spec(Flag::C)
    &&& after.flag_spec(Flag::Z) == cpu.flag_spec(Flag::Z)
    &&& after.flag_spec(Flag::S) == cpu.flag_spec(Flag::S)
}

/// One turn of the cycle on `LDIR`: one byte moves, the counters step, and
/// the program counter comes back to the instruction unless BC has
/// reached zero.
proof fn lemma_ldir_turn(cpu: Z80, mem: Seq<u8>)
    requires
        moves_block(cpu, mem),
    ensures
        decode_spec(cpu.window(mem)) == Some((Instruction::LDIR, 2u8)),
        cpu.fetched(2).after(Instruction::LDIR, mem) == rewound(
            block_move(cpu.fetched(2), 1),
            cpu.bc != 1,
        ),
        cpu.fetched(2).memory_after(Instruction::LDIR, mem) == mem.update(
            cpu.de as int,
            mem[cpu.hl as int],
        ),
{
    reveal(Z80::after);
    reveal(Z80::memory_after);
    let window = cpu.window(mem);
    assert(begins_with(window, Instruction::LDIR)) by {
        assert(encoding(Instruction::LDIR) =~= seq![0xedu8, 0xb0u8]);
        assert(window[0] == mem[cpu.prog_counter as int]);
        assert(window[1] == mem[cpu.prog_counter + 1]);
    }
    law_decode_begins(Instruction::LDIR, window);
}

/// What the flags of one element of a block transfer leave of the flags
/// and of the accumulator.
proof fn lemma_block_move_flags(cpu: Z80, step: int)
    ensures
        block_move(cpu, step).acc() == cpu.acc(),
        !block_move(cpu, step).flag_spec(Flag::H),
        block_move(cpu, step).flag_spec(Flag::PV) == (cpu.bc != 1),
        !block_move(cpu, step).flag_spec(Flag::N),
        block_move(cpu, step).flag_spec(Flag::C) == cpu.flag_spec(Flag::C),
        block_move(cpu, step).flag_spec(Flag::Z) == cpu.flag_spec(Flag::Z),
        block_move(cpu, step).flag_spec(Flag::S) == cpu.flag_spec(Flag::S),
        block_move(cpu, step) == (Z80 {
            de: wrap16(cpu.de + step),
            hl: wrap16(cpu.hl + step),
            bc: wrap16(cpu.bc - 1),
            af: block_move(cpu, step).af,
            ..cpu
        }),
{
    let moved = Z80 {
        de: wrap16(cpu.de + step),
        hl: wrap16(cpu.hl + step),
        bc: wrap16(cpu.bc - 1),
        ..cpu
    };
    let first = moved.with_flag(Flag::H, false);
    let second = first.with_flag(Flag::PV, wrap16(cpu.bc - 1) != 0);
    let third = second.with_flag(Flag::N, false);
    law_set_flag_then_flag(moved, Flag::H, false);
    law_set_flag_then_flag(first, Flag::PV, wrap16(cpu.bc - 1) != 0);
    law_set_flag_then_flag(second, Flag::N, false);
    assert forall|g: Flag| g != Flag::H && g != Flag::PV && g != Flag::N implies third.flag_spec(g)
        == cpu.flag_spec(g) by {
        assert(first.flag_spec(g) == moved.flag_spec(g));
        assert(second.flag_spec(g) == first.flag_spec(g));
        assert(third.flag_spec(g) == second.flag_spec(g));
    }
    assert(second.flag_spec(Flag::H) == first.flag_spec(Flag::H));
    assert(third.flag_spec(Flag::H) == second.flag_spec(Flag::H));
    assert(third.flag_spec(Flag::PV) == second.flag_spec(Flag::PV));
}

/// `LDIR` moves its block: where it is about to move a block that it can
/// move as a whole, as many turns of the cycle as BC counts leave the
/// block moved.
pub proof fn law_ldir_moves_block(cpu: Z80, mem: Seq<u8>)
    requires
        moves_block(cpu, mem),
    ensures
        block_moved(
            cpu,
            mem,
            turns(cpu, mem, cpu.bc as nat).0,
            turns(cpu, mem, cpu.bc as nat).1,
        ),
    decreases cpu.bc,
{
    lemma_ldir_turn(cpu, mem);
    lemma_block_move_flags(cpu.fetched(2), 1);
    let next = rewound(block_move(cpu.fetched(2), 1), cpu.bc != 1);
    let copied = mem.update(cpu.de as int, mem[cpu.hl as int]);
    assert(turns(cpu, mem, cpu.bc as nat) == turns(next, copied, (cpu.bc - 1) as nat));
    if cpu.bc == 1 {
        assert(turns(next, copied, 0) == (next, copied));
    } else {
        assert(next.prog_counter == cpu.prog_counter);
        assert(next.bc == cpu.bc - 1);
        assert(next.hl == cpu.hl + 1);
        assert(next.de == cpu.de + 1);
        assert(moves_block(next, copied));
        law_ldir_moves_block(next, copied);
        let (after, moved) = turns(next, copied, next.bc as nat);
        assert forall|a: int| cpu.de <= a < cpu.de + cpu.bc implies #[trigger] moved[a] == mem[a
            - cpu.de + cpu.hl] by {
            if a > cpu.de {
                assert(moved[a] == copied[a - next.de + next.hl]);
            }
        }
    }
}

} // verus!
