//! One turn of the fetch-decode-execute cycle.

use crate::cpu::{wrap16, Z80};
use crate::decode::decode_spec;
use crate::execute::min_duration;
use vstd::prelude::*;

verus! {

impl Z80 {
    /// The part of memory that begins at the program counter.
    pub open spec fn window(&self, mem: Seq<u8>) -> Seq<u8> {
        mem.subrange(self.prog_counter as int, mem.len() as int)
    }

    /// The register file with the program counter moved past an
    /// instruction of the given width.
    pub open spec fn fetched(self, width: u8) -> Z80 {
        Z80 { prog_counter: wrap16(self.prog_counter + width), ..self }
    }

    /// Whether a turn of the cycle stays within memory: the program counter
    /// lies within it or at its end, and so does every address that the
    /// instruction at the program counter, if there is one, reads or
    /// writes. Both hold of every register file where the memory spans the
    /// whole address space of 65536 bytes.
    pub open spec fn can_step(&self, mem: Seq<u8>) -> bool {
        &&& self.prog_counter <= mem.len()
        &&& decode_spec(self.window(mem)) matches Some((instr, width)) ==> self.fetched(
            width,
        ).can_execute(instr, mem.len())
    }

    /// Makes one turn of the fetch-decode-execute cycle: decodes the
    /// instruction at the program counter, moves the program counter past
    /// it and executes it. Returns the least time that the instruction
    /// takes, in nanoseconds, for the caller to let pass; or `None`, with
    /// nothing changed, where the bytes at the program counter are no
    /// instruction.
    pub fn step(&mut self, memory: &mut [u8]) -> (nanos: Option<u64>)
        requires
            old(self).can_step(old(memory)@),
        ensures
            final(memory)@.len() == old(memory)@.len(),
            match decode_spec(old(self).window(old(memory)@)) {
                Some((instr, width)) => {
                    &&& nanos == Some(min_duration(instr, old(self).bc))
                    &&& *final(self) == old(self).fetched(width).after(instr, old(memory)@)
                    &&& final(memory)@ == old(self).fetched(width).memory_after(
                        instr,
                        old(memory)@,
                    )
                },
                None => {
                    &&& nanos is None
                    &&& *final(self) == *old(self)
                    &&& final(memory)@ == old(memory)@
                },
            },
    {
        let decoded = self.decode(self.fetch(memory));
        match decoded {
            Some((instr, width)) => {
                self.prog_counter = self.prog_counter.wrapping_add(width as u16);
                Some(self.execute(instr, memory))
            },
            None => None,
        }
    }
}

} // verus!
