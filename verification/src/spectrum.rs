//! A ZX Spectrum: the CPU with its 64 KiB of memory.

use crate::cpu::Z80;
use crate::decode::decode_spec;
use crate::execute::min_duration;
use vstd::prelude::*;

verus! {

/// The size of the memory: 16 KiB of ROM and 48 KiB of RAM.
pub const MEM_SIZE: usize = (16 + 48) * 1024;

/// A complete ZX Spectrum.
pub struct RSSpectrum {
    /// Zilog Z80 CPU
    cpu: Z80,
    /// Complete 64 KiB memory
    memory: Vec<u8>,
}

impl RSSpectrum {
    /// The memory spans the whole address space.
    pub closed spec fn wf(&self) -> bool {
        self.memory@.len() == MEM_SIZE
    }

    /// The register file of the CPU.
    pub closed spec fn cpu(&self) -> Z80 {
        self.cpu
    }

    /// The contents of memory.
    pub closed spec fn memory(&self) -> Seq<u8> {
        self.memory@
    }

    /// Constructs a new Spectrum: the CPU after reset and the memory all
    /// zero.
    pub fn new() -> (emu: RSSpectrum)
        ensures
            emu.wf(),
            emu.cpu() == Z80::reset(),
            emu.memory() == Seq::new(MEM_SIZE as nat, |i: int| 0u8),
    {
        let emu = RSSpectrum { cpu: Default::default(), memory: vec![0u8; MEM_SIZE] };
        assert(emu.memory@ =~= Seq::new(MEM_SIZE as nat, |i: int| 0u8));
        emu
    }

    /// Makes one turn of the fetch-decode-execute cycle on the CPU and the
    /// memory of this Spectrum. Returns the least time that the
    /// instruction takes, in nanoseconds, or `None`, with nothing changed,
    /// where the bytes at the program counter are no instruction.
    pub fn step(&mut self) -> (nanos: Option<u64>)
        requires
            old(self).wf(),
        ensures
            final(self).wf(),
            match decode_spec(old(self).cpu().window(old(self).memory())) {
                Some((instr, width)) => {
                    &&& nanos == Some(min_duration(instr, old(self).cpu().bc))
                    &&& final(self).cpu() == old(self).cpu().fetched(width).after(
                        instr,
                        old(self).memory(),
                    )
                    &&& final(self).memory() == old(self).cpu().fetched(width).memory_after(
                        instr,
                        old(self).memory(),
                    )
                },
                None => {
                    &&& nanos is None
                    &&& final(self).cpu() == old(self).cpu()
                    &&& final(self).memory() == old(self).memory()
                },
            },
    {
        self.cpu.step(self.memory.as_mut_slice())
    }
}

} // verus!
