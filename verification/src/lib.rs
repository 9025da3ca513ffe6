//! A Zilog Z80 CPU core for an emulated ZX Spectrum.
//!
//! The core decodes the bytes at the program counter into an
//! [`Instruction`], executes it on the register file [`Z80`] and on a
//! memory of bytes, and tells how long the instruction takes at least.
//! Every function is verified against a contract over these models:
//!
//! - [`hi_lo`], [`carry_borrow`] and [`alu`]: halves of words, and
//!   additions and subtractions with their carries and borrows;
//! - [`cpu`]: the register file and the flag codec;
//! - [`insts`] and [`encoding`]: the instructions and the bytes that
//!   encode them;
//! - [`decode`]: from bytes to an instruction and its width;
//! - [`execute`]: what each instruction does, and its least duration;
//! - [`step`]: one turn of the fetch-decode-execute cycle;
//! - [`spectrum`]: the CPU with its 64 KiB of memory;
//! - [`bits`]: how the masks and shifts of the code read as arithmetic.
//!
//! The core waits for nothing: whoever runs it lets the time pass that
//! [`Z80::step`] returns.

pub mod alu;
pub mod bits;
pub mod carry_borrow;
pub mod cpu;
pub mod decode;
pub mod encoding;
pub mod execute;
pub mod hi_lo;
pub mod insts;
pub mod repeat;
pub mod spectrum;
pub mod step;

pub use cpu::{Condition, Flag, Register, Z80};
pub use insts::{Instr, Instruction};
pub use spectrum::RSSpectrum;
