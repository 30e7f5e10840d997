//! An interpreter core for the MOS 6502: registers, status flags, a flat
//! 64 KiB memory, the addressing modes, the opcode table and the
//! fetch-decode-execute loop, each with a contract over a mathematical
//! model of the machine.

pub mod bits;
pub mod flags;
pub mod laws;
pub mod cpu;
pub mod model;
pub mod opcodes;
