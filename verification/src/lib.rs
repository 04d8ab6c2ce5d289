//! Instruction-execution core of an 8-bit, Game-Boy-style CPU emulator.
//!
//! The crate models the register file, the packed condition-flags byte, a
//! flat 64 KiB memory bus and the fetch-decode-execute cycle. Every
//! executable function carries a contract over a mathematical model of the
//! machine state, and Verus proves that the code meets it.

pub mod cpu;
pub mod emulator;
pub mod fault;
pub mod flags;
pub mod instructions;
pub mod memory;
pub mod registers;
pub mod text;
