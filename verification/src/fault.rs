//! The conditions that stop the machine.

use vstd::prelude::*;

verus! {

/// Why a request was refused. The machine state is left as it was.
#[derive(Debug, Clone, Copy, PartialEq, Eq, Structural)]
pub enum Fault {
    /// The opcode fetched at `pc` selects no instruction.
    UnrecognizedOpcode { opcode: u8, pc: u16 },
    /// A block of `len` bytes does not fit into its destination at `start`.
    LoadOutOfBounds { start: usize, len: usize },
}

} // verus!
