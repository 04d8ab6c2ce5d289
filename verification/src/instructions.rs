//! The instruction table: which operation an opcode byte selects and how
//! many bytes the instruction occupies.

use vstd::prelude::*;

verus! {

/// The operations of the machine, one per recognized opcode.
#[derive(Debug, Clone, Copy, PartialEq, Eq, Structural)]
pub enum Instruction {
    /// `NOP` (0x00): does nothing.
    Nop,
    /// `LD BC,nn` (0x01): loads the immediate word into the pair `BC`.
    LoadBcImmediate,
    /// `LD (BC),A` (0x02): stores the accumulator at the address held in `BC`.
    StoreAccumulatorAtBc,
    /// `INC BC` (0x03): adds one to the pair `BC`, wrapping; no flag changes.
    IncrementBc,
    /// `INC B` (0x04): adds one to `B`, wrapping, and updates the flags.
    IncrementB,
    /// `DEC B` (0x05): takes one from `B`, wrapping, and updates the flags.
    DecrementB,
    /// `LD B,n` (0x06): loads the immediate byte into `B`.
    LoadBImmediate,
    /// `RLCA` (0x07): rotates the accumulator left by one bit, circularly.
    RotateAccumulatorLeft,
    /// `LD (nn),SP` (0x08): stores the stack pointer at the immediate address.
    StoreStackPointer,
}

impl Instruction {
    /// The operation that `opcode` selects; `None` for a byte outside the table.
    pub open spec fn of_opcode(opcode: u8) -> Option<Instruction> {
        if opcode == 0x00 {
            Some(Instruction::Nop)
        } else if opcode == 0x01 {
            Some(Instruction::LoadBcImmediate)
        } else if opcode == 0x02 {
            Some(Instruction::StoreAccumulatorAtBc)
        } else if opcode == 0x03 {
            Some(Instruction::IncrementBc)
        } else if opcode == 0x04 {
            Some(Instruction::IncrementB)
        } else if opcode == 0x05 {
            Some(Instruction::DecrementB)
        } else if opcode == 0x06 {
            Some(Instruction::LoadBImmediate)
        } else if opcode == 0x07 {
            Some(Instruction::RotateAccumulatorLeft)
        } else if opcode == 0x08 {
            Some(Instruction::StoreStackPointer)
        } else {
            None
        }
    }

    /// The number of bytes the instruction occupies, opcode included.
    pub open spec fn byte_length(self) -> u16 {
        match self {
            Instruction::LoadBcImmediate | Instruction::StoreStackPointer => 3,
            Instruction::LoadBImmediate => 2,
            _ => 1,
        }
    }

    /// Decodes one opcode byte.
    pub fn decode(opcode: u8) -> (instruction: Option<Instruction>)
        ensures
            instruction == Instruction::of_opcode(opcode),
    {
        match opcode {
            0x00 => Some(Instruction::Nop),
            0x01 => Some(Instruction::LoadBcImmediate),
            0x02 => Some(Instruction::StoreAccumulatorAtBc),
            0x03 => Some(Instruction::IncrementBc),
            0x04 => Some(Instruction::IncrementB),
            0x05 => Some(Instruction::DecrementB),
            0x06 => Some(Instruction::LoadBImmediate),
            0x07 => Some(Instruction::RotateAccumulatorLeft),
            0x08 => Some(Instruction::StoreStackPointer),
            _ => None,
        }
    }

    /// How far the program counter moves past this instruction.
    pub fn length(&self) -> (length: u16)
        ensures
            length == self.byte_length(),
            1 <= length <= 3,
    {
        match self {
            Instruction::LoadBcImmediate | Instruction::StoreStackPointer => 3,
            Instruction::LoadBImmediate => 2,
            _ => 1,
        }
    }
}

/// An opcode selects an instruction exactly when it is at most 0x08.
pub proof fn lemma_table_is_first_nine_opcodes(opcode: u8)
    ensures
        Instruction::of_opcode(opcode) is Some <==> opcode <= 0x08,
{
}

} // verus!
