//! The memory bus: one flat array of bytes that covers the whole 16-bit
//! address space, with no banking and no mapped regions.

use crate::fault::Fault;
use vstd::prelude::*;

verus! {

/// Number of addressable bytes: addresses run from 0 to 65535.
pub const ADDRESS_SPACE_SIZE: usize = 65536;

/// Memory after `values` is copied to `start` and the addresses that follow.
/// Bytes outside the block stay as they were.
pub open spec fn with_range(memory: Seq<u8>, start: int, values: Seq<u8>) -> Seq<u8> {
    Seq::new(
        memory.len(),
        |a: int|
            if start <= a < start + values.len() {
                values[a - start]
            } else {
                memory[a]
            },
    )
}

/// The whole address space as one array of bytes.
pub struct MemoryBus {
    memory: [u8; 65536],
}

impl View for MemoryBus {
    type V = Seq<u8>;

    /// The stored bytes, by address.
    closed spec fn view(&self) -> Seq<u8> {
        self.memory@
    }
}

impl MemoryBus {
    /// The bus always holds exactly one byte per address.
    pub proof fn lemma_len(&self)
        ensures
            self@.len() == ADDRESS_SPACE_SIZE,
    {
    }

    /// A bus on which every byte is zero.
    pub fn new() -> (bus: MemoryBus)
        ensures
            bus@ == Seq::new(ADDRESS_SPACE_SIZE as nat, |a: int| 0u8),
    {
        MemoryBus { memory: [0;65536] }
    }

    /// Copies `values` to the `len` addresses from `start` on.
    pub fn set_range(&mut self, start: usize, len: usize, values: &[u8])
        requires
            values@.len() == len,
            start + len <= ADDRESS_SPACE_SIZE,
        ensures
            final(self)@ == with_range(old(self)@, start as int, values@),
    {
        let mut i: usize = 0;
        while i < len
            invariant
                i <= len,
                values@.len() == len,
                start + len <= ADDRESS_SPACE_SIZE,
                self@ == with_range(old(self)@, start as int, values@.take(i as int)),
            decreases len - i,
        {
            self.memory[start + i] = values[i];
            i += 1;
        }
        assert(values@.take(len as int) == values@);
    }

    /// Copies `bytes` into memory from `start` on, or refuses the whole block
    /// when it would reach past the last address.
    pub fn load(&mut self, start: usize, bytes: &[u8]) -> (result: Result<(), Fault>)
        ensures
            start + bytes@.len() <= ADDRESS_SPACE_SIZE ==> result is Ok && final(self)@
                == with_range(old(self)@, start as int, bytes@),
            start + bytes@.len() > ADDRESS_SPACE_SIZE ==> result == Err::<(), Fault>(
                Fault::LoadOutOfBounds { start, len: bytes@.len() as usize },
            ) && final(self)@ == old(self)@,
    {
        let len = bytes.len();
        if start > ADDRESS_SPACE_SIZE || len > ADDRESS_SPACE_SIZE - start {
            return Err(Fault::LoadOutOfBounds { start, len });
        }
        self.set_range(start, len, bytes);
        Ok(())
    }

    /// Reads the byte at `address`.
    pub fn read_byte(&self, address: u16) -> (value: u8)
        ensures
            value == self@[address as int],
    {
        self.memory[address as usize]
    }

    /// Writes the byte at `address`; all other bytes keep their values.
    pub fn write_byte(&mut self, address: u16, value: u8)
        ensures
            final(self)@ == old(self)@.update(address as int, value),
    {
        self.memory[address as usize] = value;
    }
}

} // verus!
