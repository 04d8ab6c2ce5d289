//! The top-level wrapper: one machine, fed with a ROM image and stepped by
//! its owner.

use crate::cpu::{dump_text, step, Cpu, CpuState, ROM_BASE, ROM_REGION_SIZE};
use crate::fault::Fault;
use crate::memory::{with_range, ADDRESS_SPACE_SIZE};
use crate::registers::REGISTER_COUNT;
use vstd::prelude::*;

verus! {

/// One emulated machine.
pub struct Emulator {
    cpu: Cpu,
}

impl Emulator {
    /// The machine that this emulator drives.
    pub closed spec fn machine(&self) -> Cpu {
        self.cpu
    }

    /// An emulator whose machine is at power-on: all state zero, no dump.
    pub fn new() -> (emulator: Emulator)
        ensures
            emulator.machine()@ == (CpuState {
                registers: Seq::new(REGISTER_COUNT as nat, |i: int| 0u8),
                sp: 0,
                pc: 0,
                memory: Seq::new(ADDRESS_SPACE_SIZE as nat, |a: int| 0u8),
            }),
            emulator.machine().dump_trigger() is None,
    {
        Emulator { cpu: Cpu::new() }
    }

    /// The machine, for inspection.
    pub fn cpu(&self) -> (cpu: &Cpu)
        ensures
            *cpu == self.machine(),
    {
        &self.cpu
    }

    /// Hands the bytes of a ROM image to the machine, which places them at
    /// the start of memory or refuses an image longer than the ROM region.
    pub fn load_rom(&mut self, rom: Vec<u8>) -> (result: Result<(), Fault>)
        ensures
            final(self).machine().dump_trigger() == old(self).machine().dump_trigger(),
            rom@.len() <= ROM_REGION_SIZE ==> result is Ok && final(self).machine()@ == (CpuState {
                memory: with_range(old(self).machine()@.memory, ROM_BASE as int, rom@),
                ..old(self).machine()@
            }),
            rom@.len() > ROM_REGION_SIZE ==> result == Err::<(), Fault>(
                Fault::LoadOutOfBounds { start: ROM_BASE, len: rom@.len() as usize },
            ) && final(self).machine()@ == old(self).machine()@,
    {
        self.cpu.load_rom(rom)
    }

    /// Runs one fetch-decode-execute cycle of the machine.
    pub fn execute(&mut self) -> (result: Result<Option<String>, Fault>)
        ensures
            final(self).machine().dump_trigger() == old(self).machine().dump_trigger(),
            match step(old(self).machine()@) {
                Ok(next) => {
                    let opcode = old(self).machine()@.memory[old(self).machine()@.pc as int];
                    &&& final(self).machine()@ == next
                    &&& result matches Ok(dump)
                    &&& dump is Some <==> old(self).machine().dump_trigger() == Some(opcode)
                    &&& dump matches Some(text) ==> text@ == dump_text(next, opcode)
                },
                Err(fault) => {
                    &&& final(self).machine()@ == old(self).machine()@
                    &&& result matches Err(reported)
                    &&& reported == fault
                },
            },
    {
        self.cpu.execute()
    }
}

} // verus!
