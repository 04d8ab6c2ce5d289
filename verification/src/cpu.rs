//! The interpreter: program counter, stack pointer, register file and
//! memory bus, advanced one instruction at a time.
//!
//! `step` is the mathematical model of one fetch-decode-execute cycle;
//! `Cpu::execute` is proved to follow it.

use crate::fault::Fault;
use crate::flags::FlagsRegister;
use crate::instructions::Instruction;
use crate::memory::{with_range, MemoryBus, ADDRESS_SPACE_SIZE};
use crate::registers::{
    pair_value, registers_text, with_pair, Registers, REGISTER_COUNT, REG_A, REG_B, REG_C, REG_F,
};
use crate::text::{format_hex_short, hex_short};
use vstd::prelude::*;
use vstd::string::StringExecFns;

verus! {

/// First address of the region that receives a ROM image.
pub const ROM_BASE: usize = 0x0000;

/// Size of the region that receives a ROM image: addresses 0x0000 to 0x3FFF.
pub const ROM_REGION_SIZE: usize = 0x4000;

/// The observable state of the machine.
#[verifier::ext_equal]
pub struct CpuState {
    /// The eight registers, by index.
    pub registers: Seq<u8>,
    pub sp: u16,
    pub pc: u16,
    /// The 65536 bytes of memory, by address.
    pub memory: Seq<u8>,
}

impl CpuState {
    /// The register file has eight cells and memory one byte per address.
    pub open spec fn well_formed(self) -> bool {
        self.registers.len() == REGISTER_COUNT && self.memory.len() == ADDRESS_SPACE_SIZE
    }
}

/// The address `offset` bytes after `address`; addresses wrap from 0xFFFF
/// round to 0x0000.
pub open spec fn address_after(address: u16, offset: int) -> u16 {
    ((address + offset) % 0x1_0000) as u16
}

/// The immediate byte of the instruction at `pc`: the byte after the opcode.
pub open spec fn operand_byte(state: CpuState) -> u8 {
    state.memory[address_after(state.pc, 1) as int]
}

/// The immediate word of the instruction at `pc`: the two bytes after the
/// opcode, low byte first.
pub open spec fn operand_word(state: CpuState) -> u16 {
    (state.memory[address_after(state.pc, 1) as int] + state.memory[address_after(
        state.pc,
        2,
    ) as int] * 256) as u16
}

/// `value + 1`, wrapping from 0xFF to 0x00.
pub open spec fn byte_after(value: u8) -> u8 {
    if value == 0xFF {
        0
    } else {
        (value + 1) as u8
    }
}

/// `value - 1`, wrapping from 0x00 to 0xFF.
pub open spec fn byte_before(value: u8) -> u8 {
    if value == 0 {
        0xFF
    } else {
        (value - 1) as u8
    }
}

/// The register file after an 8-bit increment of `register`: the cell holds
/// its old value plus one, wrapping; then the zero flag says whether the
/// result is zero, the subtraction flag is clear, the half-carry flag says
/// whether the low nibble of the old value was 0xF, and the carry flag is
/// the one found in register `F` after the cell was written.
pub open spec fn incremented(registers: Seq<u8>, register: int) -> Seq<u8> {
    let value = registers[register];
    let written = registers.update(register, byte_after(value));
    written.update(
        REG_F as int,
        FlagsRegister::from_byte(written[REG_F as int]).with_overrides(
            Some(byte_after(value) == 0),
            Some(false),
            Some(value % 16 == 15),
            None,
        ).to_byte(),
    )
}

/// The register file after an 8-bit decrement of `register`: the cell holds
/// its old value minus one, wrapping; then the zero flag says whether the
/// result is zero, the subtraction flag is set, the half-carry flag says
/// whether the low nibble of the old value was 0x0, and the carry flag is
/// the one found in register `F` after the cell was written.
pub open spec fn decremented(registers: Seq<u8>, register: int) -> Seq<u8> {
    let value = registers[register];
    let written = registers.update(register, byte_before(value));
    written.update(
        REG_F as int,
        FlagsRegister::from_byte(written[REG_F as int]).with_overrides(
            Some(byte_before(value) == 0),
            Some(true),
            Some(value % 16 == 0),
            None,
        ).to_byte(),
    )
}

/// `value` rotated left by one bit: bit 7 moves to bit 0.
pub open spec fn rotated_left(value: u8) -> u8 {
    ((value * 2) % 256 + value / 128) as u8
}

/// The register file after the accumulator is rotated left circularly: the
/// carry flag takes the bit that left bit 7, the other three flags are clear.
pub open spec fn accumulator_rotated_left(registers: Seq<u8>) -> Seq<u8> {
    let value = registers[REG_A as int];
    registers.update(REG_A as int, rotated_left(value)).update(
        REG_F as int,
        (FlagsRegister { zero: false, subtraction: false, half_carry: false, carry: value >= 128 })
            .to_byte(),
    )
}

/// Memory after the 16-bit `value` is stored at `address`: low byte at
/// `address`, high byte at the address after it.
pub open spec fn with_word(memory: Seq<u8>, address: u16, value: u16) -> Seq<u8> {
    memory.update(address as int, (value % 256) as u8).update(
        address_after(address, 1) as int,
        (value / 256) as u8,
    )
}

/// What `instruction`, found at `state.pc`, does to the state, the program
/// counter aside.
pub open spec fn effect(instruction: Instruction, state: CpuState) -> CpuState {
    match instruction {
        Instruction::Nop => state,
        Instruction::LoadBcImmediate => CpuState {
            registers: with_pair(state.registers, (REG_C, REG_B), operand_word(state)),
            ..state
        },
        Instruction::StoreAccumulatorAtBc => CpuState {
            memory: state.memory.update(
                pair_value(state.registers, (REG_C, REG_B)) as int,
                state.registers[REG_A as int],
            ),
            ..state
        },
        Instruction::IncrementBc => CpuState {
            registers: with_pair(
                state.registers,
                (REG_C, REG_B),
                address_after(pair_value(state.registers, (REG_C, REG_B)), 1),
            ),
            ..state
        },
        Instruction::IncrementB => CpuState {
            registers: incremented(state.registers, REG_B as int),
            ..state
        },
        Instruction::DecrementB => CpuState {
            registers: decremented(state.registers, REG_B as int),
            ..state
        },
        Instruction::LoadBImmediate => CpuState {
            registers: state.registers.update(REG_B as int, operand_byte(state)),
            ..state
        },
        Instruction::RotateAccumulatorLeft => CpuState {
            registers: accumulator_rotated_left(state.registers),
            ..state
        },
        Instruction::StoreStackPointer => CpuState {
            memory: with_word(state.memory, operand_word(state), state.sp),
            ..state
        },
    }
}

/// One fetch-decode-execute cycle. The opcode is the byte at `pc`. Inside
/// the table, the instruction takes effect and the program counter moves on
/// by the instruction's length; outside it, the cycle faults.
pub open spec fn step(state: CpuState) -> Result<CpuState, Fault> {
    let opcode = state.memory[state.pc as int];
    match Instruction::of_opcode(opcode) {
        Some(instruction) => {
            let after = effect(instruction, state);
            Ok(CpuState { pc: address_after(state.pc, instruction.byte_length() as int), ..after })
        },
        None => Err(Fault::UnrecognizedOpcode { opcode, pc: state.pc }),
    }
}

/// The diagnostic dump for `state`, taken after the instruction with the
/// given opcode: the register file, then stack pointer, program counter
/// and opcode in hexadecimal, one item per line.
pub open spec fn dump_text(state: CpuState, opcode: u8) -> Seq<char> {
    "Registers: "@ + registers_text(state.registers) + "\n"@ + "SP: "@ + hex_short(state.sp)
        + "\n"@ + "PC: "@ + hex_short(state.pc) + "\n"@ + "Opcode: "@ + hex_short(opcode as u16)
        + "\n"@
}

/// The machine: it owns its register file and its memory bus.
pub struct Cpu {
    registers: Registers,
    sp: u16,
    pc: u16,
    ram: MemoryBus,
    dump_registers_after: Option<u8>,
}

impl View for Cpu {
    type V = CpuState;

    /// Registers, pointers and memory as they stand.
    closed spec fn view(&self) -> CpuState {
        CpuState { registers: self.registers@, sp: self.sp, pc: self.pc, memory: self.ram@ }
    }
}

impl Cpu {
    /// The opcode after which `execute` hands out a dump, if any.
    pub closed spec fn dump_trigger(&self) -> Option<u8> {
        self.dump_registers_after
    }

    /// The state of a machine is always well formed.
    pub proof fn lemma_well_formed(&self)
        ensures
            self@.well_formed(),
    {
        self.registers.lemma_len();
        self.ram.lemma_len();
    }

    /// A machine at power-on: every register, both pointers and all of
    /// memory are zero, and no dump is asked for.
    pub fn new() -> (cpu: Cpu)
        ensures
            cpu@ == (CpuState {
                registers: Seq::new(REGISTER_COUNT as nat, |i: int| 0u8),
                sp: 0,
                pc: 0,
                memory: Seq::new(ADDRESS_SPACE_SIZE as nat, |a: int| 0u8),
            }),
            cpu.dump_trigger() is None,
    {
        Cpu {
            registers: Registers::new(),
            sp: 0,
            pc: 0,
            ram: MemoryBus::new(),
            dump_registers_after: None,
        }
    }

    /// A machine at power-on that hands out a dump after each instruction
    /// whose opcode is `dump_registers_after`.
    pub fn with_dump_after(dump_registers_after: Option<u8>) -> (cpu: Cpu)
        ensures
            cpu@ == (CpuState {
                registers: Seq::new(REGISTER_COUNT as nat, |i: int| 0u8),
                sp: 0,
                pc: 0,
                memory: Seq::new(ADDRESS_SPACE_SIZE as nat, |a: int| 0u8),
            }),
            cpu.dump_trigger() == dump_registers_after,
    {
        Cpu {
            registers: Registers::new(),
            sp: 0,
            pc: 0,
            ram: MemoryBus::new(),
            dump_registers_after,
        }
    }

    /// A machine that starts from the given register file, pointers and
    /// memory, all of which it takes over.
    pub fn from_parts(
        registers: Registers,
        sp: u16,
        pc: u16,
        ram: MemoryBus,
        dump_registers_after: Option<u8>,
    ) -> (cpu: Cpu)
        ensures
            cpu@ == (CpuState { registers: registers@, sp, pc, memory: ram@ }),
            cpu.dump_trigger() == dump_registers_after,
    {
        Cpu { registers, sp, pc, ram, dump_registers_after }
    }

    /// The program counter: the address of the next opcode.
    pub fn pc(&self) -> (pc: u16)
        ensures
            pc == self@.pc,
    {
        self.pc
    }

    /// The stack pointer.
    pub fn sp(&self) -> (sp: u16)
        ensures
            sp == self@.sp,
    {
        self.sp
    }

    /// The register file, for reading.
    pub fn registers(&self) -> (registers: &Registers)
        ensures
            registers@ == self@.registers,
    {
        &self.registers
    }

    /// The memory bus, for reading.
    pub fn memory(&self) -> (memory: &MemoryBus)
        ensures
            memory@ == self@.memory,
    {
        &self.ram
    }

    /// Places a ROM image at the start of memory. An image longer than the
    /// ROM region is refused and nothing is written.
    pub fn load_rom(&mut self, rom_in: Vec<u8>) -> (result: Result<(), Fault>)
        ensures
            final(self).dump_trigger() == old(self).dump_trigger(),
            rom_in@.len() <= ROM_REGION_SIZE ==> result is Ok && final(self)@ == (CpuState {
                memory: with_range(old(self)@.memory, ROM_BASE as int, rom_in@),
                ..old(self)@
            }),
            rom_in@.len() > ROM_REGION_SIZE ==> result == Err::<(), Fault>(
                Fault::LoadOutOfBounds { start: ROM_BASE, len: rom_in@.len() as usize },
            ) && final(self)@ == old(self)@,
    {
        let len = rom_in.len();
        if len > ROM_REGION_SIZE {
            return Err(Fault::LoadOutOfBounds { start: ROM_BASE, len });
        }
        self.ram.set_range(ROM_BASE, len, rom_in.as_slice());
        Ok(())
    }

    /// The immediate byte of the instruction at the program counter.
    fn fetch_byte(&self) -> (byte: u8)
        ensures
            byte == operand_byte(self@),
    {
        self.ram.read_byte(self.pc.wrapping_add(1))
    }

    /// The immediate word of the instruction at the program counter.
    fn fetch_word(&self) -> (word: u16)
        ensures
            word == operand_word(self@),
    {
        let low = self.ram.read_byte(self.pc.wrapping_add(1));
        let high = self.ram.read_byte(self.pc.wrapping_add(2));
        assert(((high as u16) << 8u16) == high * 256) by (bit_vector);
        low as u16 + ((high as u16) << 8)
    }

    /// Adds one to a register and sets the flags for it.
    fn inc_reg_byte(&mut self, register: usize)
        requires
            register < REGISTER_COUNT,
        ensures
            final(self)@ == (CpuState {
                registers: incremented(old(self)@.registers, register as int),
                ..old(self)@
            }),
            final(self).dump_trigger() == old(self).dump_trigger(),
    {
        let value = self.registers.get_register(register);
        let result = value.wrapping_add(1);
        let half_carry = value & 0x0F == 0x0F;
        assert((value & 0x0F == 0x0F) == (value % 16 == 15)) by (bit_vector);
        self.registers.set_register(register, result);
        self.registers.set_flags(Some(result == 0), Some(false), Some(half_carry), None);
    }

    /// Takes one from a register and sets the flags for it.
    fn dec_reg_byte(&mut self, register: usize)
        requires
            register < REGISTER_COUNT,
        ensures
            final(self)@ == (CpuState {
                registers: decremented(old(self)@.registers, register as int),
                ..old(self)@
            }),
            final(self).dump_trigger() == old(self).dump_trigger(),
    {
        let value = self.registers.get_register(register);
        let result = value.wrapping_sub(1);
        let half_carry = value & 0x0F == 0x00;
        assert((value & 0x0F == 0x00) == (value % 16 == 0)) by (bit_vector);
        self.registers.set_register(register, result);
        self.registers.set_flags(Some(result == 0), Some(true), Some(half_carry), None);
    }

    /// Rotates the accumulator left by one bit and sets the flags for it.
    fn rotate_accumulator_left(&mut self)
        ensures
            final(self)@ == (CpuState {
                registers: accumulator_rotated_left(old(self)@.registers),
                ..old(self)@
            }),
            final(self).dump_trigger() == old(self).dump_trigger(),
    {
        let value = self.registers.get_register(REG_A);
        let result = (value << 1) | (value >> 7);
        assert(((value << 1u8) | (value >> 7u8)) == ((value * 2) % 256 + value / 128) as u8)
            by (bit_vector);
        assert((value & 0x80 != 0) == (value >= 128)) by (bit_vector);
        self.registers.set_register(REG_A, result);
        self.registers.set_flags(Some(false), Some(false), Some(false), Some(value & 0x80 != 0));
    }

    /// Carries out `instruction`, which stands at the program counter; the
    /// program counter itself stays where it is.
    fn perform(&mut self, instruction: Instruction)
        ensures
            final(self)@ == effect(instruction, old(self)@),
            final(self).dump_trigger() == old(self).dump_trigger(),
    {
        proof {
            self.lemma_well_formed();
        }
        match instruction {
            Instruction::Nop => {},
            Instruction::LoadBcImmediate => {
                let nn = self.fetch_word();
                self.registers.set_register_word((REG_C, REG_B), nn);
            },
            Instruction::StoreAccumulatorAtBc => {
                let address = self.registers.get_register_word((REG_C, REG_B));
                self.ram.write_byte(address, self.registers.get_register(REG_A));
            },
            Instruction::IncrementBc => {
                let value = self.registers.get_register_word((REG_C, REG_B));
                self.registers.set_register_word((REG_C, REG_B), value.wrapping_add(1));
            },
            Instruction::IncrementB => {
                self.inc_reg_byte(REG_B);
            },
            Instruction::DecrementB => {
                self.dec_reg_byte(REG_B);
            },
            Instruction::LoadBImmediate => {
                let n = self.fetch_byte();
                self.registers.set_register(REG_B, n);
            },
            Instruction::RotateAccumulatorLeft => {
                self.rotate_accumulator_left();
            },
            Instruction::StoreStackPointer => {
                let nn = self.fetch_word();
                let sp = self.sp;
                assert(sp as u8 == sp % 256) by (bit_vector);
                assert((sp >> 8u16) == sp / 256) by (bit_vector);
                self.ram.write_byte(nn, #[verifier::truncate] (sp as u8));
                self.ram.write_byte(nn.wrapping_add(1), (sp >> 8) as u8);
            },
        }
    }

    /// The diagnostic dump of the present state.
    fn dump(&self, opcode: u8) -> (text: String)
        ensures
            text@ == dump_text(self@, opcode),
    {
        let mut text = String::from_str("Registers: ");
        text.append(self.registers.describe().as_str());
        text.append("\n");
        text.append("SP: ");
        text.append(format_hex_short(self.sp).as_str());
        text.append("\n");
        text.append("PC: ");
        text.append(format_hex_short(self.pc).as_str());
        text.append("\n");
        text.append("Opcode: ");
        text.append(format_hex_short(opcode as u16).as_str());
        text.append("\n");
        text
    }

    /// The dump that is due after an instruction with the given opcode: one
    /// of the present state if a dump was asked for after this opcode, none
    /// otherwise.
    fn dump_after(&self, opcode: u8) -> (dump: Option<String>)
        ensures
            dump is Some <==> self.dump_trigger() == Some(opcode),
            dump matches Some(text) ==> text@ == dump_text(self@, opcode),
    {
        if self.dump_registers_after.is_some() {
            if self.dump_registers_after.unwrap() == opcode {
                return Some(self.dump(opcode));
            }
        }
        None
    }

    /// Performs one fetch-decode-execute cycle.
    ///
    /// On an opcode of the table the state becomes what `step` gives, and
    /// the result holds a dump of the new state exactly when the opcode is
    /// the one a dump was asked for. On any other opcode the fault names the
    /// opcode and the program counter, and the state is untouched.
    pub fn execute(&mut self) -> (result: Result<Option<String>, Fault>)
        ensures
            final(self).dump_trigger() == old(self).dump_trigger(),
            match step(old(self)@) {
                Ok(next) => {
                    let opcode = old(self)@.memory[old(self)@.pc as int];
                    &&& final(self)@ == next
                    &&& result matches Ok(dump)
                    &&& dump is Some <==> old(self).dump_trigger() == Some(opcode)
                    &&& dump matches Some(text) ==> text@ == dump_text(next, opcode)
                },
                Err(fault) => {
                    &&& final(self)@ == old(self)@
                    &&& result matches Err(reported)
                    &&& reported == fault
                },
            },
    {
        proof {
            self.lemma_well_formed();
        }
        let opcode = self.ram.read_byte(self.pc);
        let instruction = match Instruction::decode(opcode) {
            Some(instruction) => instruction,
            None => {
                return Err(Fault::UnrecognizedOpcode { opcode, pc: self.pc });
            },
        };
        self.perform(instruction);
        self.pc = self.pc.wrapping_add(instruction.length());
        Ok(self.dump_after(opcode))
    }
}

/// `NOP` changes nothing but the program counter, which moves on by one.
pub proof fn lemma_nop_only_advances_pc(state: CpuState)
    requires
        state.well_formed(),
        state.memory[state.pc as int] == 0x00,
    ensures
        step(state) == Ok::<CpuState, Fault>(
            CpuState { pc: address_after(state.pc, 1), ..state },
        ),
{
}

/// An opcode outside the table gives no next state: the cycle faults, and
/// the fault names the opcode and the program counter at which it stood.
pub proof fn lemma_unrecognized_opcode_faults(state: CpuState)
    requires
        state.well_formed(),
        state.memory[state.pc as int] > 0x08,
    ensures
        step(state) == Err::<CpuState, Fault>(
            Fault::UnrecognizedOpcode { opcode: state.memory[state.pc as int], pc: state.pc },
        ),
{
}

/// A cycle that succeeds moves the program counter on by the length of the
/// instruction, between one and three bytes, and leaves the stack pointer
/// alone; the state stays well formed.
pub proof fn lemma_step_advances_pc(state: CpuState)
    requires
        state.well_formed(),
        step(state) is Ok,
    ensures
        Instruction::of_opcode(state.memory[state.pc as int]) matches Some(instruction)
            && step(state)->Ok_0.pc == address_after(
            state.pc,
            instruction.byte_length() as int,
        ),
        step(state)->Ok_0.sp == state.sp,
        step(state)->Ok_0.well_formed(),
{
}

/// An 8-bit increment of a register other than `F` changes that register
/// and `F` only. The zero flag is set exactly when the register held 0xFF,
/// the subtraction flag is clear, the half-carry flag is set exactly when
/// the low nibble held 0xF, and the carry flag keeps its value.
pub proof fn lemma_increment(registers: Seq<u8>, register: int)
    requires
        registers.len() == REGISTER_COUNT,
        0 <= register < REGISTER_COUNT,
        register != REG_F,
    ensures
        incremented(registers, register).len() == REGISTER_COUNT,
        incremented(registers, register)[register] == byte_after(registers[register]),
        FlagsRegister::from_byte(incremented(registers, register)[REG_F as int]) == (FlagsRegister {
            zero: registers[register] == 0xFF,
            subtraction: false,
            half_carry: registers[register] % 16 == 15,
            carry: FlagsRegister::from_byte(registers[REG_F as int]).carry,
        }),
        forall|other: int|
            0 <= other < REGISTER_COUNT && other != register && other != REG_F ==> incremented(
                registers,
                register,
            )[other] == registers[other],
{
}

/// An 8-bit decrement of a register other than `F` changes that register
/// and `F` only. The zero flag is set exactly when the register held 0x01,
/// the subtraction flag is set, the half-carry flag is set exactly when the
/// low nibble held 0x0, and the carry flag keeps its value.
pub proof fn lemma_decrement(registers: Seq<u8>, register: int)
    requires
        registers.len() == REGISTER_COUNT,
        0 <= register < REGISTER_COUNT,
        register != REG_F,
    ensures
        decremented(registers, register).len() == REGISTER_COUNT,
        decremented(registers, register)[register] == byte_before(registers[register]),
        FlagsRegister::from_byte(decremented(registers, register)[REG_F as int]) == (FlagsRegister {
            zero: registers[register] == 0x01,
            subtraction: true,
            half_carry: registers[register] % 16 == 0,
            carry: FlagsRegister::from_byte(registers[REG_F as int]).carry,
        }),
        forall|other: int|
            0 <= other < REGISTER_COUNT && other != register && other != REG_F ==> decremented(
                registers,
                register,
            )[other] == registers[other],
{
}

} // verus!
