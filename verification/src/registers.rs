//! The register file: eight 8-bit cells, read and written one at a time or
//! as little-endian 16-bit pairs.
//!
//! Index layout, low half of each pair first: `F A C B E D L H`. The flags
//! byte is register `F`, the low half of the pair `AF`.

use crate::flags::{flags_text, FlagsRegister};
use crate::text::{format_hex_padded, hex_padded};
use vstd::prelude::*;
use vstd::string::{StrSliceExecFns, StringExecFns};

verus! {

/// Number of 8-bit registers.
pub const REGISTER_COUNT: usize = 8;

/// The packed flags byte, low half of the pair `AF`.
pub const REG_F: usize = 0;

/// The accumulator, high half of the pair `AF`.
pub const REG_A: usize = 1;

/// Low half of the pair `BC`.
pub const REG_C: usize = 2;

/// High half of the pair `BC`.
pub const REG_B: usize = 3;

/// Low half of the pair `DE`.
pub const REG_E: usize = 4;

/// High half of the pair `DE`.
pub const REG_D: usize = 5;

/// Low half of the pair `HL`.
pub const REG_L: usize = 6;

/// High half of the pair `HL`.
pub const REG_H: usize = 7;

/// The 16-bit value of the pair `codes`: the register at `codes.0` is the
/// low byte and the register at `codes.1` the high byte.
pub open spec fn pair_value(registers: Seq<u8>, codes: (usize, usize)) -> u16 {
    (registers[codes.0 as int] + registers[codes.1 as int] * 256) as u16
}

/// The register file after `value` is written to the pair `codes`: first the
/// low byte to `codes.0`, then the high byte to `codes.1`.
pub open spec fn with_pair(registers: Seq<u8>, codes: (usize, usize), value: u16) -> Seq<u8> {
    registers.update(codes.0 as int, (value % 256) as u8).update(
        codes.1 as int,
        (value / 256) as u8,
    )
}

/// The register file as text: the four canonical pairs as four hexadecimal
/// digits each, then the flags, one item per line.
pub open spec fn registers_text(registers: Seq<u8>) -> Seq<char> {
    "Registers:"@ + " AF: "@ + hex_padded(pair_value(registers, (REG_F, REG_A))) + "\n"@
        + " BC: "@ + hex_padded(pair_value(registers, (REG_C, REG_B))) + "\n"@ + " DE: "@
        + hex_padded(pair_value(registers, (REG_E, REG_D))) + "\n"@ + " HL: "@ + hex_padded(
        pair_value(registers, (REG_L, REG_H)),
    ) + "\n"@ + " Flags: "@ + flags_text(FlagsRegister::from_byte(registers[REG_F as int]))
        + "\n"@
}

/// The eight 8-bit registers.
pub struct Registers {
    registers: [u8; 8],
}

impl View for Registers {
    type V = Seq<u8>;

    /// The eight cells, by index.
    closed spec fn view(&self) -> Seq<u8> {
        self.registers@
    }
}

impl Registers {
    /// The flags held in register `F`.
    pub open spec fn flags(&self) -> FlagsRegister {
        FlagsRegister::from_byte(self@[REG_F as int])
    }

    /// A register file always has exactly eight cells.
    pub proof fn lemma_len(&self)
        ensures
            self@.len() == REGISTER_COUNT,
    {
    }

    /// A register file with every cell zero.
    pub fn new() -> (registers: Registers)
        ensures
            registers@ == Seq::new(REGISTER_COUNT as nat, |i: int| 0u8),
    {
        Registers { registers: [0;8] }
    }

    /// Reads the pair `codes` as one 16-bit value, `codes.0` being the low
    /// byte.
    pub fn get_register_word(&self, codes: (usize, usize)) -> (word: u16)
        requires
            codes.0 < REGISTER_COUNT,
            codes.1 < REGISTER_COUNT,
        ensures
            word == pair_value(self@, codes),
            word == self@[codes.0 as int] + self@[codes.1 as int] * 256,
    {
        let low = self.registers[codes.0];
        let high = self.registers[codes.1];
        assert(((high as u16) << 8u16) == high * 256) by (bit_vector);
        low as u16 + ((high as u16) << 8)
    }

    /// Writes `value` to the pair `codes`: the low byte to `codes.0`, then
    /// the high byte to `codes.1`.
    pub fn set_register_word(&mut self, codes: (usize, usize), value: u16)
        requires
            codes.0 < REGISTER_COUNT,
            codes.1 < REGISTER_COUNT,
        ensures
            final(self)@ == with_pair(old(self)@, codes, value),
    {
        assert(value as u8 == value % 256) by (bit_vector);
        assert((value >> 8u16) == value / 256) by (bit_vector);
        self.registers[codes.0] = #[verifier::truncate] (value as u8);
        self.registers[codes.1] = (value >> 8) as u8;
    }

    /// Reads one register.
    pub fn get_register(&self, register: usize) -> (value: u8)
        requires
            register < REGISTER_COUNT,
        ensures
            value == self@[register as int],
    {
        self.registers[register]
    }

    /// Writes one register; the others keep their values.
    pub fn set_register(&mut self, register: usize, value: u8)
        requires
            register < REGISTER_COUNT,
        ensures
            final(self)@ == old(self)@.update(register as int, value),
    {
        self.registers[register] = value;
    }

    /// The register file as text, for the diagnostic dump.
    pub fn describe(&self) -> (text: String)
        ensures
            text@ == registers_text(self@),
    {
        let mut text = String::from_str("Registers:");
        text.append(" AF: ");
        text.append(format_hex_padded(self.get_register_word((REG_F, REG_A))).as_str());
        text.append("\n");
        text.append(" BC: ");
        text.append(format_hex_padded(self.get_register_word((REG_C, REG_B))).as_str());
        text.append("\n");
        text.append(" DE: ");
        text.append(format_hex_padded(self.get_register_word((REG_E, REG_D))).as_str());
        text.append("\n");
        text.append(" HL: ");
        text.append(format_hex_padded(self.get_register_word((REG_L, REG_H))).as_str());
        text.append("\n");
        text.append(" Flags: ");
        text.append(self.get_flags().describe().as_str());
        text.append("\n");
        text
    }

    /// Decodes the flags from register `F`.
    pub fn get_flags(&self) -> (flags: FlagsRegister)
        ensures
            flags == self.flags(),
    {
        FlagsRegister::from(self.registers[REG_F])
    }

    /// Overrides the flags for which a value is given and keeps the others.
    /// Only register `F` changes; its low nibble comes out clear.
    pub fn set_flags(
        &mut self,
        zero: Option<bool>,
        subtraction: Option<bool>,
        half_carry: Option<bool>,
        carry: Option<bool>,
    )
        ensures
            final(self)@ == old(self)@.update(
                REG_F as int,
                old(self).flags().with_overrides(zero, subtraction, half_carry, carry).to_byte(),
            ),
            final(self).flags() == old(self).flags().with_overrides(
                zero,
                subtraction,
                half_carry,
                carry,
            ),
    {
        let c_flag = self.get_flags();
        let flags = FlagsRegister {
            zero: zero.unwrap_or(c_flag.zero),
            subtraction: subtraction.unwrap_or(c_flag.subtraction),
            half_carry: half_carry.unwrap_or(c_flag.half_carry),
            carry: carry.unwrap_or(c_flag.carry),
        };
        self.registers[REG_F] = u8::from(flags);
    }
}

/// Reading a pair back after writing `value` to it gives `value`, and the
/// two registers hold its little-endian split, whenever the pair is made of
/// two different registers (or the two bytes of `value` are equal).
pub proof fn lemma_pair_round_trip(registers: Seq<u8>, codes: (usize, usize), value: u16)
    requires
        registers.len() == REGISTER_COUNT,
        codes.0 < REGISTER_COUNT,
        codes.1 < REGISTER_COUNT,
        codes.0 != codes.1 || value % 256 == value / 256,
    ensures
        pair_value(with_pair(registers, codes, value), codes) == value,
        with_pair(registers, codes, value)[codes.0 as int] == value & 0xFF,
        with_pair(registers, codes, value)[codes.1 as int] == (value >> 8) & 0xFF,
{
    assert(value & 0xFF == value % 256) by (bit_vector);
    assert((value >> 8) & 0xFF == value / 256) by (bit_vector);
}

/// Writing a pair changes no register outside the pair.
pub proof fn lemma_pair_write_is_local(
    registers: Seq<u8>,
    codes: (usize, usize),
    value: u16,
    other: int,
)
    requires
        registers.len() == REGISTER_COUNT,
        codes.0 < REGISTER_COUNT,
        codes.1 < REGISTER_COUNT,
        0 <= other < REGISTER_COUNT,
        other != codes.0,
        other != codes.1,
    ensures
        with_pair(registers, codes, value)[other] == registers[other],
        with_pair(registers, codes, value).len() == REGISTER_COUNT,
{
}

/// Whether `c` is the letter given in its two cases.
pub open spec fn is_letter(c: char, lower: char, upper: char) -> bool {
    c == lower || c == upper
}

/// The register pair that a two-letter name stands for, letters in either
/// case: `af`, `bc`, `de` or `hl`. The result is (low index, high index).
pub open spec fn pair_named(name: Seq<char>) -> Option<(usize, usize)> {
    if name.len() != 2 {
        None
    } else if is_letter(name[0], 'a', 'A') && is_letter(name[1], 'f', 'F') {
        Some((REG_F, REG_A))
    } else if is_letter(name[0], 'b', 'B') && is_letter(name[1], 'c', 'C') {
        Some((REG_C, REG_B))
    } else if is_letter(name[0], 'd', 'D') && is_letter(name[1], 'e', 'E') {
        Some((REG_E, REG_D))
    } else if is_letter(name[0], 'h', 'H') && is_letter(name[1], 'l', 'L') {
        Some((REG_L, REG_H))
    } else {
        None
    }
}

/// Values that name a register pair.
pub trait ToRegisterCode {
    /// Whether the value names a register pair at all.
    spec fn is_pair_name(&self) -> bool;

    /// The pair named, as (low index, high index).
    spec fn pair_codes(&self) -> (usize, usize);

    /// The indices of the pair, low half first. Both are valid and differ.
    fn codes(&self) -> (codes: (usize, usize))
        requires
            self.is_pair_name(),
        ensures
            codes == self.pair_codes(),
            codes.0 < REGISTER_COUNT,
            codes.1 < REGISTER_COUNT,
            codes.0 != codes.1,
    ;

    /// The index of the pair's low half.
    fn code(&self) -> (code: usize)
        requires
            self.is_pair_name(),
        ensures
            code == self.pair_codes().0,
            code < REGISTER_COUNT,
    {
        Self::codes(self).0
    }
}

/// Looks a register pair up by its name; `None` for any other text.
pub fn pair_by_name(name: &str) -> (pair: Option<(usize, usize)>)
    ensures
        pair == pair_named(name@),
{
    if name.unicode_len() != 2 {
        return None;
    }
    let first = name.get_char(0);
    let second = name.get_char(1);
    if (first == 'a' || first == 'A') && (second == 'f' || second == 'F') {
        Some((REG_F, REG_A))
    } else if (first == 'b' || first == 'B') && (second == 'c' || second == 'C') {
        Some((REG_C, REG_B))
    } else if (first == 'd' || first == 'D') && (second == 'e' || second == 'E') {
        Some((REG_E, REG_D))
    } else if (first == 'h' || first == 'H') && (second == 'l' || second == 'L') {
        Some((REG_L, REG_H))
    } else {
        None
    }
}

impl ToRegisterCode for &str {
    open spec fn is_pair_name(&self) -> bool {
        pair_named(self@) is Some
    }

    open spec fn pair_codes(&self) -> (usize, usize) {
        pair_named(self@)->0
    }

    fn codes(&self) -> (codes: (usize, usize)) {
        pair_by_name(self).unwrap()
    }
}

} // verus!
