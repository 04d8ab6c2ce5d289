//! The four condition flags and their packed byte form.
//!
//! The flags live in the high nibble of one byte: bit 7 is the zero flag,
//! bit 6 the subtraction flag, bit 5 the half-carry flag and bit 4 the carry
//! flag. The low nibble of an encoded byte is always zero.

use crate::text::{format_truth, truth_text};
use vstd::prelude::*;
use vstd::string::StringExecFns;

verus! {

/// Bit position of the zero flag in the packed byte.
pub const ZERO_FLAG_BYTE_POSITION: u8 = 7;

/// Bit position of the subtraction flag in the packed byte.
pub const SUBTRACT_FLAG_BYTE_POSITION: u8 = 6;

/// Bit position of the half-carry flag in the packed byte.
pub const HALF_CARRY_FLAG_BYTE_POSITION: u8 = 5;

/// Bit position of the carry flag in the packed byte.
pub const CARRY_FLAG_BYTE_POSITION: u8 = 4;

/// The condition flags as four independent booleans.
#[derive(Debug, Clone, Copy, PartialEq, Eq, Structural)]
pub struct FlagsRegister {
    pub zero: bool,
    pub subtraction: bool,
    pub half_carry: bool,
    pub carry: bool,
}

impl FlagsRegister {
    /// The packed byte: a set flag contributes the weight of its bit (128,
    /// 64, 32 and 16 for zero, subtraction, half-carry and carry), a clear
    /// flag contributes nothing, and so does the low nibble.
    pub open spec fn to_byte(self) -> u8 {
        ((if self.zero { 0x80int } else { 0 }) + (if self.subtraction { 0x40int } else { 0 }) + (
        if self.half_carry { 0x20int } else { 0 }) + (if self.carry { 0x10int } else { 0 })) as u8
    }

    /// The flags held by a byte: bits 7, 6, 5 and 4. Bits 3 to 0 play no part.
    pub open spec fn from_byte(byte: u8) -> FlagsRegister {
        FlagsRegister {
            zero: byte / 0x80 % 2 == 1,
            subtraction: byte / 0x40 % 2 == 1,
            half_carry: byte / 0x20 % 2 == 1,
            carry: byte / 0x10 % 2 == 1,
        }
    }

    /// These flags with each given override applied; `None` keeps a flag.
    pub open spec fn with_overrides(
        self,
        zero: Option<bool>,
        subtraction: Option<bool>,
        half_carry: Option<bool>,
        carry: Option<bool>,
    ) -> FlagsRegister {
        FlagsRegister {
            zero: if let Some(z) = zero { z } else { self.zero },
            subtraction: if let Some(n) = subtraction { n } else { self.subtraction },
            half_carry: if let Some(h) = half_carry { h } else { self.half_carry },
            carry: if let Some(c) = carry { c } else { self.carry },
        }
    }
}

/// The four flags written out by name, in the order zero, subtraction,
/// half-carry, carry.
pub open spec fn flags_text(flags: FlagsRegister) -> Seq<char> {
    "FlagsRegister { zero: "@ + truth_text(flags.zero) + ", subtraction: "@ + truth_text(
        flags.subtraction,
    ) + ", half_carry: "@ + truth_text(flags.half_carry) + ", carry: "@ + truth_text(flags.carry)
        + " }"@
}

impl FlagsRegister {
    /// The flags as text, for the diagnostic dump.
    pub fn describe(&self) -> (text: String)
        ensures
            text@ == flags_text(*self),
    {
        let mut text = String::from_str("FlagsRegister { zero: ");
        text.append(format_truth(self.zero));
        text.append(", subtraction: ");
        text.append(format_truth(self.subtraction));
        text.append(", half_carry: ");
        text.append(format_truth(self.half_carry));
        text.append(", carry: ");
        text.append(format_truth(self.carry));
        text.append(" }");
        text
    }
}

impl vstd::std_specs::convert::FromSpecImpl<FlagsRegister> for u8 {
    open spec fn obeys_from_spec() -> bool {
        true
    }

    open spec fn from_spec(flag: FlagsRegister) -> u8 {
        flag.to_byte()
    }
}

impl From<FlagsRegister> for u8 {
    /// Packs the four flags into the high nibble of a byte.
    fn from(flag: FlagsRegister) -> (byte: u8)
        ensures
            byte == flag.to_byte(),
    {
        let zero: u8 = if flag.zero { 1 } else { 0 };
        let subtraction: u8 = if flag.subtraction { 1 } else { 0 };
        let half_carry: u8 = if flag.half_carry { 1 } else { 0 };
        let carry: u8 = if flag.carry { 1 } else { 0 };
        assert((zero << 7u8 | subtraction << 6u8 | half_carry << 5u8 | carry << 4u8) == 0x80
            * zero + 0x40 * subtraction + 0x20 * half_carry + 0x10 * carry) by (bit_vector)
            requires
                zero <= 1,
                subtraction <= 1,
                half_carry <= 1,
                carry <= 1,
        ;
        zero << ZERO_FLAG_BYTE_POSITION | subtraction << SUBTRACT_FLAG_BYTE_POSITION | half_carry
            << HALF_CARRY_FLAG_BYTE_POSITION | carry << CARRY_FLAG_BYTE_POSITION
    }
}

impl vstd::std_specs::convert::FromSpecImpl<u8> for FlagsRegister {
    open spec fn obeys_from_spec() -> bool {
        true
    }

    open spec fn from_spec(byte: u8) -> FlagsRegister {
        FlagsRegister::from_byte(byte)
    }
}

impl From<u8> for FlagsRegister {
    /// Reads the four flags out of the high nibble of a byte.
    fn from(byte: u8) -> (flags: FlagsRegister)
        ensures
            flags == FlagsRegister::from_byte(byte),
    {
        let zero = ((byte >> ZERO_FLAG_BYTE_POSITION) & 0b1) != 0;
        let subtraction = ((byte >> SUBTRACT_FLAG_BYTE_POSITION) & 0b1) != 0;
        let half_carry = ((byte >> HALF_CARRY_FLAG_BYTE_POSITION) & 0b1) != 0;
        let carry = ((byte >> CARRY_FLAG_BYTE_POSITION) & 0b1) != 0;
        assert(((byte >> 7u8) & 1 != 0) == (byte / 0x80 % 2 == 1)) by (bit_vector);
        assert(((byte >> 6u8) & 1 != 0) == (byte / 0x40 % 2 == 1)) by (bit_vector);
        assert(((byte >> 5u8) & 1 != 0) == (byte / 0x20 % 2 == 1)) by (bit_vector);
        assert(((byte >> 4u8) & 1 != 0) == (byte / 0x10 % 2 == 1)) by (bit_vector);
        FlagsRegister { zero, subtraction, half_carry, carry }
    }
}

/// Decoding an encoded byte gives back the four flags that were encoded.
pub proof fn lemma_decode_encode(flags: FlagsRegister)
    ensures
        FlagsRegister::from_byte(flags.to_byte()) == flags,
{
}

/// Encoding the flags decoded from a byte keeps bits 7 to 4 of the byte and
/// clears bits 3 to 0.
pub proof fn lemma_encode_decode(byte: u8)
    ensures
        FlagsRegister::from_byte(byte).to_byte() == byte & 0xF0,
{
    assert(byte & 0xF0 == (byte / 0x10) * 0x10) by (bit_vector);
}

/// An encoded byte never has a bit set in its low nibble.
pub proof fn lemma_encoded_low_nibble_clear(flags: FlagsRegister)
    ensures
        flags.to_byte() & 0x0F == 0,
        flags.to_byte() % 0x10 == 0,
{
    let b = flags.to_byte();
    assert(b % 0x10 == 0);
    assert(b % 0x10 == 0 ==> b & 0x0F == 0) by (bit_vector);
}

} // verus!
