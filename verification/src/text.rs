//! Text forms of numbers and truth values, for the diagnostic dump.

use vstd::prelude::*;
use vstd::string::{StrSliceExecFns, StringExecFns};

verus! {

/// The upper-case hexadecimal digit for `n`, as a one-character text.
pub open spec fn hex_digit(n: int) -> Seq<char> {
    "0123456789ABCDEF"@.subrange(n, n + 1)
}

/// `value` as exactly four hexadecimal digits, leading zeros kept.
pub open spec fn hex_padded(value: u16) -> Seq<char> {
    hex_digit(value as int / 0x1000) + hex_digit(value as int / 0x100 % 0x10) + hex_digit(
        value as int / 0x10 % 0x10,
    ) + hex_digit(value as int % 0x10)
}

/// `value` in hexadecimal without leading zeros; zero is one digit.
pub open spec fn hex_short(value: u16) -> Seq<char> {
    if value < 0x10 {
        hex_digit(value as int)
    } else if value < 0x100 {
        hex_digit(value as int / 0x10) + hex_digit(value as int % 0x10)
    } else if value < 0x1000 {
        hex_digit(value as int / 0x100) + hex_digit(value as int / 0x10 % 0x10) + hex_digit(
            value as int % 0x10,
        )
    } else {
        hex_padded(value)
    }
}

/// `true` or `false`, spelled out.
pub open spec fn truth_text(value: bool) -> Seq<char> {
    if value {
        "true"@
    } else {
        "false"@
    }
}

/// Appends the hexadecimal digit for `n`.
pub fn push_hex_digit(text: &mut String, n: u16)
    requires
        n < 0x10,
    ensures
        final(text)@ == old(text)@ + hex_digit(n as int),
{
    let digits = "0123456789ABCDEF";
    proof {
        reveal_strlit("0123456789ABCDEF");
        assert(digits@.len() == 16);
        assert forall|i: int| 0 <= i < digits@.len() implies '\0' <= #[trigger] digits@[i]
            <= '\u{7f}' by {
            assert(digits@[i] == digits@.index(i));
        }
    }
    text.append(digits.substring_ascii(n as usize, n as usize + 1));
}

/// `value` as four hexadecimal digits.
pub fn format_hex_padded(value: u16) -> (text: String)
    ensures
        text@ == hex_padded(value),
{
    assert(value / 0x1000 < 0x10 && value / 0x100 % 0x10 < 0x10 && value / 0x10 % 0x10 < 0x10);
    let mut text = String::new();
    push_hex_digit(&mut text, value / 0x1000);
    push_hex_digit(&mut text, value / 0x100 % 0x10);
    push_hex_digit(&mut text, value / 0x10 % 0x10);
    push_hex_digit(&mut text, value % 0x10);
    text
}

/// `value` in hexadecimal with no leading zeros.
pub fn format_hex_short(value: u16) -> (text: String)
    ensures
        text@ == hex_short(value),
{
    let mut text = String::new();
    if value >= 0x1000 {
        push_hex_digit(&mut text, value / 0x1000);
    }
    if value >= 0x100 {
        push_hex_digit(&mut text, value / 0x100 % 0x10);
    }
    if value >= 0x10 {
        push_hex_digit(&mut text, value / 0x10 % 0x10);
    }
    push_hex_digit(&mut text, value % 0x10);
    text
}

/// The spelling of a truth value.
pub fn format_truth(value: bool) -> (text: &'static str)
    ensures
        text@ == truth_text(value),
{
    if value {
        "true"
    } else {
        "false"
    }
}

} // verus!
