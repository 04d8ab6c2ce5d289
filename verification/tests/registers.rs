use gb_cpu::flags::FlagsRegister;
use gb_cpu::registers::{
    pair_by_name, Registers, ToRegisterCode, REGISTER_COUNT, REG_A, REG_B, REG_C, REG_D, REG_E,
    REG_F, REG_H, REG_L,
};

#[test]
fn new_register_file_is_zeroed() {
    let registers = Registers::new();
    for index in 0..REGISTER_COUNT {
        assert_eq!(registers.get_register(index), 0);
    }
    assert_eq!(registers.get_register_word((REG_F, REG_A)), 0);
    assert_eq!(
        registers.get_flags(),
        FlagsRegister { zero: false, subtraction: false, half_carry: false, carry: false }
    );
}

#[test]
fn set_register_changes_one_cell() {
    let mut registers = Registers::new();
    registers.set_register(REG_D, 0xAB);
    for index in 0..REGISTER_COUNT {
        let expected = if index == REG_D { 0xAB } else { 0 };
        assert_eq!(registers.get_register(index), expected);
    }
}

#[test]
fn pair_is_little_endian() {
    let mut registers = Registers::new();
    registers.set_register_word((REG_C, REG_B), 0x1234);
    assert_eq!(registers.get_register(REG_C), 0x34);
    assert_eq!(registers.get_register(REG_B), 0x12);
    assert_eq!(registers.get_register_word((REG_C, REG_B)), 0x1234);

    let mut registers = Registers::new();
    registers.set_register(REG_L, 0xCD);
    registers.set_register(REG_H, 0xAB);
    assert_eq!(registers.get_register_word((REG_L, REG_H)), 0xABCD);
    assert_eq!(registers.get_register_word((REG_H, REG_L)), 0xCDAB);
}

#[test]
fn pair_round_trips_for_all_distinct_indices() {
    let values: [u16; 8] = [0x0000, 0x0001, 0x00FF, 0x0100, 0x1234, 0x8000, 0xFF00, 0xFFFF];
    for low in 0..REGISTER_COUNT {
        for high in 0..REGISTER_COUNT {
            if low == high {
                continue;
            }
            for value in values {
                let mut registers = Registers::new();
                registers.set_register_word((low, high), value);
                assert_eq!(registers.get_register_word((low, high)), value);
                assert_eq!(registers.get_register(low) as u16, value & 0xFF);
                assert_eq!(registers.get_register(high) as u16, (value >> 8) & 0xFF);
                for other in 0..REGISTER_COUNT {
                    if other != low && other != high {
                        assert_eq!(registers.get_register(other), 0);
                    }
                }
            }
        }
    }
}

#[test]
fn pair_round_trips_for_every_value_on_bc() {
    let mut registers = Registers::new();
    for value in 0u16..=0xFFFF {
        registers.set_register_word((REG_C, REG_B), value);
        assert_eq!(registers.get_register_word((REG_C, REG_B)), value);
    }
}

#[test]
fn pair_of_one_register_keeps_the_high_byte() {
    let mut registers = Registers::new();
    registers.set_register_word((REG_E, REG_E), 0x1234);
    assert_eq!(registers.get_register(REG_E), 0x12);
    assert_eq!(registers.get_register_word((REG_E, REG_E)), 0x1212);
    registers.set_register_word((REG_E, REG_E), 0x5656);
    assert_eq!(registers.get_register_word((REG_E, REG_E)), 0x5656);
}

#[test]
fn flags_live_in_register_f() {
    let mut registers = Registers::new();
    registers.set_register(REG_F, 0b1001_0000);
    assert_eq!(
        registers.get_flags(),
        FlagsRegister { zero: true, subtraction: false, half_carry: false, carry: true }
    );
    registers.set_register_word((REG_F, REG_A), 0x7740);
    assert_eq!(registers.get_register(REG_A), 0x77);
    assert_eq!(
        registers.get_flags(),
        FlagsRegister { zero: false, subtraction: true, half_carry: false, carry: false }
    );
}

#[test]
fn set_flags_overrides_only_what_is_given() {
    let mut registers = Registers::new();
    registers.set_flags(Some(true), None, None, Some(true));
    assert_eq!(registers.get_register(REG_F), 0x90);
    assert_eq!(
        registers.get_flags(),
        FlagsRegister { zero: true, subtraction: false, half_carry: false, carry: true }
    );
    registers.set_flags(None, Some(true), None, Some(false));
    assert_eq!(registers.get_register(REG_F), 0xC0);
    assert_eq!(
        registers.get_flags(),
        FlagsRegister { zero: true, subtraction: true, half_carry: false, carry: false }
    );
    registers.set_flags(Some(false), None, Some(true), None);
    assert_eq!(registers.get_register(REG_F), 0x60);
    registers.set_flags(None, None, None, None);
    assert_eq!(registers.get_register(REG_F), 0x60);
}

#[test]
fn set_flags_leaves_other_registers_alone() {
    let mut registers = Registers::new();
    for index in 1..REGISTER_COUNT {
        registers.set_register(index, 0x10 + index as u8);
    }
    registers.set_flags(Some(true), Some(true), Some(true), Some(true));
    assert_eq!(registers.get_register(REG_F), 0xF0);
    for index in 1..REGISTER_COUNT {
        assert_eq!(registers.get_register(index), 0x10 + index as u8);
    }
}

#[test]
fn set_flags_clears_stray_low_bits() {
    let mut registers = Registers::new();
    registers.set_register(REG_F, 0x8F);
    registers.set_flags(None, None, None, None);
    assert_eq!(registers.get_register(REG_F), 0x80);
}

#[test]
fn every_partial_update_keeps_the_unnamed_flags() {
    let choices = [None, Some(false), Some(true)];
    for start in 0u8..16 {
        for zero in choices {
            for subtraction in choices {
                for half_carry in choices {
                    for carry in choices {
                        let mut registers = Registers::new();
                        registers.set_register(REG_F, start << 4);
                        let before = registers.get_flags();
                        registers.set_flags(zero, subtraction, half_carry, carry);
                        let after = registers.get_flags();
                        assert_eq!(after.zero, zero.unwrap_or(before.zero));
                        assert_eq!(after.subtraction, subtraction.unwrap_or(before.subtraction));
                        assert_eq!(after.half_carry, half_carry.unwrap_or(before.half_carry));
                        assert_eq!(after.carry, carry.unwrap_or(before.carry));
                    }
                }
            }
        }
    }
}

#[test]
fn pair_names_give_low_then_high_index() {
    assert_eq!("af".codes(), (REG_F, REG_A));
    assert_eq!("bc".codes(), (REG_C, REG_B));
    assert_eq!("de".codes(), (REG_E, REG_D));
    assert_eq!("hl".codes(), (REG_L, REG_H));
    assert_eq!("af".codes(), (0, 1));
    assert_eq!("bc".codes(), (2, 3));
    assert_eq!("de".codes(), (4, 5));
    assert_eq!("hl".codes(), (6, 7));
}

#[test]
fn pair_names_ignore_case() {
    assert_eq!("AF".codes(), (0, 1));
    assert_eq!("Bc".codes(), (2, 3));
    assert_eq!("dE".codes(), (4, 5));
    assert_eq!("HL".codes(), (6, 7));
}

#[test]
fn code_is_the_low_half_of_the_pair() {
    assert_eq!("af".code(), REG_F);
    assert_eq!("bc".code(), REG_C);
    assert_eq!("de".code(), REG_E);
    assert_eq!("HL".code(), REG_L);
}

#[test]
fn named_pair_reads_and_writes() {
    let mut registers = Registers::new();
    registers.set_register_word("bc".codes(), 0xBEEF);
    assert_eq!(registers.get_register_word("BC".codes()), 0xBEEF);
    assert_eq!(registers.get_register(REG_B), 0xBE);
    assert_eq!(registers.get_register(REG_C), 0xEF);
    assert_eq!(registers.get_register("bc".code()), 0xEF);
}

#[test]
fn registers_text_lists_pairs_and_flags() {
    let registers = Registers::new();
    assert_eq!(
        registers.describe(),
        "Registers: AF: 0000\n BC: 0000\n DE: 0000\n HL: 0000\n Flags: FlagsRegister { zero: false, subtraction: false, half_carry: false, carry: false }\n"
    );
    let mut registers = Registers::new();
    registers.set_register_word((REG_F, REG_A), 0x01B0);
    registers.set_register_word((REG_C, REG_B), 0x0013);
    registers.set_register_word((REG_E, REG_D), 0x00D8);
    registers.set_register_word((REG_L, REG_H), 0xABCD);
    assert_eq!(
        registers.describe(),
        "Registers: AF: 01B0\n BC: 0013\n DE: 00D8\n HL: ABCD\n Flags: FlagsRegister { zero: true, subtraction: false, half_carry: true, carry: true }\n"
    );
}

#[test]
fn lookup_finds_the_four_pairs() {
    assert_eq!(pair_by_name("af"), Some((REG_F, REG_A)));
    assert_eq!(pair_by_name("BC"), Some((REG_C, REG_B)));
    assert_eq!(pair_by_name("De"), Some((REG_E, REG_D)));
    assert_eq!(pair_by_name("hL"), Some((REG_L, REG_H)));
}

#[test]
fn lookup_rejects_other_text() {
    assert_eq!(pair_by_name(""), None);
    assert_eq!(pair_by_name("a"), None);
    assert_eq!(pair_by_name("b"), None);
    assert_eq!(pair_by_name("afx"), None);
    assert_eq!(pair_by_name("ab"), None);
    assert_eq!(pair_by_name("bd"), None);
    assert_eq!(pair_by_name("fa"), None);
    assert_eq!(pair_by_name("sp"), None);
    assert_eq!(pair_by_name("h\u{e9}"), None);
    assert_eq!(pair_by_name("\u{e9}l"), None);
}

#[test]
fn named_pairs_are_valid_and_distinct() {
    for name in ["af", "bc", "de", "hl"] {
        let (low, high) = name.codes();
        assert!(low < REGISTER_COUNT);
        assert!(high < REGISTER_COUNT);
        assert_ne!(low, high);
        assert_eq!(name.code(), low);
        assert_eq!(pair_by_name(name), Some((low, high)));
    }
}
