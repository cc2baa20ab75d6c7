use mips_single_cycle::error::SimError;
use mips_single_cycle::single_cycle::TraceEntry;
use mips_single_cycle::text::push_hex;

fn hex(value: u64, width: u8, upper: bool) -> String {
    let mut text = String::new();
    push_hex(&mut text, value, width, upper);
    text
}

#[test]
fn hex_of_small_numbers() {
    assert_eq!(hex(0, 1, false), "0");
    assert_eq!(hex(0, 0, false), "0");
    assert_eq!(hex(9, 1, false), "9");
    assert_eq!(hex(10, 1, false), "a");
    assert_eq!(hex(15, 1, true), "F");
    assert_eq!(hex(16, 1, true), "10");
}

#[test]
fn hex_digits_in_both_cases() {
    assert_eq!(hex(0x0123_4567_89AB_CDEF, 1, false), "123456789abcdef");
    assert_eq!(hex(0x0123_4567_89AB_CDEF, 1, true), "123456789ABCDEF");
    assert_eq!(hex(u64::MAX, 1, true), "FFFFFFFFFFFFFFFF");
}

#[test]
fn hex_pads_with_zeros() {
    assert_eq!(hex(0x5, 8, false), "00000005");
    assert_eq!(hex(0, 8, false), "00000000");
    assert_eq!(hex(0xABC, 4, true), "0ABC");
    assert_eq!(hex(0x1234_5678, 8, false), "12345678");
    assert_eq!(hex(0x1_2345_6789, 8, false), "123456789");
}

#[test]
fn hex_is_appended() {
    let mut text = String::from("0x");
    push_hex(&mut text, 0xBEEF, 1, false);
    assert_eq!(text, "0xbeef");
}

#[test]
fn hex_agrees_with_std_formatting() {
    for value in [0u64, 1, 0xF, 0x10, 0xFF, 0x100, 0xDEAD_BEEF, 0xFFFF_FFFF, u64::MAX] {
        assert_eq!(hex(value, 1, false), format!("{:x}", value));
        assert_eq!(hex(value, 1, true), format!("{:X}", value));
        assert_eq!(hex(value, 8, false), format!("{:08x}", value));
    }
}

#[test]
fn message_of_unsupported_opcode() {
    assert_eq!(SimError::UnsupportedOpcode(0x03).message(), "Error: Unsupported OPCODE [3]");
    assert_eq!(SimError::UnsupportedOpcode(0x3F).message(), "Error: Unsupported OPCODE [3F]");
}

#[test]
fn message_of_unsupported_funct() {
    assert_eq!(SimError::UnsupportedFunct(0x1A).message(), "Error: Unsupported FUNCT [1A]");
    assert_eq!(SimError::UnsupportedFunct(0).message(), "Error: Unsupported FUNCT [0]");
}

#[test]
fn message_of_address_errors() {
    assert_eq!(SimError::InstrAddress(0x1002).message(), "Error: No instruction at [1002]");
    assert_eq!(SimError::DataAddress(0xFFFF_FFFF).message(), "Error: No data at [FFFFFFFF]");
}

#[test]
fn trace_lines() {
    let entry = TraceEntry { ip: 0x1c, instr: 0x2008_0005 };
    assert_eq!(entry.ip_line(), "> Instruction Pointer: 0x1c");
    assert_eq!(entry.instr_line(), "> Instruction: 0x20080005");
    let first = TraceEntry { ip: 0, instr: 0x5 };
    assert_eq!(first.ip_line(), "> Instruction Pointer: 0x0");
    assert_eq!(first.instr_line(), "> Instruction: 0x00000005");
}
