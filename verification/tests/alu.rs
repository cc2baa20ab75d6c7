use mips_single_cycle::phases::{apply_not_res, execute_alu};

#[test]
fn alu_adds() {
    assert_eq!(execute_alu(2, 5, 3, 0), (8, false));
}

#[test]
fn alu_subtracts_by_negating() {
    assert_eq!(execute_alu(2, 5, 3, 1), (2, false));
}

#[test]
fn alu_ands() {
    assert_eq!(execute_alu(0, 0xFF, 0x0F, 0), (0x0F, false));
}

#[test]
fn alu_or_of_zeros_sets_zero_flag() {
    assert_eq!(execute_alu(1, 0, 0, 0), (0, true));
}

#[test]
fn alu_ors() {
    assert_eq!(execute_alu(1, 0xF0F0_0000, 0x0000_0F0F, 0), (0xF0F0_0F0F, false));
}

#[test]
fn alu_xors() {
    assert_eq!(execute_alu(4, 0xFF00_FF00, 0x0FF0_0FF0, 0), (0xF0F0_F0F0, false));
    assert_eq!(execute_alu(4, 0x1234_5678, 0x1234_5678, 0), (0, true));
}

#[test]
fn alu_addition_wraps() {
    assert_eq!(execute_alu(2, 0xFFFF_FFFF, 1, 0), (0, true));
    assert_eq!(execute_alu(2, 0xFFFF_FFFF, 2, 0), (1, false));
    assert_eq!(execute_alu(2, 0x8000_0000, 0x8000_0000, 0), (0, true));
}

#[test]
fn alu_subtraction_wraps() {
    assert_eq!(execute_alu(2, 3, 5, 1), (0xFFFF_FFFE, false));
    assert_eq!(execute_alu(2, 7, 7, 1), (0, true));
    assert_eq!(execute_alu(2, 0, 0, 1), (0, true));
    assert_eq!(execute_alu(2, 0, 0x8000_0000, 1), (0x8000_0000, false));
}

#[test]
fn alu_less_than_is_signed() {
    assert_eq!(execute_alu(3, 1, 2, 0), (1, false));
    assert_eq!(execute_alu(3, 2, 1, 0), (0, true));
    assert_eq!(execute_alu(3, 2, 2, 0), (0, true));
    assert_eq!(execute_alu(3, 0xFFFF_FFFF, 0, 0), (1, false));
    assert_eq!(execute_alu(3, 0, 0xFFFF_FFFF, 0), (0, true));
    assert_eq!(execute_alu(3, 0x8000_0000, 0x7FFF_FFFF, 0), (1, false));
    assert_eq!(execute_alu(3, 0xFFFF_FFFE, 0xFFFF_FFFF, 0), (1, false));
}

#[test]
fn alu_negates_second_operand_before_every_operation() {
    // -3 is 0xFFFF_FFFD
    assert_eq!(execute_alu(0, 0xFF, 3, 1), (0xFD, false));
    assert_eq!(execute_alu(1, 0, 3, 1), (0xFFFF_FFFD, false));
    assert_eq!(execute_alu(4, 0xFFFF_FFFD, 3, 1), (0, true));
    // 1 < -3 does not hold, -5 < -3 does
    assert_eq!(execute_alu(3, 1, 3, 1), (0, true));
    assert_eq!(execute_alu(3, 0xFFFF_FFFB, 3, 1), (1, false));
}

#[test]
fn alu_negates_only_when_flag_is_one() {
    assert_eq!(execute_alu(2, 5, 3, 2), (8, false));
}

#[test]
fn not_res_inverts_result_and_zero_flag() {
    assert_eq!(apply_not_res(0, true, 1), (0xFFFF_FFFF, false));
}

#[test]
fn not_res_clear_changes_nothing() {
    assert_eq!(apply_not_res(0, true, 0), (0, true));
    assert_eq!(apply_not_res(0x1234, false, 0), (0x1234, false));
}

#[test]
fn not_res_turns_or_into_nor() {
    let (raw, zero) = execute_alu(1, 0xF0F0_0000, 0x0000_0F0F, 0);
    assert_eq!(apply_not_res(raw, zero, 1), (0x0F0F_F0F0, true));
}
