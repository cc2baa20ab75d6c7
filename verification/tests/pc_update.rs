use mips_single_cycle::control_bits::ControlBits;
use mips_single_cycle::single_cycle::calc_ip;

fn branch_bits() -> ControlBits {
    ControlBits::derive(0x05, 0).unwrap()
}

fn jump_bits() -> ControlBits {
    ControlBits::derive(0x02, 0).unwrap()
}

fn plain_bits() -> ControlBits {
    ControlBits::derive(0x08, 0).unwrap()
}

#[test]
fn branch_taken_replaces_low_half_word() {
    assert_eq!(calc_ip(&branch_bits(), 0x0000_1000, 0x0020, 1), 0x0000_0020);
}

#[test]
fn branch_taken_keeps_high_half_word() {
    assert_eq!(calc_ip(&branch_bits(), 0x1234_5678, 0x0020, 1), 0x1234_0020);
    assert_eq!(calc_ip(&branch_bits(), 0xFFFF_FFFC, 0xFFFF, 1), 0xFFFF_FFFF);
}

#[test]
fn branch_not_taken_moves_on() {
    assert_eq!(calc_ip(&branch_bits(), 0x0000_1000, 0x0020, 0), 0x0000_1004);
}

#[test]
fn jump_replaces_below_top_byte() {
    assert_eq!(calc_ip(&jump_bits(), 0x0040_0000, 0x00_0010, 0), 0x0000_0010);
    assert_eq!(calc_ip(&jump_bits(), 0x0040_0000, 0x00_0010, 1), 0x0000_0010);
}

#[test]
fn jump_keeps_top_byte() {
    assert_eq!(calc_ip(&jump_bits(), 0xAB12_3456, 0x00_0010, 0), 0xAB00_0010);
}

#[test]
fn jump_target_is_put_over_the_kept_byte() {
    assert_eq!(calc_ip(&jump_bits(), 0xA400_0000, 0x300_0004, 0), 0xA700_0004);
}

#[test]
fn sequential_adds_four() {
    assert_eq!(calc_ip(&plain_bits(), 0, 0, 0), 4);
    assert_eq!(calc_ip(&plain_bits(), 0x0FFF_FFFC, 0, 1), 0x1000_0000);
    assert_eq!(calc_ip(&plain_bits(), 0xFFFF_FFFB, 0x1234, 1), 0xFFFF_FFFF);
}

#[test]
fn branch_goes_before_jump() {
    let mut both = branch_bits();
    both.jump = 1;
    assert_eq!(calc_ip(&both, 0x1234_5678, 0x0020, 1), 0x1234_0020);
    assert_eq!(calc_ip(&both, 0x1234_5678, 0x0020, 0), 0x1200_0020);
}
