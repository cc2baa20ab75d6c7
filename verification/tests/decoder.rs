use mips_single_cycle::instruction::{instr_decode, Instruction};

#[test]
fn decode_register_format() {
    // add $9, $8, $10
    let instr = instr_decode(0x010A_4820);
    assert_eq!(instr.opcode, 0);
    assert_eq!(instr.rs, 8);
    assert_eq!(instr.rt, 10);
    assert_eq!(instr.rd, 9);
    assert_eq!(instr.funct, 0x20);
}

#[test]
fn decode_immediate_format() {
    // lw $8, 0x1234($17)
    let instr = instr_decode(0x8E28_1234);
    assert_eq!(instr.opcode, 0x23);
    assert_eq!(instr.rs, 17);
    assert_eq!(instr.rt, 8);
    assert_eq!(instr.imm16, 0x1234);
}

#[test]
fn decode_jump_format() {
    let instr = instr_decode(0x0BFF_FFFF);
    assert_eq!(instr.opcode, 2);
    assert_eq!(instr.addr, 0x3FF_FFFF);
}

#[test]
fn decode_fills_every_field() {
    assert_eq!(
        instr_decode(0xFFFF_FFFF),
        Instruction {
            opcode: 0x3F,
            rs: 0x1F,
            rt: 0x1F,
            rd: 0x1F,
            funct: 0x3F,
            imm16: 0xFFFF,
            addr: 0x3FF_FFFF,
        }
    );
    assert_eq!(instr_decode(0), Instruction::default());
}

#[test]
fn decode_takes_each_field_from_its_own_bits() {
    assert_eq!(instr_decode(0xFC00_0000).opcode, 0x3F);
    assert_eq!(instr_decode(0x03FF_FFFF).opcode, 0);
    assert_eq!(instr_decode(0x03E0_0000).rs, 0x1F);
    assert_eq!(instr_decode(0xFC1F_FFFF).rs, 0);
    assert_eq!(instr_decode(0x001F_0000).rt, 0x1F);
    assert_eq!(instr_decode(0xFFE0_FFFF).rt, 0);
    assert_eq!(instr_decode(0x0000_F800).rd, 0x1F);
    assert_eq!(instr_decode(0xFFFF_07FF).rd, 0);
    assert_eq!(instr_decode(0x0000_003F).funct, 0x3F);
    assert_eq!(instr_decode(0xFFFF_FFC0).funct, 0);
    assert_eq!(instr_decode(0xFFFF_0000).imm16, 0);
    assert_eq!(instr_decode(0x0000_8001).imm16, 0x8001);
    assert_eq!(instr_decode(0xFC00_0000).addr, 0);
    assert_eq!(instr_decode(0x0200_0001).addr, 0x200_0001);
}
