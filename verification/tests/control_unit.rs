use mips_single_cycle::control_bits::ControlBits;
use mips_single_cycle::error::SimError;
use mips_single_cycle::instruction::Instruction;
use mips_single_cycle::single_cycle::fill_control_bits;

fn bits(v: [u8; 12]) -> ControlBits {
    ControlBits {
        reg_dst: v[0],
        reg_write: v[1],
        branch: v[2],
        jump: v[3],
        mem_read: v[4],
        mem_write: v[5],
        mem_to_reg: v[6],
        mem_by_byte: v[7],
        imm_upper: v[8],
        alu_op: v[9],
        alu_bnegate: v[10],
        not_res: v[11],
    }
}

fn register_format_rows() -> Vec<(u8, [u8; 12])> {
    vec![
        (0x20, [1, 1, 0, 0, 0, 0, 0, 0, 0, 2, 0, 0]),
        (0x21, [1, 1, 0, 0, 0, 0, 0, 0, 0, 2, 0, 0]),
        (0x22, [1, 1, 0, 0, 0, 0, 0, 0, 0, 2, 1, 0]),
        (0x23, [1, 1, 0, 0, 0, 0, 0, 0, 0, 2, 1, 0]),
        (0x24, [1, 1, 0, 0, 0, 0, 0, 0, 0, 0, 0, 0]),
        (0x25, [1, 1, 0, 0, 0, 0, 0, 0, 0, 1, 0, 0]),
        (0x26, [1, 1, 0, 0, 0, 0, 0, 0, 0, 4, 0, 0]),
        (0x27, [1, 1, 0, 0, 0, 0, 0, 0, 0, 1, 0, 1]),
        (0x2a, [1, 1, 0, 0, 0, 0, 0, 0, 0, 3, 1, 0]),
        (0x2b, [1, 1, 0, 0, 0, 0, 0, 0, 0, 3, 1, 0]),
    ]
}

fn opcode_rows() -> Vec<(u8, [u8; 12])> {
    vec![
        (0x02, [0, 0, 0, 1, 0, 0, 0, 0, 0, 0, 0, 0]),
        (0x04, [1, 0, 1, 0, 0, 0, 0, 0, 0, 4, 0, 1]),
        (0x05, [1, 0, 1, 0, 0, 0, 0, 0, 0, 4, 0, 0]),
        (0x08, [0, 1, 0, 0, 0, 0, 0, 0, 0, 2, 0, 0]),
        (0x09, [0, 1, 0, 0, 0, 0, 0, 0, 0, 2, 0, 0]),
        (0x0a, [1, 1, 0, 0, 0, 0, 0, 0, 0, 3, 1, 0]),
        (0x0b, [1, 1, 0, 0, 0, 0, 0, 0, 0, 3, 1, 0]),
        (0x0c, [0, 1, 0, 0, 0, 0, 0, 0, 0, 0, 0, 0]),
        (0x0d, [0, 1, 0, 0, 0, 0, 0, 0, 0, 1, 0, 0]),
        (0x0f, [0, 1, 0, 0, 0, 0, 0, 0, 1, 1, 0, 0]),
        (0x20, [0, 1, 0, 0, 1, 0, 1, 1, 0, 2, 0, 0]),
        (0x23, [0, 1, 0, 0, 1, 0, 1, 0, 0, 2, 0, 0]),
        (0x28, [0, 0, 0, 0, 0, 1, 0, 1, 0, 2, 0, 0]),
        (0x2b, [0, 0, 0, 0, 0, 1, 0, 0, 0, 2, 0, 0]),
    ]
}

#[test]
fn derive_gives_every_register_format_row() {
    for (funct, row) in register_format_rows() {
        assert_eq!(ControlBits::derive(0x00, funct), Ok(bits(row)), "funct {:#x}", funct);
    }
}

#[test]
fn derive_gives_every_opcode_row() {
    for (opcode, row) in opcode_rows() {
        assert_eq!(ControlBits::derive(opcode, 0), Ok(bits(row)), "opcode {:#x}", opcode);
    }
}

#[test]
fn derive_ignores_funct_outside_register_format() {
    for (opcode, row) in opcode_rows() {
        for funct in 0..=255u8 {
            assert_eq!(ControlBits::derive(opcode, funct), Ok(bits(row)));
        }
    }
}

#[test]
fn derive_rejects_every_other_opcode() {
    let known: Vec<u8> = opcode_rows().iter().map(|r| r.0).collect();
    for opcode in 1..=255u8 {
        if !known.contains(&opcode) {
            for funct in [0u8, 0x20, 0x3f] {
                assert_eq!(
                    ControlBits::derive(opcode, funct),
                    Err(SimError::UnsupportedOpcode(opcode))
                );
            }
        }
    }
}

#[test]
fn derive_rejects_every_other_funct() {
    let known: Vec<u8> = register_format_rows().iter().map(|r| r.0).collect();
    for funct in 0..=255u8 {
        if !known.contains(&funct) {
            assert_eq!(ControlBits::derive(0, funct), Err(SimError::UnsupportedFunct(funct)));
        }
    }
}

#[test]
fn derive_rejects_jal() {
    assert_eq!(ControlBits::derive(0x03, 0), Err(SimError::UnsupportedOpcode(0x03)));
}

#[test]
fn derive_rejects_shifts_and_multiplies() {
    for funct in [0x00u8, 0x02, 0x03, 0x08, 0x10, 0x11, 0x12, 0x13, 0x18, 0x19, 0x1a, 0x1b] {
        assert_eq!(ControlBits::derive(0, funct), Err(SimError::UnsupportedFunct(funct)));
    }
}

#[test]
fn derived_signals_never_read_and_write_memory() {
    for opcode in 0..=255u8 {
        for funct in 0..=255u8 {
            if let Ok(ctrl) = ControlBits::derive(opcode, funct) {
                assert!(!(ctrl.mem_read == 1 && ctrl.mem_write == 1));
                assert!(!(ctrl.branch == 1 && ctrl.jump == 1));
                assert!(ctrl.alu_op <= 4);
                assert_eq!(ctrl.mem_to_reg, ctrl.mem_read);
            }
        }
    }
}

#[test]
fn default_control_bits_are_clear() {
    assert_eq!(ControlBits::default(), bits([0; 12]));
}

#[test]
fn fill_control_bits_sets_the_row() {
    let mut ctrl = ControlBits::default();
    let instr = Instruction { opcode: 0x23, rs: 1, rt: 2, rd: 0, funct: 0, imm16: 4, addr: 0 };
    assert_eq!(fill_control_bits(&mut ctrl, &instr), Ok(()));
    assert_eq!(ctrl, bits([0, 1, 0, 0, 1, 0, 1, 0, 0, 2, 0, 0]));
}

#[test]
fn fill_control_bits_uses_funct_for_register_format() {
    let mut ctrl = ControlBits::default();
    let instr = Instruction { opcode: 0, rs: 1, rt: 2, rd: 3, funct: 0x27, imm16: 0, addr: 0 };
    assert_eq!(fill_control_bits(&mut ctrl, &instr), Ok(()));
    assert_eq!(ctrl, bits([1, 1, 0, 0, 0, 0, 0, 0, 0, 1, 0, 1]));
}

#[test]
fn fill_control_bits_leaves_signals_on_error() {
    let before = bits([1, 0, 1, 0, 0, 0, 0, 0, 0, 4, 0, 1]);
    let mut ctrl = before;
    let jal = Instruction { opcode: 0x03, rs: 0, rt: 0, rd: 0, funct: 0, imm16: 0, addr: 0 };
    assert_eq!(fill_control_bits(&mut ctrl, &jal), Err(SimError::UnsupportedOpcode(0x03)));
    assert_eq!(ctrl, before);
    let srl = Instruction { opcode: 0, rs: 0, rt: 0, rd: 0, funct: 0x02, imm16: 0, addr: 0 };
    assert_eq!(fill_control_bits(&mut ctrl, &srl), Err(SimError::UnsupportedFunct(0x02)));
    assert_eq!(ctrl, before);
}
