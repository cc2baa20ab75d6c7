//! The control unit: from opcode and funct to the signals that steer a cycle.

use vstd::prelude::*;
use crate::error::SimError;

verus! {

/// Selector of the bitwise AND in the ALU.
pub const ALU_AND: u8 = 0;

/// Selector of the bitwise OR in the ALU.
pub const ALU_OR: u8 = 1;

/// Selector of the wrapping addition in the ALU.
pub const ALU_ADD: u8 = 2;

/// Selector of the signed less-than in the ALU.
pub const ALU_LESS: u8 = 3;

/// Selector of the bitwise XOR in the ALU.
pub const ALU_XOR: u8 = 4;

/// The signals of one cycle. In the signals that the control unit derives
/// every flag is 0 or 1, and `alu_op` is one of the five ALU selectors.
#[derive(Clone, Copy, Debug, PartialEq, Eq, Structural)]
pub struct ControlBits {
    /// 0: the second operand of the ALU is the immediate. 1: it is register
    /// `rt`, and the write-back goes to register `rd` instead of `rt`.
    pub reg_dst: u8,
    /// 1: the cycle writes a register.
    pub reg_write: u8,
    /// 1: the cycle branches where the zero flag, as reported, is set.
    pub branch: u8,
    /// 1: the cycle jumps.
    pub jump: u8,
    /// 1: the cycle reads data memory at the address that the ALU computed.
    pub mem_read: u8,
    /// 1: the cycle writes register `rt` to data memory at that address.
    pub mem_write: u8,
    /// 1: the register written gets what was read from data memory, not the
    /// result of the ALU.
    pub mem_to_reg: u8,
    /// 1: the memory access is one byte wide, not a word.
    pub mem_by_byte: u8,
    /// 1: the immediate is moved into the upper half-word before use.
    pub imm_upper: u8,
    /// What the ALU does with its operands.
    pub alu_op: u8,
    /// 1: the ALU negates its second operand first.
    pub alu_bnegate: u8,
    /// 1: result and zero flag of the ALU are turned over before use.
    pub not_res: u8,
}

/// The instructions that the control unit knows, under the names that their
/// encodings carry in the MIPS instruction set. Where the signed and the
/// unsigned form of an instruction get the same signals, one name stands for
/// both.
pub enum Operation {
    /// Register format, funct 0x20 and 0x21.
    Add,
    /// Register format, funct 0x22 and 0x23.
    Sub,
    /// Register format, funct 0x24.
    And,
    /// Register format, funct 0x25.
    Or,
    /// Register format, funct 0x26.
    Xor,
    /// Register format, funct 0x27.
    Nor,
    /// Register format, funct 0x2a and 0x2b.
    Slt,
    /// Opcode 0x02.
    J,
    /// Opcode 0x04.
    Beq,
    /// Opcode 0x05.
    Bne,
    /// Opcodes 0x08 and 0x09.
    Addi,
    /// Opcodes 0x0a and 0x0b.
    Slti,
    /// Opcode 0x0c.
    Andi,
    /// Opcode 0x0d.
    Ori,
    /// Opcode 0x0f.
    Lui,
    /// Opcode 0x20.
    Lb,
    /// Opcode 0x23.
    Lw,
    /// Opcode 0x28.
    Sb,
    /// Opcode 0x2b.
    Sw,
}

/// One row of the signal table, its columns in the order of the fields of
/// [`ControlBits`].
pub open spec fn row(
    reg_dst: u8,
    reg_write: u8,
    branch: u8,
    jump: u8,
    mem_read: u8,
    mem_write: u8,
    mem_to_reg: u8,
    mem_by_byte: u8,
    imm_upper: u8,
    alu_op: u8,
    alu_bnegate: u8,
    not_res: u8,
) -> ControlBits {
    ControlBits {
        reg_dst,
        reg_write,
        branch,
        jump,
        mem_read,
        mem_write,
        mem_to_reg,
        mem_by_byte,
        imm_upper,
        alu_op,
        alu_bnegate,
        not_res,
    }
}

/// The instruction that a register-format word with this funct encodes.
pub open spec fn operation_of_funct(funct: u8) -> Option<Operation> {
    if funct == 0x20 || funct == 0x21 {
        Some(Operation::Add)
    } else if funct == 0x22 || funct == 0x23 {
        Some(Operation::Sub)
    } else if funct == 0x24 {
        Some(Operation::And)
    } else if funct == 0x25 {
        Some(Operation::Or)
    } else if funct == 0x26 {
        Some(Operation::Xor)
    } else if funct == 0x27 {
        Some(Operation::Nor)
    } else if funct == 0x2a || funct == 0x2b {
        Some(Operation::Slt)
    } else {
        None
    }
}

/// The instruction that a word with this opcode encodes, for the opcodes
/// that are not register format.
pub open spec fn operation_of_opcode(opcode: u8) -> Option<Operation> {
    if opcode == 0x02 {
        Some(Operation::J)
    } else if opcode == 0x04 {
        Some(Operation::Beq)
    } else if opcode == 0x05 {
        Some(Operation::Bne)
    } else if opcode == 0x08 || opcode == 0x09 {
        Some(Operation::Addi)
    } else if opcode == 0x0a || opcode == 0x0b {
        Some(Operation::Slti)
    } else if opcode == 0x0c {
        Some(Operation::Andi)
    } else if opcode == 0x0d {
        Some(Operation::Ori)
    } else if opcode == 0x0f {
        Some(Operation::Lui)
    } else if opcode == 0x20 {
        Some(Operation::Lb)
    } else if opcode == 0x23 {
        Some(Operation::Lw)
    } else if opcode == 0x28 {
        Some(Operation::Sb)
    } else if opcode == 0x2b {
        Some(Operation::Sw)
    } else {
        None
    }
}

/// The instruction that opcode and funct encode, or the code that is not
/// supported. Opcode 0 selects the register format, and only there does funct
/// count.
pub open spec fn classify(opcode: u8, funct: u8) -> Result<Operation, SimError> {
    if opcode == 0 {
        match operation_of_funct(funct) {
            Some(op) => Ok(op),
            None => Err(SimError::UnsupportedFunct(funct)),
        }
    } else {
        match operation_of_opcode(opcode) {
            Some(op) => Ok(op),
            None => Err(SimError::UnsupportedOpcode(opcode)),
        }
    }
}

/// The signal table.
pub open spec fn signals(op: Operation) -> ControlBits {
    match op {
        Operation::Add => row(1, 1, 0, 0, 0, 0, 0, 0, 0, 2, 0, 0),
        Operation::Sub => row(1, 1, 0, 0, 0, 0, 0, 0, 0, 2, 1, 0),
        Operation::And => row(1, 1, 0, 0, 0, 0, 0, 0, 0, 0, 0, 0),
        Operation::Or => row(1, 1, 0, 0, 0, 0, 0, 0, 0, 1, 0, 0),
        Operation::Xor => row(1, 1, 0, 0, 0, 0, 0, 0, 0, 4, 0, 0),
        Operation::Nor => row(1, 1, 0, 0, 0, 0, 0, 0, 0, 1, 0, 1),
        Operation::Slt => row(1, 1, 0, 0, 0, 0, 0, 0, 0, 3, 1, 0),
        Operation::J => row(0, 0, 0, 1, 0, 0, 0, 0, 0, 0, 0, 0),
        Operation::Beq => row(1, 0, 1, 0, 0, 0, 0, 0, 0, 4, 0, 1),
        Operation::Bne => row(1, 0, 1, 0, 0, 0, 0, 0, 0, 4, 0, 0),
        Operation::Addi => row(0, 1, 0, 0, 0, 0, 0, 0, 0, 2, 0, 0),
        Operation::Slti => row(1, 1, 0, 0, 0, 0, 0, 0, 0, 3, 1, 0),
        Operation::Andi => row(0, 1, 0, 0, 0, 0, 0, 0, 0, 0, 0, 0),
        Operation::Ori => row(0, 1, 0, 0, 0, 0, 0, 0, 0, 1, 0, 0),
        Operation::Lui => row(0, 1, 0, 0, 0, 0, 0, 0, 1, 1, 0, 0),
        Operation::Lb => row(0, 1, 0, 0, 1, 0, 1, 1, 0, 2, 0, 0),
        Operation::Lw => row(0, 1, 0, 0, 1, 0, 1, 0, 0, 2, 0, 0),
        Operation::Sb => row(0, 0, 0, 0, 0, 1, 0, 1, 0, 2, 0, 0),
        Operation::Sw => row(0, 0, 0, 0, 0, 1, 0, 0, 0, 2, 0, 0),
    }
}

/// What the control unit answers for opcode and funct: the signals of the
/// instruction they encode, or the code it does not support.
pub open spec fn control(opcode: u8, funct: u8) -> Result<ControlBits, SimError> {
    match classify(opcode, funct) {
        Ok(op) => Ok(signals(op)),
        Err(e) => Err(e),
    }
}

impl Default for ControlBits {
    /// The signals with every flag clear and the ALU set to AND.
    fn default() -> (ctrl: ControlBits)
        ensures
            ctrl == row(0, 0, 0, 0, 0, 0, 0, 0, 0, 0, 0, 0),
    {
        ControlBits {
            reg_dst: 0,
            reg_write: 0,
            branch: 0,
            jump: 0,
            mem_read: 0,
            mem_write: 0,
            mem_to_reg: 0,
            mem_by_byte: 0,
            imm_upper: 0,
            alu_op: ALU_AND,
            alu_bnegate: 0,
            not_res: 0,
        }
    }
}

impl ControlBits {
    /// Every flag is 0 or 1, and `alu_op` selects one of the five operations.
    pub open spec fn well_formed(self) -> bool {
        &&& self.reg_dst <= 1
        &&& self.reg_write <= 1
        &&& self.branch <= 1
        &&& self.jump <= 1
        &&& self.mem_read <= 1
        &&& self.mem_write <= 1
        &&& self.mem_to_reg <= 1
        &&& self.mem_by_byte <= 1
        &&& self.imm_upper <= 1
        &&& self.alu_op <= ALU_XOR
        &&& self.alu_bnegate <= 1
        &&& self.not_res <= 1
    }

    /// The signals for a register-format instruction: they differ only in how
    /// the ALU is steered.
    fn register_format(alu_op: u8, alu_bnegate: u8, not_res: u8) -> (ctrl: ControlBits)
        ensures
            ctrl == row(1, 1, 0, 0, 0, 0, 0, 0, 0, alu_op, alu_bnegate, not_res),
    {
        ControlBits {
            reg_dst: 1,
            reg_write: 1,
            branch: 0,
            jump: 0,
            mem_read: 0,
            mem_write: 0,
            mem_to_reg: 0,
            mem_by_byte: 0,
            imm_upper: 0,
            alu_op,
            alu_bnegate,
            not_res,
        }
    }

    /// The control unit. Answers with the signals of the instruction that
    /// `opcode` and `funct` encode; a code outside the table is an error that
    /// names it, and never a guess.
    pub fn derive(opcode: u8, funct: u8) -> (res: Result<ControlBits, SimError>)
        ensures
            res == control(opcode, funct),
            res is Ok ==> res->Ok_0.well_formed(),
    {
        let mut ctrl = ControlBits::default();
        match opcode {
            0x00 => {
                let ctrl = match funct {
                    0x20 | 0x21 => ControlBits::register_format(ALU_ADD, 0, 0),
                    0x22 | 0x23 => ControlBits::register_format(ALU_ADD, 1, 0),
                    0x24 => ControlBits::register_format(ALU_AND, 0, 0),
                    0x25 => ControlBits::register_format(ALU_OR, 0, 0),
                    0x26 => ControlBits::register_format(ALU_XOR, 0, 0),
                    0x27 => ControlBits::register_format(ALU_OR, 0, 1),
                    0x2a | 0x2b => ControlBits::register_format(ALU_LESS, 1, 0),
                    _ => { return Err(SimError::UnsupportedFunct(funct)); },
                };
                return Ok(ctrl);
            },
            0x02 => {
                ctrl.jump = 1;
            },
            0x04 => {
                ctrl.reg_dst = 1;
                ctrl.branch = 1;
                ctrl.alu_op = ALU_XOR;
                ctrl.not_res = 1;
            },
            0x05 => {
                ctrl.reg_dst = 1;
                ctrl.branch = 1;
                ctrl.alu_op = ALU_XOR;
            },
            0x08 | 0x09 => {
                ctrl.reg_write = 1;
                ctrl.alu_op = ALU_ADD;
            },
            0x0a | 0x0b => {
                ctrl.reg_dst = 1;
                ctrl.reg_write = 1;
                ctrl.alu_op = ALU_LESS;
                ctrl.alu_bnegate = 1;
            },
            0x0c => {
                ctrl.reg_write = 1;
                ctrl.alu_op = ALU_AND;
            },
            0x0d => {
                ctrl.reg_write = 1;
                ctrl.alu_op = ALU_OR;
            },
            0x0f => {
                ctrl.reg_write = 1;
                ctrl.imm_upper = 1;
                ctrl.alu_op = ALU_OR;
            },
            0x20 => {
                ctrl.reg_write = 1;
                ctrl.mem_read = 1;
                ctrl.mem_to_reg = 1;
                ctrl.mem_by_byte = 1;
                ctrl.alu_op = ALU_ADD;
            },
            0x23 => {
                ctrl.reg_write = 1;
                ctrl.mem_read = 1;
                ctrl.mem_to_reg = 1;
                ctrl.alu_op = ALU_ADD;
            },
            0x28 => {
                ctrl.mem_write = 1;
                ctrl.mem_by_byte = 1;
                ctrl.alu_op = ALU_ADD;
            },
            0x2b => {
                ctrl.mem_write = 1;
                ctrl.alu_op = ALU_ADD;
            },
            _ => { return Err(SimError::UnsupportedOpcode(opcode)); },
        }
        Ok(ctrl)
    }
}

/// Every row of the table is well formed.
pub proof fn lemma_signals_well_formed(op: Operation)
    ensures
        signals(op).well_formed(),
{
}

/// What each signal says of the instruction, column by column of the table:
/// which instructions write a register, branch, jump, read or write data
/// memory, take their result from memory, access a single byte, move the
/// immediate into the upper half-word, negate the second operand, and turn
/// the result over.
pub proof fn lemma_signal_columns(op: Operation)
    ensures
        signals(op).reg_write == 1 <==> !(op is J || op is Beq || op is Bne || op is Sb
            || op is Sw),
        signals(op).branch == 1 <==> op is Beq || op is Bne,
        signals(op).jump == 1 <==> op is J,
        signals(op).mem_read == 1 <==> op is Lb || op is Lw,
        signals(op).mem_write == 1 <==> op is Sb || op is Sw,
        signals(op).mem_to_reg == signals(op).mem_read,
        signals(op).mem_by_byte == 1 <==> op is Lb || op is Sb,
        signals(op).imm_upper == 1 <==> op is Lui,
        signals(op).alu_bnegate == 1 <==> op is Sub || op is Slt || op is Slti,
        signals(op).not_res == 1 <==> op is Nor || op is Beq,
{
}

/// No instruction both reads and writes data memory, and none both branches
/// and jumps.
pub proof fn lemma_signals_exclusive(opcode: u8, funct: u8)
    requires
        control(opcode, funct) is Ok,
    ensures
        !(control(opcode, funct)->Ok_0.mem_read == 1 && control(opcode, funct)->Ok_0.mem_write
            == 1),
        !(control(opcode, funct)->Ok_0.branch == 1 && control(opcode, funct)->Ok_0.jump == 1),
{
}

/// A supported register-format instruction names its destination in `rd`,
/// writes it, and neither branches nor jumps nor touches data memory: such
/// instructions differ in how the ALU is steered and in nothing else.
pub proof fn lemma_register_format_signals(funct: u8)
    requires
        control(0, funct) is Ok,
    ensures
        control(0, funct)->Ok_0 == row(
            1,
            1,
            0,
            0,
            0,
            0,
            0,
            0,
            0,
            control(0, funct)->Ok_0.alu_op,
            control(0, funct)->Ok_0.alu_bnegate,
            control(0, funct)->Ok_0.not_res,
        ),
{
}

/// The error of the control unit names the code that it does not support:
/// the funct of a register-format word, the opcode of any other.
pub proof fn lemma_error_names_the_code(opcode: u8, funct: u8)
    requires
        control(opcode, funct) is Err,
    ensures
        opcode == 0 ==> control(opcode, funct)->Err_0 == SimError::UnsupportedFunct(funct),
        opcode != 0 ==> control(opcode, funct)->Err_0 == SimError::UnsupportedOpcode(opcode),
{
}

} // verus!
