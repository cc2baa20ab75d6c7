//! The stages of a cycle: fetch, the ALU, the memory access and the
//! write-back.

use vstd::prelude::*;
use crate::control_bits::{ControlBits, ALU_ADD, ALU_AND, ALU_LESS, ALU_OR, ALU_XOR};
use crate::error::SimError;
use crate::hardware::data_mem;
use crate::hardware::data_mem::{in_range, word_at, with_word};
use crate::hardware::instr_mem;
use crate::hardware::instr_mem::is_word_offset;
use crate::hardware::reg_file::Registers;

verus! {

/// The two's-complement negation of `x`.
pub open spec fn negated(x: u32) -> u32 {
    ((0x1_0000_0000 - x) % 0x1_0000_0000) as u32
}

/// The sum of `a` and `b`, of which the low 32 bits are kept.
pub open spec fn wrapped_sum(a: u32, b: u32) -> u32 {
    ((a + b) % 0x1_0000_0000) as u32
}

/// The number that `x` stands for when its top bit is read as a sign.
pub open spec fn signed(x: u32) -> int {
    if x < 0x8000_0000 {
        x as int
    } else {
        x - 0x1_0000_0000
    }
}

/// `x` with every bit turned over.
pub open spec fn complement(x: u32) -> u32 {
    (0xffff_ffff - x) as u32
}

/// What the ALU computes. Its second operand is `in2`, or the negation of
/// `in2` where `bnegate` is set; on the first and the second operand it does
/// what `op` selects.
pub open spec fn alu_result(op: u8, in1: u32, in2: u32, bnegate: u8) -> u32
    recommends
        op <= ALU_XOR,
{
    let operand = if bnegate == 1 {
        negated(in2)
    } else {
        in2
    };
    if op == ALU_AND {
        in1 & operand
    } else if op == ALU_OR {
        in1 | operand
    } else if op == ALU_ADD {
        wrapped_sum(in1, operand)
    } else if op == ALU_LESS {
        if signed(in1) < signed(operand) {
            1
        } else {
            0
        }
    } else {
        in1 ^ operand
    }
}

/// Result and zero flag as the rest of the cycle sees them: both as the ALU
/// gave them, or both turned over where `not_res` is set.
pub open spec fn reported(result: u32, zero: bool, not_res: u8) -> (u32, bool) {
    if not_res == 1 {
        (complement(result), !zero)
    } else {
        (result, zero)
    }
}

/// Reads the instruction word that `ip` addresses.
pub fn instr_fetch(instr_mem: &instr_mem::Memory, ip: u32) -> (res: Result<u32, SimError>)
    ensures
        res is Ok <==> is_word_offset(instr_mem@.len(), ip as int),
        res is Ok ==> res->Ok_0 == instr_mem@[ip as int / 4],
        res is Err ==> res->Err_0 == SimError::InstrAddress(ip),
        instr_mem@.len() <= instr_mem::MAX_WORDS,
{
    match instr_mem.read_word(ip as usize) {
        Some(word) => Ok(word),
        None => Err(SimError::InstrAddress(ip)),
    }
}

/// Whether `a` is less than `b` when both are read as signed numbers.
fn signed_less(a: u32, b: u32) -> (less: bool)
    ensures
        less == (signed(a) < signed(b)),
{
    let a_negative = a >= 0x8000_0000;
    let b_negative = b >= 0x8000_0000;
    if a_negative != b_negative {
        a_negative
    } else {
        a < b
    }
}

/// The ALU. Returns the result and the zero flag, which is set exactly when
/// the result is 0.
pub fn execute_alu(alu_op: u8, in1: u32, in2: u32, bnegate: u8) -> (out: (u32, bool))
    requires
        alu_op <= ALU_XOR,
    ensures
        out.0 == alu_result(alu_op, in1, in2, bnegate),
        out.1 == (out.0 == 0),
{
    let operand = if bnegate == 1 {
        0u32.wrapping_sub(in2)
    } else {
        in2
    };
    let result: u32 = if alu_op == ALU_AND {
        in1 & operand
    } else if alu_op == ALU_OR {
        in1 | operand
    } else if alu_op == ALU_ADD {
        in1.wrapping_add(operand)
    } else if alu_op == ALU_LESS {
        if signed_less(in1, operand) {
            1
        } else {
            0
        }
    } else {
        in1 ^ operand
    };
    (result, result == 0)
}

/// Turns result and zero flag over where `not_res` is set, and hands them
/// on as they are where it is not.
pub fn apply_not_res(result: u32, zero: bool, not_res: u8) -> (out: (u32, bool))
    ensures
        out == reported(result, zero, not_res),
{
    if not_res == 1 {
        assert(!result == 0xffff_ffff - result) by (bit_vector);
        (!result, !zero)
    } else {
        (result, zero)
    }
}

/// How many bytes the memory access of a cycle with these signals takes.
pub open spec fn access_width(ctrl: ControlBits) -> int {
    if ctrl.mem_by_byte == 1 {
        1
    } else {
        4
    }
}

/// Whether the cycle accesses data memory, and at bytes that it does not
/// have.
pub open spec fn access_fails(ctrl: ControlBits, mem: Seq<u8>, addr: int) -> bool {
    (ctrl.mem_write == 1 || ctrl.mem_read == 1) && !in_range(mem, addr, access_width(ctrl))
}

/// Data memory after the memory stage: with `write_val` stored at `addr`
/// where `mem_write` is set, its lowest byte alone where `mem_by_byte` is set
/// too; untouched otherwise.
pub open spec fn memory_after(ctrl: ControlBits, mem: Seq<u8>, addr: int, write_val: u32) -> Seq<
    u8,
> {
    if ctrl.mem_write == 1 && !access_fails(ctrl, mem, addr) {
        if ctrl.mem_by_byte == 1 {
            mem.update(addr, (write_val % 0x100) as u8)
        } else {
            with_word(mem, addr, write_val)
        }
    } else {
        mem
    }
}

/// What the memory stage reads: where `mem_read` is set, the word at `addr`,
/// or the byte at `addr` where `mem_by_byte` is set too, which then stands
/// for a number from 0 to 255; nothing otherwise.
pub open spec fn memory_read(ctrl: ControlBits, mem: Seq<u8>, addr: int) -> Option<u32> {
    if ctrl.mem_read == 1 {
        if ctrl.mem_by_byte == 1 {
            Some(mem[addr] as u32)
        } else {
            Some(word_at(mem, addr))
        }
    } else {
        None
    }
}

/// The memory stage. Stores `write_val` at `addr` where `mem_write` is set,
/// reads from `addr` where `mem_read` is set, and does neither where neither
/// is. Fails, with data memory untouched, where the access reaches outside it.
pub fn mem_phase(
    ctrl: &ControlBits,
    data_mem: &mut data_mem::Memory,
    addr: usize,
    write_val: u32,
) -> (res: Result<Option<u32>, SimError>)
    requires
        !(ctrl.mem_read == 1 && ctrl.mem_write == 1),
    ensures
        res is Err <==> access_fails(*ctrl, old(data_mem)@, addr as int),
        res is Err ==> res->Err_0 == SimError::DataAddress(addr),
        res is Ok ==> res->Ok_0 == memory_read(*ctrl, old(data_mem)@, addr as int),
        final(data_mem)@ == memory_after(*ctrl, old(data_mem)@, addr as int, write_val),
{
    if ctrl.mem_write == 1 {
        let stored = if ctrl.mem_by_byte == 1 {
            data_mem.write_byte(addr, (write_val % 0x100) as u8)
        } else {
            data_mem.write_word(addr, write_val)
        };
        if stored {
            Ok(None)
        } else {
            Err(SimError::DataAddress(addr))
        }
    } else if ctrl.mem_read == 1 {
        let loaded = if ctrl.mem_by_byte == 1 {
            match data_mem.read_byte(addr) {
                Some(byte) => Some(byte as u32),
                None => None,
            }
        } else {
            data_mem.read_word(addr)
        };
        match loaded {
            Some(value) => Ok(Some(value)),
            None => Err(SimError::DataAddress(addr)),
        }
    } else {
        Ok(None)
    }
}

/// The write-back stage. Stores `wbval` in register `reg_num` where
/// `reg_write` is set, and does nothing where it is not.
pub fn write_back(regfile: &mut Registers, reg_num: usize, ctrl: &ControlBits, wbval: u32)
    requires
        reg_num < 32,
    ensures
        final(regfile)@ == if ctrl.reg_write == 1 {
            old(regfile)@.update(reg_num as int, wbval)
        } else {
            old(regfile)@
        },
{
    if ctrl.reg_write == 1 {
        regfile.store(reg_num, wbval);
    }
}

/// Negation turns the sign: read as signed numbers, the negation of `x` is
/// minus `x`. The one exception is the least of them, which is its own
/// negation.
pub proof fn lemma_negated_turns_sign(x: u32)
    ensures
        x != 0x8000_0000 ==> signed(negated(x)) == -signed(x),
        negated(0x8000_0000) == 0x8000_0000,
{
}

/// With `bnegate` set the adder subtracts: the result is the difference of
/// the operands, of which the low 32 bits are kept.
pub proof fn lemma_negated_add_subtracts(in1: u32, in2: u32)
    ensures
        alu_result(ALU_ADD, in1, in2, 1) == (in1 - in2) % 0x1_0000_0000,
{
}

/// The XOR of two operands is 0 exactly when they are equal, so that its
/// zero flag tells whether they are.
pub proof fn lemma_xor_tests_equality(in1: u32, in2: u32)
    ensures
        alu_result(ALU_XOR, in1, in2, 0) == 0 <==> in1 == in2,
{
    assert((in1 ^ in2) == 0 <==> in1 == in2) by (bit_vector);
}

/// Turning over the result of an OR gives the NOR of the operands.
pub proof fn lemma_or_turned_over_is_nor(in1: u32, in2: u32)
    ensures
        reported(alu_result(ALU_OR, in1, in2, 0), alu_result(ALU_OR, in1, in2, 0) == 0, 1).0 == !(
        in1 | in2),
{
    let r = in1 | in2;
    assert(!r == 0xffff_ffff - r) by (bit_vector);
}

/// Turning over twice gives back what the ALU computed.
pub proof fn lemma_reported_twice(result: u32, zero: bool)
    ensures
        reported(reported(result, zero, 1).0, reported(result, zero, 1).1, 1) == (result, zero),
{
}

} // verus!
