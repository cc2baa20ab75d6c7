//! The fields of a 32-bit instruction word.

use vstd::prelude::*;
use vstd::arithmetic::power2::{lemma2_to64, pow2};

verus! {

/// The bits `lo..=hi` of `word`, read as an unsigned number.
pub open spec fn bit_field(word: u32, hi: nat, lo: nat) -> nat
    recommends
        lo <= hi < 32,
{
    (word as nat / pow2(lo)) % pow2((hi - lo + 1) as nat)
}

/// One decoded instruction word. Every field is filled for every word; which
/// of them carry meaning depends on the format that `opcode` selects, and
/// whether the word is an instruction at all is for the control unit to say.
#[derive(Clone, Copy, Debug, PartialEq, Eq, Structural)]
pub struct Instruction {
    /// Bits 31..26.
    pub opcode: u8,
    /// Bits 25..21: a register.
    pub rs: u8,
    /// Bits 20..16: a register.
    pub rt: u8,
    /// Bits 15..11: a register.
    pub rd: u8,
    /// Bits 5..0: the operation of a register-format word.
    pub funct: u8,
    /// Bits 15..0: the immediate.
    pub imm16: u16,
    /// Bits 25..0: the target of a jump.
    pub addr: u32,
}

impl Default for Instruction {
    /// The instruction with every field 0.
    fn default() -> (instr: Instruction)
        ensures
            instr == (Instruction { opcode: 0, rs: 0, rt: 0, rd: 0, funct: 0, imm16: 0, addr: 0 }),
    {
        Instruction { opcode: 0, rs: 0, rt: 0, rd: 0, funct: 0, imm16: 0, addr: 0 }
    }
}

impl Instruction {
    /// The decoding of `word`. Each field is a run of its bits, read as a
    /// number: the word divided by two to the power of the lowest bit of the
    /// field, and of the quotient what remains modulo two to the power of the
    /// number of bits.
    pub open spec fn of_word(word: u32) -> Instruction {
        Instruction {
            opcode: (word / 0x400_0000) as u8,
            rs: (word / 0x20_0000 % 32) as u8,
            rt: (word / 0x1_0000 % 32) as u8,
            rd: (word / 0x800 % 32) as u8,
            funct: (word % 64) as u8,
            imm16: (word % 0x1_0000) as u16,
            addr: (word % 0x400_0000) as u32,
        }
    }
}

/// Each field of a decoded word is its own bit range and nothing else.
pub proof fn lemma_fields_are_bit_ranges(word: u32)
    ensures
        Instruction::of_word(word).opcode == bit_field(word, 31, 26),
        Instruction::of_word(word).rs == bit_field(word, 25, 21),
        Instruction::of_word(word).rt == bit_field(word, 20, 16),
        Instruction::of_word(word).rd == bit_field(word, 15, 11),
        Instruction::of_word(word).funct == bit_field(word, 5, 0),
        Instruction::of_word(word).imm16 == bit_field(word, 15, 0),
        Instruction::of_word(word).addr == bit_field(word, 25, 0),
{
    lemma2_to64();
    assert((word as nat / 0x400_0000) % 64 == word as nat / 0x400_0000);
}

/// Every field of a decoded word lies in the range of its bits: a register
/// field always names one of the thirty-two registers.
pub proof fn lemma_field_ranges(word: u32)
    ensures
        Instruction::of_word(word).opcode < 64,
        Instruction::of_word(word).rs < 32,
        Instruction::of_word(word).rt < 32,
        Instruction::of_word(word).rd < 32,
        Instruction::of_word(word).funct < 64,
        Instruction::of_word(word).addr < 0x400_0000,
{
}

/// Decodes an instruction word into its fields. No word is refused here.
pub fn instr_decode(instr_raw: u32) -> (instr: Instruction)
    ensures
        instr == Instruction::of_word(instr_raw),
        instr.opcode < 64,
        instr.rs < 32,
        instr.rt < 32,
        instr.rd < 32,
        instr.funct < 64,
        instr.addr < 0x400_0000,
{
    proof {
        assert((instr_raw >> 26) == instr_raw / 0x400_0000
            && ((instr_raw >> 21) & 0x1f) == (instr_raw / 0x20_0000) % 32
            && ((instr_raw >> 16) & 0x1f) == (instr_raw / 0x1_0000) % 32
            && ((instr_raw >> 11) & 0x1f) == (instr_raw / 0x800) % 32
            && (instr_raw & 0x3f) == instr_raw % 64
            && (instr_raw & 0xffff) == instr_raw % 0x1_0000
            && (instr_raw & 0x3ff_ffff) == instr_raw % 0x400_0000) by (bit_vector);
    }
    let opcode: u8 = (instr_raw >> 26) as u8;
    let rs: u8 = ((instr_raw >> 21) & 0x1f) as u8;
    let rt: u8 = ((instr_raw >> 16) & 0x1f) as u8;
    let rd: u8 = ((instr_raw >> 11) & 0x1f) as u8;
    let funct: u8 = (instr_raw & 0x3f) as u8;
    let imm16: u16 = (instr_raw & 0xffff) as u16;
    let addr: u32 = instr_raw & 0x3ff_ffff;
    Instruction { opcode, rs, rt, rd, funct, imm16, addr }
}

} // verus!
