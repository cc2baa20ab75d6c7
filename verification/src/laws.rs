//! What holds of every cycle and of every run.

use vstd::prelude::*;
use crate::control_bits::{control, ControlBits};
use crate::error::SimError;
use crate::hardware::data_mem::{in_range, word_at};
use crate::hardware::instr_mem::{is_word_offset, MAX_WORDS};
use crate::instruction::{lemma_field_ranges, Instruction};
use crate::phases::{lemma_xor_tests_equality, wrapped_sum};
use crate::phases::access_width;
use crate::single_cycle::{
    alu_output,
    execute,
    halted,
    next_ip,
    step,
    write_back_register,
    Machine,
    Status,
};

verus! {

/// A branch that is taken changes the lower half-word of the instruction
/// pointer and nothing above it: the target lies in the same block of 65536
/// bytes.
pub proof fn lemma_branch_stays_in_block(ctrl: ControlBits, ip: u32, imm16: u16)
    requires
        ctrl.branch == 1,
    ensures
        next_ip(ctrl, ip, imm16 as u32, 1) == ip - ip % 0x1_0000 + imm16,
        next_ip(ctrl, ip, imm16 as u32, 1) / 0x1_0000 == ip / 0x1_0000,
        next_ip(ctrl, ip, imm16 as u32, 1) % 0x1_0000 == imm16,
{
    let addr = imm16 as u32;
    assert(((ip & 0xffff_0000) | addr) == ip - ip % 0x1_0000 + addr) by (bit_vector)
        requires
            addr <= 0xffff,
    ;
}

/// A jump keeps the top byte of the instruction pointer. Where the target
/// has no bit above its lowest twenty-four, the rest of the new pointer is
/// the target.
pub proof fn lemma_jump_keeps_top_byte(ctrl: ControlBits, ip: u32, addr: u32, alu_zero: u32)
    requires
        !(ctrl.branch == 1 && alu_zero == 1),
        ctrl.jump == 1,
        addr < 0x100_0000,
    ensures
        next_ip(ctrl, ip, addr, alu_zero) == ip - ip % 0x100_0000 + addr,
{
    assert(((ip & 0xff00_0000) | addr) == ip - ip % 0x100_0000 + addr) by (bit_vector)
        requires
            addr < 0x100_0000,
    ;
}

/// A word whose instruction is supported and neither branches nor jumps.
pub open spec fn moves_on(word: u32) -> bool {
    let instr = Instruction::of_word(word);
    match control(instr.opcode, instr.funct) {
        Ok(ctrl) => ctrl.branch != 1 && ctrl.jump != 1,
        Err(_) => false,
    }
}

/// A program made of such words alone.
pub open spec fn straight_line(program: Seq<u32>) -> bool {
    forall|i: int| 0 <= i < program.len() ==> moves_on(#[trigger] program[i])
}

/// A cycle on an instruction that neither branches nor jumps moves the
/// instruction pointer on by one word, and can fail only in its memory
/// access.
pub proof fn lemma_step_moves_on(program: Seq<u32>, m: Machine)
    requires
        program.len() <= MAX_WORDS,
        is_word_offset(program.len(), m.ip as int),
        moves_on(program[m.ip as int / 4]),
    ensures
        match step(program, m) {
            Ok(next) => next.ip == m.ip + 4,
            Err(e) => e is DataAddress,
        },
{
}

/// A program without branches and jumps runs once through: started at one
/// of its words with cycles enough for the words that follow, it carries
/// out one cycle for each of them and halts at its end, unless a memory
/// access fails on the way.
pub proof fn lemma_straight_line_run(program: Seq<u32>, m: Machine, limit: nat)
    requires
        program.len() <= MAX_WORDS,
        straight_line(program),
        m.ip % 4 == 0,
        m.ip <= 4 * program.len(),
        limit >= program.len() - m.ip / 4,
    ensures
        ({
            let whole = execute(program, m, limit);
            ||| whole.status == Status::Halted && whole.cycles == program.len() - m.ip / 4
                && whole.machine.ip == 4 * program.len()
            ||| whole.status is Failed && whole.status->Failed_0 is DataAddress && whole.cycles
                < program.len() - m.ip / 4
        }),
    decreases limit,
{
    if !halted(program, m) {
        lemma_step_moves_on(program, m);
        match step(program, m) {
            Ok(next) => {
                lemma_straight_line_run(program, next, (limit - 1) as nat);
            },
            Err(e) => {},
        }
    }
}

/// A straight-line program of `n` words, run from the start with at least
/// `n` cycles, halts after exactly `n` cycles unless a memory access fails.
pub proof fn lemma_straight_line_from_reset(program: Seq<u32>, mem: Seq<u8>, limit: nat)
    requires
        program.len() <= MAX_WORDS,
        straight_line(program),
        limit >= program.len(),
    ensures
        ({
            let whole = execute(program, Machine::reset(mem), limit);
            ||| whole.status == Status::Halted && whole.cycles == program.len()
            ||| whole.status is Failed && whole.status->Failed_0 is DataAddress
        }),
{
    lemma_straight_line_run(program, Machine::reset(mem), limit);
}

/// A word whose instruction is supported, neither branches nor jumps, and
/// leaves data memory alone.
pub open spec fn stays_in_registers(word: u32) -> bool {
    let instr = Instruction::of_word(word);
    match control(instr.opcode, instr.funct) {
        Ok(ctrl) => ctrl.branch != 1 && ctrl.jump != 1 && ctrl.mem_read != 1 && ctrl.mem_write
            != 1,
        Err(_) => false,
    }
}

/// A program of such words cannot fail: started at one of its words with
/// cycles enough for the words that follow, it carries out exactly one cycle
/// for each of them, halts at its end, and leaves data memory as it was.
pub proof fn lemma_register_program_halts(program: Seq<u32>, m: Machine, limit: nat)
    requires
        program.len() <= MAX_WORDS,
        forall|i: int| 0 <= i < program.len() ==> stays_in_registers(#[trigger] program[i]),
        m.ip % 4 == 0,
        m.ip <= 4 * program.len(),
        limit >= program.len() - m.ip / 4,
    ensures
        execute(program, m, limit).status == Status::Halted,
        execute(program, m, limit).cycles == program.len() - m.ip / 4,
        execute(program, m, limit).machine.ip == 4 * program.len(),
        execute(program, m, limit).machine.mem == m.mem,
    decreases limit,
{
    if !halted(program, m) {
        assert(stays_in_registers(program[m.ip as int / 4]));
        lemma_register_program_halts(program, step(program, m)->Ok_0, (limit - 1) as nat);
    }
}

/// A word that the control unit does not support stops the run where it
/// stands: the cycle fails with the error of the control unit, no further
/// cycle is counted, and the machine is the one that met the word, registers
/// and data memory included.
pub proof fn lemma_unsupported_word_stops_run(program: Seq<u32>, m: Machine, limit: nat)
    requires
        is_word_offset(program.len(), m.ip as int),
        control(
            Instruction::of_word(program[m.ip as int / 4]).opcode,
            Instruction::of_word(program[m.ip as int / 4]).funct,
        ) is Err,
        limit > 0,
    ensures
        ({
            let instr = Instruction::of_word(program[m.ip as int / 4]);
            let error = control(instr.opcode, instr.funct)->Err_0;
            &&& error == if instr.opcode == 0 {
                SimError::UnsupportedFunct(instr.funct)
            } else {
                SimError::UnsupportedOpcode(instr.opcode)
            }
            &&& step(program, m) == Err::<Machine, SimError>(error)
            &&& execute(program, m, limit).machine == m
            &&& execute(program, m, limit).cycles == 0
            &&& execute(program, m, limit).status == Status::Failed(error)
        }),
{
}

/// How a run ends. It never takes more cycles than it was allowed. If it
/// halted, the program has ended for the machine it left; if it ran out of
/// cycles, it took all of them and the program has not ended; and if a cycle
/// failed, the machine it left is the one on which that cycle fails: the
/// failing cycle has changed nothing.
pub proof fn lemma_run_end(program: Seq<u32>, m: Machine, limit: nat)
    ensures
        ({
            let whole = execute(program, m, limit);
            &&& whole.cycles <= limit
            &&& whole.status == Status::Halted ==> halted(program, whole.machine)
            &&& whole.status == Status::OutOfCycles ==> whole.cycles == limit && !halted(
                program,
                whole.machine,
            )
            &&& whole.status is Failed ==> !halted(program, whole.machine) && step(
                program,
                whole.machine,
            ) == Err::<Machine, SimError>(whole.status->Failed_0)
        }),
    decreases limit,
{
    if !halted(program, m) && limit > 0 {
        match step(program, m) {
            Ok(next) => {
                lemma_run_end(program, next, (limit - 1) as nat);
            },
            Err(e) => {},
        }
    }
}

/// The limit only cuts a run short. A run that ended in any way but for
/// want of cycles is the same run whatever more cycles it is allowed.
pub proof fn lemma_limit_only_cuts(program: Seq<u32>, m: Machine, limit: nat, more: nat)
    requires
        execute(program, m, limit).status != Status::OutOfCycles,
    ensures
        execute(program, m, limit + more) == execute(program, m, limit),
    decreases limit,
{
    if !halted(program, m) && limit > 0 {
        match step(program, m) {
            Ok(next) => {
                lemma_limit_only_cuts(program, next, (limit - 1) as nat, more);
                assert((limit + more - 1) as nat == (limit - 1) as nat + more);
            },
            Err(e) => {},
        }
    }
}

/// A run that is out of cycles can be taken up again: a run of `first`
/// cycles that ends so, followed by a run of `second` cycles from the machine
/// it left, amounts to one run of `first + second` cycles.
pub proof fn lemma_run_resumes(program: Seq<u32>, m: Machine, first: nat, second: nat)
    requires
        execute(program, m, first).status == Status::OutOfCycles,
    ensures
        ({
            let head = execute(program, m, first);
            let tail = execute(program, head.machine, second);
            let whole = execute(program, m, first + second);
            &&& whole.machine == tail.machine
            &&& whole.cycles == head.cycles + tail.cycles
            &&& whole.status == tail.status
            &&& whole.trace == head.trace + tail.trace
        }),
    decreases first,
{
    let head = execute(program, m, first);
    let tail = execute(program, head.machine, second);
    let whole = execute(program, m, first + second);
    if first == 0 {
        assert(head.trace + tail.trace =~= tail.trace);
    } else {
        match step(program, m) {
            Ok(next) => {
                lemma_run_resumes(program, next, (first - 1) as nat, second);
                let head_rest = execute(program, next, (first - 1) as nat);
                assert((first + second - 1) as nat == (first - 1) as nat + second);
                assert(whole.trace =~= head.trace + tail.trace);
            },
            Err(e) => {},
        }
    }
}

/// A load and the instruction after it. Where a cycle loads a word into
/// register `rt` and the next cycle adds that register to another, the
/// second cycle sees the word just loaded: the sum it commits is made of the
/// word in memory, not of what the register held before.
pub proof fn lemma_load_then_add(program: Seq<u32>, m: Machine)
    requires
        program.len() <= MAX_WORDS,
        m.regs.len() == 32,
        is_word_offset(program.len(), m.ip as int),
        is_word_offset(program.len(), m.ip + 4),
        ({
            let load = Instruction::of_word(program[m.ip as int / 4]);
            let sum = Instruction::of_word(program[m.ip as int / 4 + 1]);
            &&& load.opcode == 0x23
            &&& sum.opcode == 0
            &&& sum.funct == 0x20
            &&& sum.rs == load.rt
            &&& in_range(m.mem, wrapped_sum(m.regs[load.rs as int], load.imm16 as u32) as int, 4)
        }),
    ensures
        ({
            let load = Instruction::of_word(program[m.ip as int / 4]);
            let sum = Instruction::of_word(program[m.ip as int / 4 + 1]);
            let loaded = word_at(
                m.mem,
                wrapped_sum(m.regs[load.rs as int], load.imm16 as u32) as int,
            );
            let other = if sum.rt == load.rt {
                loaded
            } else {
                m.regs[sum.rt as int]
            };
            &&& step(program, m) is Ok
            &&& step(program, m)->Ok_0.regs[load.rt as int] == loaded
            &&& step(program, step(program, m)->Ok_0) is Ok
            &&& step(program, step(program, m)->Ok_0)->Ok_0.regs[sum.rd as int] == wrapped_sum(
                loaded,
                other,
            )
            &&& step(program, step(program, m)->Ok_0)->Ok_0.mem == m.mem
            &&& step(program, step(program, m)->Ok_0)->Ok_0.ip == m.ip + 8
        }),
{
    lemma_field_ranges(program[m.ip as int / 4]);
    lemma_field_ranges(program[m.ip as int / 4 + 1]);
    let after_load = step(program, m)->Ok_0;
    assert(after_load.ip == m.ip + 4);
    assert((m.ip + 4) / 4 == m.ip as int / 4 + 1);
}

/// When a branch is taken. Both branch instructions compare the registers
/// that `rs` and `rt` name, and change neither a register nor data memory.
/// The zero flag of the comparison is set when the two are equal. Opcode
/// 0x05 takes the flag as it is, and so branches when they are equal; opcode
/// 0x04 takes it turned over, and so branches when they differ.
pub proof fn lemma_branch_condition(program: Seq<u32>, m: Machine)
    requires
        program.len() <= MAX_WORDS,
        m.regs.len() == 32,
        is_word_offset(program.len(), m.ip as int),
        Instruction::of_word(program[m.ip as int / 4]).opcode == 0x04 || Instruction::of_word(
            program[m.ip as int / 4],
        ).opcode == 0x05,
    ensures
        ({
            let instr = Instruction::of_word(program[m.ip as int / 4]);
            let equal = m.regs[instr.rs as int] == m.regs[instr.rt as int];
            let taken = if instr.opcode == 0x05 {
                equal
            } else {
                !equal
            };
            &&& step(program, m) is Ok
            &&& step(program, m)->Ok_0.regs == m.regs
            &&& step(program, m)->Ok_0.mem == m.mem
            &&& step(program, m)->Ok_0.ip == if taken {
                m.ip - m.ip % 0x1_0000 + instr.imm16
            } else {
                m.ip + 4
            }
        }),
{
    let instr = Instruction::of_word(program[m.ip as int / 4]);
    let ctrl = control(instr.opcode, instr.funct)->Ok_0;
    lemma_field_ranges(program[m.ip as int / 4]);
    lemma_xor_tests_equality(m.regs[instr.rs as int], m.regs[instr.rt as int]);
    lemma_branch_stays_in_block(ctrl, m.ip, instr.imm16);
}

/// What a cycle leaves alone. The register file keeps its thirty-two
/// registers and data memory its size. No register changes but the one that
/// the write-back names, and none at all unless `reg_write` is set. No byte
/// of data memory changes outside the bytes that the cycle addresses, and
/// none at all unless `mem_write` is set.
pub proof fn lemma_step_frame(program: Seq<u32>, m: Machine)
    requires
        m.regs.len() == 32,
        step(program, m) is Ok,
    ensures
        ({
            let next = step(program, m)->Ok_0;
            let instr = Instruction::of_word(program[m.ip as int / 4]);
            let ctrl = control(instr.opcode, instr.funct)->Ok_0;
            let addr = alu_output(instr, ctrl, m.regs).0 as int;
            &&& next.regs.len() == 32
            &&& next.mem.len() == m.mem.len()
            &&& forall|r: int|
                0 <= r < 32 && r != write_back_register(ctrl, instr) ==> next.regs[r] == m.regs[r]
            &&& ctrl.reg_write != 1 ==> next.regs == m.regs
            &&& forall|a: int|
                0 <= a < m.mem.len() && !(addr <= a < addr + access_width(ctrl)) ==> next.mem[a]
                    == m.mem[a]
            &&& ctrl.mem_write != 1 ==> next.mem == m.mem
        }),
{
    lemma_field_ranges(program[m.ip as int / 4]);
}

/// A run, however it ends, leaves a register file of thirty-two registers
/// and a data memory of the size it had.
pub proof fn lemma_run_keeps_sizes(program: Seq<u32>, m: Machine, limit: nat)
    requires
        m.regs.len() == 32,
    ensures
        execute(program, m, limit).machine.regs.len() == 32,
        execute(program, m, limit).machine.mem.len() == m.mem.len(),
    decreases limit,
{
    if !halted(program, m) && limit > 0 {
        match step(program, m) {
            Ok(next) => {
                lemma_step_frame(program, m);
                lemma_run_keeps_sizes(program, next, (limit - 1) as nat);
            },
            Err(e) => {},
        }
    }
}

} // verus!
