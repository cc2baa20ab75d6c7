//! One cycle, from fetch to the next instruction pointer, and the driver that
//! runs cycles until the program ends.

use vstd::prelude::*;
use vstd::string::*;
use crate::control_bits::{control, ControlBits};
use crate::error::SimError;
use crate::hardware::data_mem;
use crate::hardware::instr_mem;
use crate::hardware::instr_mem::is_word_offset;
use crate::hardware::reg_file::Registers;
use crate::instruction::{instr_decode, Instruction};
use crate::text::{hex_digits, push_hex};
use crate::phases::{
    access_fails,
    alu_result,
    apply_not_res,
    execute_alu,
    instr_fetch,
    mem_phase,
    memory_after,
    memory_read,
    reported,
    write_back,
};

verus! {

/// The first operand of the ALU: the register that `rs` names.
pub open spec fn alu_in1(regs: Seq<u32>, instr: Instruction) -> u32 {
    regs[instr.rs as int]
}

/// The second operand of the ALU: the immediate where `reg_dst` is 0, moved
/// into the upper half-word where `imm_upper` is set; else the register that
/// `rt` names. The immediate is taken as the number from 0 to 65535 that its
/// sixteen bits spell: its top bit is no sign.
pub open spec fn alu_in2(regs: Seq<u32>, instr: Instruction, ctrl: ControlBits) -> u32 {
    if ctrl.reg_dst == 0 {
        if ctrl.imm_upper == 1 {
            (instr.imm16 * 0x1_0000) as u32
        } else {
            instr.imm16 as u32
        }
    } else {
        regs[instr.rt as int]
    }
}

/// The instruction pointer after a cycle. A branch that is taken keeps the
/// upper half-word of `ip` and puts `addr` below it; a jump keeps the top
/// byte of `ip` and puts `addr` below it; anything else moves on by one word.
/// A branch is taken where `branch` is set and the zero flag, as reported, is
/// 1, and it goes before a jump.
pub open spec fn next_ip(ctrl: ControlBits, ip: u32, addr: u32, alu_zero: u32) -> u32 {
    if ctrl.branch == 1 && alu_zero == 1 {
        (ip & 0xffff_0000) | addr
    } else if ctrl.jump == 1 {
        (ip & 0xff00_0000) | addr
    } else {
        (ip + 4) as u32
    }
}

/// The field of the instruction that the new instruction pointer is made of:
/// the immediate for a branch, the jump target for a jump, and 0 where the
/// pointer only moves on.
pub open spec fn target_field(ctrl: ControlBits, instr: Instruction) -> u32 {
    if ctrl.branch == 1 {
        instr.imm16 as u32
    } else if ctrl.jump == 1 {
        instr.addr
    } else {
        0
    }
}

/// Selects the first operand of the ALU.
pub fn get_alu_in1(regfile: &Registers, instr: &Instruction) -> (in1: u32)
    requires
        instr.rs < 32,
    ensures
        in1 == alu_in1(regfile@, *instr),
{
    regfile.load(instr.rs as usize)
}

/// Selects the second operand of the ALU.
pub fn get_alu_in2(regfile: &Registers, instr: &Instruction, ctrl: &ControlBits) -> (in2: u32)
    requires
        ctrl.reg_dst != 0 ==> instr.rt < 32,
    ensures
        in2 == alu_in2(regfile@, *instr, *ctrl),
{
    if ctrl.reg_dst == 0 {
        if ctrl.imm_upper == 1 {
            let imm: u32 = instr.imm16 as u32;
            assert(imm << 16 == imm * 0x1_0000) by (bit_vector)
                requires
                    imm <= 0xffff,
            ;
            imm << 16
        } else {
            instr.imm16 as u32
        }
    } else {
        regfile.load(instr.rt as usize)
    }
}

/// Computes the instruction pointer of the next cycle from that of this
/// one, `ip`. Where the pointer only moves on, it has to have room for the
/// four bytes: a pointer that addresses a word of instruction memory has.
pub fn calc_ip(ctrl: &ControlBits, ip: u32, addr: u32, alu_zero: u32) -> (next: u32)
    requires
        !(ctrl.branch == 1 && alu_zero == 1) && ctrl.jump != 1 ==> ip <= 0xffff_fffb,
    ensures
        next == next_ip(*ctrl, ip, addr, alu_zero),
{
    if ctrl.branch == 1 && alu_zero == 1 {
        (ip & 0xffff_0000) | addr
    } else if ctrl.jump == 1 {
        (ip & 0xff00_0000) | addr
    } else {
        ip + 4
    }
}

/// Sets `ctrl` to the signals of `instr`. Where the control unit does not
/// support the instruction, `ctrl` stays as it was.
pub fn fill_control_bits(ctrl: &mut ControlBits, instr: &Instruction) -> (res: Result<
    (),
    SimError,
>)
    ensures
        match control(instr.opcode, instr.funct) {
            Ok(signals) => res is Ok && *final(ctrl) == signals,
            Err(e) => res == Err::<(), SimError>(e) && *final(ctrl) == *old(ctrl),
        },
        res is Ok ==> final(ctrl).well_formed(),
{
    match ControlBits::derive(instr.opcode, instr.funct) {
        Ok(signals) => {
            *ctrl = signals;
            Ok(())
        },
        Err(e) => Err(e),
    }
}

/// The registers and the instruction pointer: what a processor carries from
/// one cycle to the next, beside data memory.
#[derive(Clone, Copy, Debug)]
pub struct Cpu {
    /// The instruction pointer: the byte offset of the next word to fetch.
    pub ip: u32,
    pub regfile: Registers,
}

/// The whole of what a cycle can change: the state of the processor together
/// with the contents of data memory.
pub struct Machine {
    /// The instruction pointer.
    pub ip: u32,
    /// The registers, thirty-two of them.
    pub regs: Seq<u32>,
    /// The bytes of data memory.
    pub mem: Seq<u8>,
}

impl Machine {
    /// The machine before its first cycle: the instruction pointer at 0 and
    /// every register 0, beside a data memory that holds `mem`.
    pub open spec fn reset(mem: Seq<u8>) -> Machine {
        Machine { ip: 0, regs: Seq::new(32, |i: int| 0u32), mem }
    }
}

impl Cpu {
    /// The machine that this processor and a data memory holding `mem` make.
    pub open spec fn with(self, mem: Seq<u8>) -> Machine {
        Machine { ip: self.ip, regs: self.regfile@, mem }
    }

    /// A processor before its first cycle.
    pub fn new() -> (cpu: Cpu)
        ensures
            cpu.ip == 0,
            cpu.regfile@ == Seq::new(32, |i: int| 0u32),
    {
        Cpu { ip: 0, regfile: Registers::new() }
    }
}

/// The value that the write-back stage commits: what the memory stage read
/// where `mem_to_reg` is set (0 where it read nothing), else the result of
/// the ALU.
pub open spec fn write_back_value(ctrl: ControlBits, loaded: Option<u32>, result: u32) -> u32 {
    if ctrl.mem_to_reg == 1 {
        match loaded {
            Some(value) => value,
            None => 0,
        }
    } else {
        result
    }
}

/// The register that the write-back stage commits to: the one that `rd`
/// names where `reg_dst` is set, else the one that `rt` names.
pub open spec fn write_back_register(ctrl: ControlBits, instr: Instruction) -> u8 {
    if ctrl.reg_dst == 1 {
        instr.rd
    } else {
        instr.rt
    }
}

/// The zero flag as a number.
pub open spec fn flag(zero: bool) -> u32 {
    if zero {
        1
    } else {
        0
    }
}

/// Result and zero flag of the cycle that carries out `instr` under the
/// signals `ctrl`: what the ALU makes of the selected operands, as reported.
pub open spec fn alu_output(instr: Instruction, ctrl: ControlBits, regs: Seq<u32>) -> (u32, bool) {
    let raw = alu_result(
        ctrl.alu_op,
        alu_in1(regs, instr),
        alu_in2(regs, instr, ctrl),
        ctrl.alu_bnegate,
    );
    reported(raw, raw == 0, ctrl.not_res)
}

/// What carrying out `instr` under the signals `ctrl` makes of machine `m`:
/// the result of the ALU addresses data memory, the write-back follows the
/// memory access, and the instruction pointer is set last. Where the memory
/// access fails there is no next machine.
pub open spec fn perform(instr: Instruction, ctrl: ControlBits, m: Machine) -> Result<
    Machine,
    SimError,
> {
    let (result, zero) = alu_output(instr, ctrl, m.regs);
    if access_fails(ctrl, m.mem, result as int) {
        Err(SimError::DataAddress(result as usize))
    } else {
        let value = write_back_value(ctrl, memory_read(ctrl, m.mem, result as int), result);
        Ok(
            Machine {
                ip: next_ip(ctrl, m.ip, target_field(ctrl, instr), flag(zero)),
                regs: if ctrl.reg_write == 1 {
                    m.regs.update(write_back_register(ctrl, instr) as int, value)
                } else {
                    m.regs
                },
                mem: memory_after(ctrl, m.mem, result as int, m.regs[instr.rt as int]),
            },
        )
    }
}

/// One cycle of `program` on machine `m`: the machine after it, or the
/// reason why there is none. The word that the instruction pointer addresses
/// is fetched, decoded and given to the control unit, and then carried out.
pub open spec fn step(program: Seq<u32>, m: Machine) -> Result<Machine, SimError> {
    if !is_word_offset(program.len(), m.ip as int) {
        Err(SimError::InstrAddress(m.ip))
    } else {
        let instr = Instruction::of_word(program[m.ip as int / 4]);
        match control(instr.opcode, instr.funct) {
            Ok(ctrl) => perform(instr, ctrl, m),
            Err(e) => Err(e),
        }
    }
}

/// Carries out one cycle. Where the cycle fails, registers, instruction
/// pointer and data memory are as they were before it.
pub fn cycle(cpu: &mut Cpu, instr_mem: &instr_mem::Memory, data_mem: &mut data_mem::Memory) -> (res:
    Result<(), SimError>)
    ensures
        match step(instr_mem@, old(cpu).with(old(data_mem)@)) {
            Ok(next) => res is Ok && final(cpu).with(final(data_mem)@) == next,
            Err(e) => res == Err::<(), SimError>(e) && final(cpu).with(final(data_mem)@) == old(
                cpu,
            ).with(old(data_mem)@),
        },
{
    let instr_raw = match instr_fetch(instr_mem, cpu.ip) {
        Ok(word) => word,
        Err(e) => { return Err(e); },
    };
    let instr = instr_decode(instr_raw);
    let ctrl = match ControlBits::derive(instr.opcode, instr.funct) {
        Ok(signals) => signals,
        Err(e) => { return Err(e); },
    };

    let in1 = get_alu_in1(&cpu.regfile, &instr);
    let in2 = get_alu_in2(&cpu.regfile, &instr, &ctrl);
    let (raw, raw_zero) = execute_alu(ctrl.alu_op, in1, in2, ctrl.alu_bnegate);
    let (alu_res, zero) = apply_not_res(raw, raw_zero, ctrl.not_res);

    let write_val = cpu.regfile.load(instr.rt as usize);
    let loaded = match mem_phase(&ctrl, data_mem, alu_res as usize, write_val) {
        Ok(loaded) => loaded,
        Err(e) => { return Err(e); },
    };

    let wbval = if ctrl.mem_to_reg == 1 {
        match loaded {
            Some(value) => value,
            None => 0,
        }
    } else {
        alu_res
    };
    let reg_num = if ctrl.reg_dst == 1 {
        instr.rd
    } else {
        instr.rt
    };
    write_back(&mut cpu.regfile, reg_num as usize, &ctrl, wbval);

    let addr = if ctrl.branch == 1 {
        instr.imm16 as u32
    } else if ctrl.jump == 1 {
        instr.addr
    } else {
        0
    };
    let alu_zero: u32 = if zero {
        1
    } else {
        0
    };
    cpu.ip = calc_ip(&ctrl, cpu.ip, addr, alu_zero);
    Ok(())
}

/// How a run ended.
#[derive(Clone, Copy, Debug, PartialEq, Eq, Structural)]
pub enum Status {
    /// The instruction pointer reached the end of instruction memory, or went
    /// beyond it.
    Halted,
    /// The cycles that the run was allowed are used up, and the program has
    /// not ended. A further run goes on where this one stopped.
    OutOfCycles,
    /// A cycle failed. The machine is as it was before that cycle.
    Failed(SimError),
}

/// What a run in debug mode records of a cycle before it decodes: the
/// instruction pointer and the word fetched from there.
#[derive(Clone, Copy, Debug, PartialEq, Eq, Structural)]
pub struct TraceEntry {
    /// The instruction pointer of the cycle.
    pub ip: u32,
    /// The word fetched from there.
    pub instr: u32,
}

impl TraceEntry {
    /// The line that shows the instruction pointer: in hexadecimal, with as
    /// many digits as it takes.
    pub open spec fn ip_text(self) -> Seq<char> {
        "> Instruction Pointer: 0x"@ + hex_digits(self.ip as nat, 1, false)
    }

    /// The line that shows the word fetched: in hexadecimal, with eight
    /// digits.
    pub open spec fn instr_text(self) -> Seq<char> {
        "> Instruction: 0x"@ + hex_digits(self.instr as nat, 8, false)
    }

    /// The first line to show for the cycle.
    pub fn ip_line(&self) -> (line: String)
        ensures
            line@ == self.ip_text(),
    {
        let mut line = String::new();
        line.append("> Instruction Pointer: 0x");
        push_hex(&mut line, self.ip as u64, 1, false);
        line
    }

    /// The second line to show for the cycle.
    pub fn instr_line(&self) -> (line: String)
        ensures
            line@ == self.instr_text(),
    {
        let mut line = String::new();
        line.append("> Instruction: 0x");
        push_hex(&mut line, self.instr as u64, 8, false);
        line
    }
}

/// The account of a run.
#[derive(Debug)]
pub struct Run {
    /// How many cycles were carried out. A cycle that failed is not among them.
    pub cycles: u64,
    /// How the run ended.
    pub status: Status,
    /// One entry for each word fetched, in the order of the cycles; empty
    /// where the run was not in debug mode.
    pub trace: Vec<TraceEntry>,
}

/// A run as a whole: the machine it ends in and the account of it.
pub struct Execution {
    /// The machine that the run left.
    pub machine: Machine,
    /// How many cycles were carried out.
    pub cycles: nat,
    /// How the run ended.
    pub status: Status,
    /// What was fetched, cycle by cycle, the failed cycle included where its
    /// fetch succeeded.
    pub trace: Seq<TraceEntry>,
}

/// Whether the program has ended for machine `m`: its instruction pointer is
/// not below the size of the program in bytes.
pub open spec fn halted(program: Seq<u32>, m: Machine) -> bool {
    m.ip >= 4 * program.len()
}

/// The trace entry of the cycle that machine `m` is about to carry out: one
/// where the fetch succeeds, none where it does not.
pub open spec fn fetch_trace(program: Seq<u32>, m: Machine) -> Seq<TraceEntry> {
    if is_word_offset(program.len(), m.ip as int) {
        seq![TraceEntry { ip: m.ip, instr: program[m.ip as int / 4] }]
    } else {
        Seq::empty()
    }
}

/// The run of `program` from machine `m` with at most `limit` cycles. It
/// ends when the program has ended, when a cycle fails, or when the program
/// has not ended and no cycle is left.
pub open spec fn execute(program: Seq<u32>, m: Machine, limit: nat) -> Execution
    decreases limit,
{
    if halted(program, m) {
        Execution { machine: m, cycles: 0, status: Status::Halted, trace: Seq::empty() }
    } else if limit == 0 {
        Execution { machine: m, cycles: 0, status: Status::OutOfCycles, trace: Seq::empty() }
    } else {
        match step(program, m) {
            Ok(next) => {
                let rest = execute(program, next, (limit - 1) as nat);
                Execution {
                    machine: rest.machine,
                    cycles: rest.cycles + 1,
                    status: rest.status,
                    trace: fetch_trace(program, m) + rest.trace,
                }
            },
            Err(e) => Execution {
                machine: m,
                cycles: 0,
                status: Status::Failed(e),
                trace: fetch_trace(program, m),
            },
        }
    }
}

/// Runs the program in `instr_mem` from the state of `cpu` and `data_mem`
/// for at most `max_cycles` cycles, and leaves in them the state in which
/// the run ended. In debug mode the run records what it fetched.
pub fn run(
    cpu: &mut Cpu,
    instr_mem: &instr_mem::Memory,
    data_mem: &mut data_mem::Memory,
    debug: bool,
    max_cycles: u64,
) -> (run: Run)
    ensures
        ({
            let whole = execute(
                instr_mem@,
                old(cpu).with(old(data_mem)@),
                max_cycles as nat,
            );
            &&& final(cpu).with(final(data_mem)@) == whole.machine
            &&& run.cycles == whole.cycles
            &&& run.status == whole.status
            &&& run.trace@ == if debug {
                whole.trace
            } else {
                Seq::empty()
            }
        }),
{
    let ghost whole = execute(instr_mem@, cpu.with(data_mem@), max_cycles as nat);
    let ghost mut seen: Seq<TraceEntry> = Seq::empty();
    let size = instr_mem.get_size();
    let mut cycles: u64 = 0;
    let mut status = Status::Halted;
    let mut trace: Vec<TraceEntry> = Vec::new();
    while (cpu.ip as usize) < size
        invariant_except_break
            status == Status::Halted,
            ({
                let rest = execute(
                    instr_mem@,
                    cpu.with(data_mem@),
                    (max_cycles - cycles) as nat,
                );
                &&& whole.machine == rest.machine
                &&& whole.cycles == cycles + rest.cycles
                &&& whole.status == rest.status
                &&& whole.trace == seen + rest.trace
            }),
        invariant
            size == 4 * instr_mem@.len(),
            cycles <= max_cycles,
            trace@ == if debug {
                seen
            } else {
                Seq::empty()
            },
        ensures
            cycles <= max_cycles,
            trace@ == if debug {
                seen
            } else {
                Seq::empty()
            },
            whole.machine == cpu.with(data_mem@),
            whole.cycles == cycles,
            whole.status == status,
            whole.trace == seen,
        decreases max_cycles - cycles,
    {
        let ghost before = cpu.with(data_mem@);
        let ghost left = (max_cycles - cycles) as nat;
        if cycles == max_cycles {
            status = Status::OutOfCycles;
            assert(seen + Seq::<TraceEntry>::empty() =~= seen);
            break ;
        }
        if debug {
            match instr_fetch(instr_mem, cpu.ip) {
                Ok(word) => {
                    trace.push(TraceEntry { ip: cpu.ip, instr: word });
                },
                Err(_) => {},
            }
        }
        proof {
            assert(seen + (fetch_trace(instr_mem@, before) + execute(
                instr_mem@,
                step(instr_mem@, before)->Ok_0,
                (left - 1) as nat,
            ).trace) =~= (seen + fetch_trace(instr_mem@, before)) + execute(
                instr_mem@,
                step(instr_mem@, before)->Ok_0,
                (left - 1) as nat,
            ).trace);
            seen = seen + fetch_trace(instr_mem@, before);
        }
        match cycle(cpu, instr_mem, data_mem) {
            Ok(()) => {
                cycles = cycles + 1;
            },
            Err(e) => {
                status = Status::Failed(e);
                break ;
            },
        }
    }
    proof {
        assert(seen + Seq::<TraceEntry>::empty() =~= seen);
    }
    Run { cycles, status, trace }
}

/// Runs the program in `instr_mem` from the start, on a fresh processor and
/// the data memory given, for at most `max_cycles` cycles. Returns the
/// processor as the run left it, and the account of the run.
pub fn start(
    instr_mem: &instr_mem::Memory,
    data_mem: &mut data_mem::Memory,
    debug: bool,
    max_cycles: u64,
) -> (out: (Cpu, Run))
    ensures
        ({
            let whole = execute(instr_mem@, Machine::reset(old(data_mem)@), max_cycles as nat);
            &&& out.0.with(final(data_mem)@) == whole.machine
            &&& out.1.cycles == whole.cycles
            &&& out.1.status == whole.status
            &&& out.1.trace@ == if debug {
                whole.trace
            } else {
                Seq::empty()
            }
        }),
{
    let mut cpu = Cpu::new();
    let run = run(&mut cpu, instr_mem, data_mem, debug, max_cycles);
    (cpu, run)
}

} // verus!
