//! Execution core of a single-cycle simulator for a reduced MIPS-style
//! instruction set.
//!
//! A cycle fetches one 32-bit word, decodes it ([`instruction`]), derives the
//! control signals ([`control_bits`]), and passes through the ALU, the memory
//! access and the write-back ([`phases`]) before the next instruction pointer
//! is computed ([`single_cycle`]). Registers and memories are in
//! [`hardware`]. A failure is a value ([`error`]): nothing here panics.
//!
//! Every function is verified against a contract. The contracts of the
//! cycle and of the driver are stated over one model of the machine,
//! [`single_cycle::step`] and [`single_cycle::execute`]; what follows from
//! them for every program is proved in [`laws`].

pub mod control_bits;
pub mod error;
pub mod hardware;
pub mod instruction;
pub mod laws;
pub mod phases;
pub mod single_cycle;
pub mod text;
