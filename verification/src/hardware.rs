//! The stores that a cycle reads and writes: registers, instruction memory
//! and data memory.

pub mod data_mem;
pub mod instr_mem;
pub mod reg_file;
