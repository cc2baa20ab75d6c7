//! The ways in which a simulation stops short.

use vstd::prelude::*;
use vstd::string::*;
use crate::text::{hex_digits, push_hex};

verus! {

/// Why a cycle could not be carried out. None of these can be recovered from:
/// the simulation ends with the first one.
#[derive(Clone, Copy, Debug, PartialEq, Eq, Structural)]
pub enum SimError {
    /// The opcode (bits 31..26) is not one the control unit knows.
    UnsupportedOpcode(u8),
    /// The word is in register format, and its funct (bits 5..0) is not one the
    /// control unit knows.
    UnsupportedFunct(u8),
    /// The instruction pointer is not a multiple of four, or the word it
    /// addresses lies outside instruction memory.
    InstrAddress(u32),
    /// A load or store addressed bytes that data memory does not have.
    DataAddress(usize),
}

impl SimError {
    /// The code or the address that the error is about.
    pub open spec fn subject(self) -> nat {
        match self {
            SimError::UnsupportedOpcode(code) => code as nat,
            SimError::UnsupportedFunct(code) => code as nat,
            SimError::InstrAddress(ip) => ip as nat,
            SimError::DataAddress(addr) => addr as nat,
        }
    }

    /// The words with which the message of the error begins.
    pub open spec fn heading(self) -> Seq<char> {
        match self {
            SimError::UnsupportedOpcode(_) => "Error: Unsupported OPCODE ["@,
            SimError::UnsupportedFunct(_) => "Error: Unsupported FUNCT ["@,
            SimError::InstrAddress(_) => "Error: No instruction at ["@,
            SimError::DataAddress(_) => "Error: No data at ["@,
        }
    }

    /// The message of the error: its heading, then the code or the address in
    /// hexadecimal with upper-case letters, then a closing bracket.
    pub open spec fn message_text(self) -> Seq<char> {
        self.heading() + hex_digits(self.subject(), 1, true) + "]"@
    }

    /// The message with which a simulation that met this error ends.
    pub fn message(&self) -> (text: String)
        ensures
            text@ == self.message_text(),
    {
        let mut text = String::new();
        let subject: u64 = match self {
            SimError::UnsupportedOpcode(code) => {
                text.append("Error: Unsupported OPCODE [");
                *code as u64
            },
            SimError::UnsupportedFunct(code) => {
                text.append("Error: Unsupported FUNCT [");
                *code as u64
            },
            SimError::InstrAddress(ip) => {
                text.append("Error: No instruction at [");
                *ip as u64
            },
            SimError::DataAddress(addr) => {
                text.append("Error: No data at [");
                *addr as u64
            },
        };
        assert(text@ =~= self.heading());
        push_hex(&mut text, subject, 1, true);
        text.append("]");
        text
    }
}

} // verus!
