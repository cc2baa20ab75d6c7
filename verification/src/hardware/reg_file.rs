//! The register file.

use vstd::prelude::*;

verus! {

/// Thirty-two registers of 32 bits. Register 0 is a register like the others:
/// it holds what was last stored in it.
#[derive(Clone, Copy, Debug)]
pub struct Registers {
    regs: [u32; 32],
}

impl View for Registers {
    type V = Seq<u32>;

    closed spec fn view(&self) -> Seq<u32> {
        self.regs@
    }
}

impl Registers {
    /// A register file in which every register holds 0.
    pub fn new() -> (regfile: Registers)
        ensures
            regfile@ == Seq::new(32, |i: int| 0u32),
    {
        let regfile = Registers { regs: [0u32; 32] };
        assert(regfile@ =~= Seq::new(32, |i: int| 0u32));
        regfile
    }

    /// The value of register `index`.
    pub fn load(&self, index: usize) -> (value: u32)
        requires
            index < 32,
        ensures
            value == self@[index as int],
    {
        self.regs[index]
    }

    /// Sets register `index` to `value` and leaves the others as they are.
    pub fn store(&mut self, index: usize, value: u32)
        requires
            index < 32,
        ensures
            final(self)@ == old(self)@.update(index as int, value),
    {
        self.regs[index] = value;
        assert(self@ =~= old(self)@.update(index as int, value));
    }

    /// A register file always has thirty-two registers.
    pub proof fn lemma_len(self)
        ensures
            self@.len() == 32,
    {
    }
}

} // verus!
