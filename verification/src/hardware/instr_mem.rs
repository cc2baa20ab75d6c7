//! Instruction memory.

use vstd::prelude::*;

verus! {

/// The most words an instruction memory can hold: its size in bytes has to be
/// a value that the instruction pointer can take.
pub const MAX_WORDS: usize = 0x3fff_ffff;

/// The program, as a row of 32-bit words. It is addressed by the byte: the
/// word `i` lies at offset `4 * i`. A cycle reads it and never writes it.
#[derive(Debug)]
pub struct Memory {
    words: Vec<u32>,
}

impl View for Memory {
    type V = Seq<u32>;

    closed spec fn view(&self) -> Seq<u32> {
        self.words@
    }
}

/// An offset at which a program of `word_count` words has a word: a multiple
/// of four that lies inside it.
pub open spec fn is_word_offset(word_count: nat, offset: int) -> bool {
    0 <= offset < 4 * word_count && offset % 4 == 0
}

impl Clone for Memory {
    fn clone(&self) -> (mem: Memory)
        ensures
            mem@ == self@,
    {
        proof {
            use_type_invariant(self);
        }
        let words = self.words.clone();
        assert(words@ =~= self.words@);
        Memory { words }
    }
}

impl Memory {
    #[verifier::type_invariant]
    spec fn fits_instruction_pointer(&self) -> bool {
        self.words@.len() <= MAX_WORDS
    }

    /// An instruction memory that holds `words`, or nothing where they are
    /// more than [`MAX_WORDS`].
    pub fn from_words(words: Vec<u32>) -> (mem: Option<Memory>)
        ensures
            mem is Some <==> words@.len() <= MAX_WORDS,
            mem is Some ==> mem->Some_0@ == words@,
    {
        if words.len() <= MAX_WORDS {
            Some(Memory { words })
        } else {
            None
        }
    }

    /// The size in bytes: four for each word.
    pub fn get_size(&self) -> (size: usize)
        ensures
            size == 4 * self@.len(),
            self@.len() <= MAX_WORDS,
    {
        proof {
            use_type_invariant(self);
        }
        self.words.len() * 4
    }

    /// The word at byte `offset`, where there is one.
    pub fn read_word(&self, offset: usize) -> (word: Option<u32>)
        ensures
            word is Some <==> is_word_offset(self@.len(), offset as int),
            word is Some ==> word->Some_0 == self@[offset as int / 4],
            self@.len() <= MAX_WORDS,
    {
        proof {
            use_type_invariant(self);
        }
        if offset % 4 == 0 && offset / 4 < self.words.len() {
            Some(self.words[offset / 4])
        } else {
            None
        }
    }
}

} // verus!
