//! Data memory.

use vstd::prelude::*;

verus! {

/// The word that four bytes spell, the first of them the most significant.
pub open spec fn word_of_bytes(b0: u8, b1: u8, b2: u8, b3: u8) -> u32 {
    (b0 * 0x100_0000 + b1 * 0x1_0000 + b2 * 0x100 + b3) as u32
}

/// Byte `k` of `word`, counted from the most significant (`k` from 0 to 3).
pub open spec fn byte_of_word(word: u32, k: int) -> u8 {
    if k == 0 {
        (word / 0x100_0000) as u8
    } else if k == 1 {
        (word / 0x1_0000 % 0x100) as u8
    } else if k == 2 {
        (word / 0x100 % 0x100) as u8
    } else {
        (word % 0x100) as u8
    }
}

/// Whether `bytes` has the `width` bytes from `addr` on.
pub open spec fn in_range(bytes: Seq<u8>, addr: int, width: int) -> bool {
    0 <= addr && addr + width <= bytes.len()
}

/// The word stored in the four bytes from `addr` on.
pub open spec fn word_at(bytes: Seq<u8>, addr: int) -> u32
    recommends
        in_range(bytes, addr, 4),
{
    word_of_bytes(bytes[addr], bytes[addr + 1], bytes[addr + 2], bytes[addr + 3])
}

/// `bytes` after `word` has been stored in the four bytes from `addr` on.
pub open spec fn with_word(bytes: Seq<u8>, addr: int, word: u32) -> Seq<u8>
    recommends
        in_range(bytes, addr, 4),
{
    bytes.update(addr, byte_of_word(word, 0)).update(addr + 1, byte_of_word(word, 1)).update(
        addr + 2,
        byte_of_word(word, 2),
    ).update(addr + 3, byte_of_word(word, 3))
}

/// A row of bytes that loads read and stores write. A word takes four
/// bytes, most significant first, and may start at any address. An access
/// that reaches outside the memory fails and changes nothing.
#[derive(Debug)]
pub struct Memory {
    bytes: Vec<u8>,
}

impl View for Memory {
    type V = Seq<u8>;

    closed spec fn view(&self) -> Seq<u8> {
        self.bytes@
    }
}

impl Clone for Memory {
    fn clone(&self) -> (mem: Memory)
        ensures
            mem@ == self@,
    {
        let bytes = self.bytes.clone();
        assert(bytes@ =~= self.bytes@);
        Memory { bytes }
    }
}

impl Memory {
    /// A memory of `size` bytes, each of them 0.
    pub fn new(size: usize) -> (mem: Memory)
        ensures
            mem@ == Seq::new(size as nat, |i: int| 0u8),
    {
        let mem = Memory { bytes: vec![0u8; size] };
        assert(mem@ =~= Seq::new(size as nat, |i: int| 0u8));
        mem
    }

    /// A memory that holds `bytes`.
    pub fn from_bytes(bytes: Vec<u8>) -> (mem: Memory)
        ensures
            mem@ == bytes@,
    {
        Memory { bytes }
    }

    /// The size in bytes.
    pub fn get_size(&self) -> (size: usize)
        ensures
            size == self@.len(),
    {
        self.bytes.len()
    }

    /// The byte at `addr`, where there is one.
    pub fn read_byte(&self, addr: usize) -> (byte: Option<u8>)
        ensures
            byte is Some <==> in_range(self@, addr as int, 1),
            byte is Some ==> byte->Some_0 == self@[addr as int],
    {
        if addr < self.bytes.len() {
            Some(self.bytes[addr])
        } else {
            None
        }
    }

    /// The word in the four bytes from `addr` on, where the memory has them.
    pub fn read_word(&self, addr: usize) -> (word: Option<u32>)
        ensures
            word is Some <==> in_range(self@, addr as int, 4),
            word is Some ==> word->Some_0 == word_at(self@, addr as int),
    {
        let len = self.bytes.len();
        if len < 4 || addr > len - 4 {
            return None;
        }
        let b0: u32 = self.bytes[addr] as u32;
        let b1: u32 = self.bytes[addr + 1] as u32;
        let b2: u32 = self.bytes[addr + 2] as u32;
        let b3: u32 = self.bytes[addr + 3] as u32;
        Some(b0 * 0x100_0000 + b1 * 0x1_0000 + b2 * 0x100 + b3)
    }

    /// Stores `byte` at `addr` and says so with `true`; where the memory has
    /// no such byte, changes nothing and returns `false`.
    pub fn write_byte(&mut self, addr: usize, byte: u8) -> (stored: bool)
        ensures
            stored == in_range(old(self)@, addr as int, 1),
            stored ==> final(self)@ == old(self)@.update(addr as int, byte),
            !stored ==> final(self)@ == old(self)@,
    {
        if addr < self.bytes.len() {
            self.bytes[addr] = byte;
            true
        } else {
            false
        }
    }

    /// Stores `word` in the four bytes from `addr` on and says so with `true`;
    /// where the memory does not have all four, changes nothing and returns
    /// `false`.
    pub fn write_word(&mut self, addr: usize, word: u32) -> (stored: bool)
        ensures
            stored == in_range(old(self)@, addr as int, 4),
            stored ==> final(self)@ == with_word(old(self)@, addr as int, word),
            !stored ==> final(self)@ == old(self)@,
    {
        let len = self.bytes.len();
        if len < 4 || addr > len - 4 {
            return false;
        }
        self.bytes[addr] = (word / 0x100_0000) as u8;
        self.bytes[addr + 1] = (word / 0x1_0000 % 0x100) as u8;
        self.bytes[addr + 2] = (word / 0x100 % 0x100) as u8;
        self.bytes[addr + 3] = (word % 0x100) as u8;
        true
    }
}

/// A word is the four bytes it is split into, put together again.
pub proof fn lemma_bytes_spell_word(word: u32)
    ensures
        word_of_bytes(
            byte_of_word(word, 0),
            byte_of_word(word, 1),
            byte_of_word(word, 2),
            byte_of_word(word, 3),
        ) == word,
{
}

/// A word that was stored is the word that is read from there, and the
/// store changes no byte but its four.
pub proof fn lemma_stored_word_is_read(bytes: Seq<u8>, addr: int, word: u32)
    requires
        in_range(bytes, addr, 4),
    ensures
        with_word(bytes, addr, word).len() == bytes.len(),
        word_at(with_word(bytes, addr, word), addr) == word,
        forall|a: int|
            0 <= a < bytes.len() && !(addr <= a < addr + 4) ==> with_word(bytes, addr, word)[a]
                == bytes[a],
{
    lemma_bytes_spell_word(word);
}

} // verus!
