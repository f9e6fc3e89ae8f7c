//! Flat 256-byte random-access memory backing the [`Memory`] capability.

use crate::isa::hi_byte;
use crate::isa::lo_byte;
use crate::isa::word_at;
use crate::isa::word_of;
use crate::mem::Memory;
use vstd::prelude::*;

verus! {

/// A flat array of 256 bytes, zero-initialized, addressed by 8-bit index.
pub struct RAM {
    memory: Vec<u8>,
}

impl RAM {
    /// Fresh memory with every byte zero.
    pub fn new() -> (r: Self)
        ensures
            r.contents() == Seq::new(256, |i: int| 0u8),
    {
        let mut memory: Vec<u8> = Vec::new();
        let mut i: usize = 0;
        while i < 256
            invariant
                i <= 256,
                memory@.len() == i,
                forall|j: int| 0 <= j < i ==> memory@[j] == 0u8,
            decreases 256 - i,
        {
            memory.push(0);
            i = i + 1;
        }
        proof {
            assert(memory@ =~= Seq::new(256, |i: int| 0u8));
        }
        RAM { memory }
    }

    /// Write `data` consecutively starting at `program_pointer`, leaving
    /// every other byte unchanged. The image must fit inside the address
    /// space: it is the caller's responsibility that the origin plus the
    /// image length stays within the 256 bytes.
    pub fn load(&mut self, program_pointer: u8, data: &[u8])
        requires
            old(self).contents().len() == 256,
            program_pointer as int + data@.len() <= 256,
        ensures
            final(self).contents().len() == 256,
            forall|j: int|
                0 <= j < data@.len() ==> final(self).contents()[program_pointer as int + j]
                    == data@[j],
            forall|j: int|
                0 <= j < 256 && !(program_pointer as int <= j < program_pointer as int
                    + data@.len()) ==> final(self).contents()[j] == old(self).contents()[j],
    {
        let mut i: usize = 0;
        while i < data.len()
            invariant
                i <= data@.len(),
                program_pointer as int + data@.len() <= 256,
                self.contents().len() == 256,
                forall|j: int|
                    0 <= j < i ==> self.contents()[program_pointer as int + j] == data@[j],
                forall|j: int|
                    0 <= j < 256 && !(program_pointer as int <= j < program_pointer as int
                        + i) ==> self.contents()[j] == old(self).contents()[j],
            decreases data@.len() - i,
        {
            self.memory[program_pointer as usize + i] = data[i];
            i = i + 1;
        }
    }
}

impl Memory for RAM {
    closed spec fn contents(&self) -> Seq<u8> {
        self.memory@
    }

    fn fetch_byte(&self, index: u8) -> (r: u8) {
        self.memory[index as usize]
    }

    fn fetch_word(&self, index: u8) -> (r: u16) {
        let hi = self.memory[index as usize];
        let lo = self.memory[index as usize + 1];
        (hi as u16) * 256 + (lo as u16)
    }

    fn write_byte(&mut self, index: u8, byte: u8) {
        self.memory[index as usize] = byte;
    }

    fn write_word(&mut self, index: u8, word: u16) {
        self.memory[index as usize] = (word / 256) as u8;
        self.memory[index as usize + 1] = (word % 256) as u8;
    }

    fn reset(&mut self) {
        let mut i: usize = 0;
        while i < 256
            invariant
                i <= 256,
                self.contents().len() == 256,
                forall|j: int| 0 <= j < i ==> self.contents()[j] == 0u8,
            decreases 256 - i,
        {
            self.memory[i] = 0;
            i = i + 1;
        }
        proof {
            assert(self.contents() =~= Seq::new(256, |i: int| 0u8));
        }
    }
}

} // verus!
