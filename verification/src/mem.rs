//! The addressable-memory capability the execution engine depends on.

use crate::isa::word_at;
use crate::isa::hi_byte;
use crate::isa::lo_byte;
use vstd::prelude::*;

verus! {

/// Byte-addressable storage of exactly 256 bytes, with big-endian 16-bit
/// access and a full reset. `contents` is the abstract value every method
/// is specified against. A 16-bit access at address 255 would need the
/// nonexistent address 256; it is ruled out by precondition rather than
/// wrapped or clamped.
pub trait Memory: Sized {
    /// The 256 bytes currently stored, by address.
    spec fn contents(&self) -> Seq<u8>;

    /// The byte at `index`.
    fn fetch_byte(&self, index: u8) -> (r: u8)
        requires
            self.contents().len() == 256,
        ensures
            r == self.contents()[index as int],
    ;

    /// The big-endian 16-bit value whose high byte is at `index` and low
    /// byte at `index + 1`.
    fn fetch_word(&self, index: u8) -> (r: u16)
        requires
            self.contents().len() == 256,
            index < 255,
        ensures
            r == word_at(self.contents(), index),
    ;

    /// Store `byte` at `index`.
    fn write_byte(&mut self, index: u8, byte: u8)
        requires
            old(self).contents().len() == 256,
        ensures
            final(self).contents() == old(self).contents().update(index as int, byte),
    ;

    /// Store the high byte of `word` at `index` and its low byte at
    /// `index + 1`.
    fn write_word(&mut self, index: u8, word: u16)
        requires
            old(self).contents().len() == 256,
            index < 255,
        ensures
            final(self).contents() == old(self).contents().update(
                index as int,
                hi_byte(word),
            ).update(index as int + 1, lo_byte(word)),
    ;

    /// Set every byte to zero.
    fn reset(&mut self)
        requires
            old(self).contents().len() == 256,
        ensures
            final(self).contents() == Seq::new(256, |i: int| 0u8),
    ;
}

} // verus!
