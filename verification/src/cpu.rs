//! The processor capability: a state machine over the instruction set.

use crate::isa::exec_op;
use crate::isa::halts;
use crate::isa::reaches_halt;
use crate::isa::CpuState;
use crate::mem::Memory;
use vstd::prelude::*;

verus! {

/// A processor implementing the instruction set of [`crate::isa`].
///
/// `state` is the abstract processor image. `execute` performs exactly one
/// already-fetched opcode, and `launch` drives fetch-decode-execute cycles
/// until the program counter reaches the halt sentinel. `launch` asks for a
/// program that halts: a program that never reaches the sentinel runs
/// forever, which no terminating contract can describe.
pub trait CPU: Sized {
    /// The abstract image of the processor.
    spec fn state(&self) -> CpuState;

    /// Execute one already-fetched opcode against `memory`, exactly as
    /// [`exec_op`] describes.
    fn execute<M: Memory>(&mut self, opcode: u8, memory: &mut M)
        requires
            old(memory).contents().len() == 256,
        ensures
            final(self).state() == exec_op(
                old(self).state(),
                old(memory).contents(),
                opcode,
            ).0,
            final(memory).contents() == exec_op(
                old(self).state(),
                old(memory).contents(),
                opcode,
            ).1,
    ;

    /// Run fetch-decode-execute cycles until the program counter reaches
    /// the halt sentinel, leaving processor and memory exactly as the
    /// abstract machine does.
    fn launch<M: Memory>(&mut self, memory: &mut M)
        requires
            old(memory).contents().len() == 256,
            halts(old(self).state(), old(memory).contents()),
        ensures
            reaches_halt(
                old(self).state(),
                old(memory).contents(),
                final(self).state(),
                final(memory).contents(),
            ),
    ;
}

} // verus!
