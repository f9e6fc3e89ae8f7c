//! A verified emulator for a small 8-bit accumulator machine.
//!
//! The machine has four 8-bit registers (accumulator, two index registers
//! and a status register), an 8-bit stack pointer and an 8-bit program
//! counter, all operating over a flat 256-byte memory. The [`isa`] module
//! gives the mathematical semantics of every instruction; [`simple_cpu`]
//! implements the fetch-decode-execute loop and is proved to follow that
//! semantics step for step; [`laws`] states and proves the general
//! properties of the instruction set.

pub mod cpu;
pub mod isa;
pub mod laws;
pub mod mem;
pub mod ram;
pub mod simple_cpu;
