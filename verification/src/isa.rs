//! Mathematical model of the instruction set.
//!
//! [`CpuState`] is the ghost image of the processor: the four registers,
//! the stack pointer, the program counter, and the sequence of values the
//! machine has emitted so far. [`exec_op`] gives the meaning of a single
//! opcode, [`step`] one full fetch-decode-execute cycle, and [`run_n`] a
//! bounded number of cycles; [`halts`] and [`reaches_halt`] describe whole
//! runs. Every executable function of the crate is specified against these
//! definitions.

use vstd::prelude::*;

verus! {

/// Load the operand byte into the accumulator.
pub const LDA: u8 = 0x01;

/// Load the operand byte into the X register.
pub const LDX: u8 = 0x02;

/// Load the operand byte into the Y register.
pub const LDY: u8 = 0x03;

/// Store the accumulator at the address given by the operand byte.
pub const STA: u8 = 0x04;

/// Store the X register at the address given by the operand byte.
pub const STX: u8 = 0x05;

/// Store the Y register at the address given by the operand byte.
pub const STY: u8 = 0x06;

/// Copy the accumulator to the X register.
pub const TAX: u8 = 0x07;

/// Copy the accumulator to the Y register.
pub const TAY: u8 = 0x08;

/// Copy the stack pointer to the X register.
pub const TSX: u8 = 0x09;

/// Copy the X register to the accumulator.
pub const TXA: u8 = 0x0a;

/// Copy the X register to the stack pointer.
pub const TXS: u8 = 0x0b;

/// Copy the Y register to the accumulator.
pub const TYA: u8 = 0x0c;

/// Push the accumulator onto the stack.
pub const PHA: u8 = 0x0d;

/// Push the status register onto the stack.
pub const PHP: u8 = 0x0e;

/// Pop the top of the stack into the accumulator.
pub const PLA: u8 = 0x0f;

/// Pop the top of the stack into the status register.
pub const PLP: u8 = 0x10;

/// Decrement the accumulator, wrapping modulo 256.
pub const DEC: u8 = 0x11;

/// Decrement the X register, wrapping modulo 256.
pub const DEX: u8 = 0x12;

/// Decrement the Y register, wrapping modulo 256.
pub const DEY: u8 = 0x13;

/// Increment the accumulator, wrapping modulo 256.
pub const INC: u8 = 0x14;

/// Increment the X register, wrapping modulo 256.
pub const INX: u8 = 0x15;

/// Increment the Y register, wrapping modulo 256.
pub const INY: u8 = 0x16;

/// Set the equality flag if the accumulator equals the operand byte.
pub const CMP: u8 = 0x17;

/// Set the equality flag if the X register equals the operand byte.
pub const CMX: u8 = 0x18;

/// Set the equality flag if the Y register equals the operand byte.
pub const CMY: u8 = 0x19;

/// Branch to the operand byte if the equality flag is set; always clear it.
pub const BEQ: u8 = 0x1a;

/// Branch to the operand byte if the equality flag is clear; always clear it.
pub const BNE: u8 = 0x1b;

/// Jump to the operand byte.
pub const JMP: u8 = 0x1c;

/// Push a call frame (status, accumulator, program counter, X, Y) and jump.
pub const JSR: u8 = 0x1d;

/// Pop a call frame in reverse order, restoring X, Y, the program counter
/// and the status register.
pub const RTS: u8 = 0x1e;

/// Emit the accumulator as an observation.
pub const OUA: u8 = 0x1f;

/// Set the program counter to the halt sentinel, ending the run.
pub const HLT: u8 = 0x20;

/// Add the Y register to the accumulator, wrapping modulo 256.
pub const APY: u8 = 0x21;

/// Add the X register to the accumulator, wrapping modulo 256.
pub const APX: u8 = 0x22;

/// Add the accumulator to itself, wrapping modulo 256.
pub const APA: u8 = 0x23;

/// Add the operand byte to the accumulator, wrapping modulo 256.
pub const ADA: u8 = 0x24;

/// Add the operand byte to the X register, wrapping modulo 256.
pub const ADX: u8 = 0x25;

/// Add the operand byte to the Y register, wrapping modulo 256.
pub const ADY: u8 = 0x26;

/// The program counter value that terminates the run loop. A well-formed
/// program never places an instruction at this address.
pub const HALT_SENTINEL: u8 = 0xff;

/// The ghost image of the processor: registers, stack pointer, program
/// counter, and the sequence of observations emitted so far.
pub ghost struct CpuState {
    /// Accumulator.
    pub a: u8,
    /// Index register X.
    pub x: u8,
    /// Index register Y.
    pub y: u8,
    /// Status register; bit 1 is the equality flag, all other bits are
    /// reserved and never written by any instruction.
    pub p: u8,
    /// Stack pointer: pushes write at this address and increment it, pops
    /// decrement it and read.
    pub sp: u8,
    /// Program counter, advanced by one on every opcode or operand fetch.
    pub pc: u8,
    /// Every value emitted so far, oldest first.
    pub out: Seq<u8>,
}

/// True when bit 1 of the status register, the equality flag, is set.
pub open spec fn eq_flag(p: u8) -> bool {
    (p >> 1) & 1 == 1
}

/// The status register with the equality flag set.
pub open spec fn set_eq_flag(p: u8) -> u8 {
    p | 2
}

/// The status register with the equality flag cleared.
pub open spec fn clear_eq_flag(p: u8) -> u8 {
    p & 0xfd
}

/// The high byte of a big-endian 16-bit value.
pub open spec fn hi_byte(w: u16) -> u8 {
    (w / 256) as u8
}

/// The low byte of a big-endian 16-bit value.
pub open spec fn lo_byte(w: u16) -> u8 {
    (w % 256) as u8
}

/// The big-endian 16-bit value formed from two bytes.
pub open spec fn word_of(hi: u8, lo: u8) -> u16 {
    (hi * 256 + lo) as u16
}

/// The big-endian 16-bit value stored at `i`: the byte at `i` is the high
/// byte, the byte at `i + 1` the low byte.
pub open spec fn word_at(m: Seq<u8>, i: u8) -> u16
    recommends
        m.len() == 256,
        i < 255,
{
    word_of(m[i as int], m[i as int + 1])
}

/// The effect of executing one already-fetched opcode on state `s` and
/// memory `m`. The program counter points at the byte after the opcode, so
/// instructions with an operand read it at `s.pc` and advance past it.
/// An opcode outside the table (including 0) changes nothing.
pub open spec fn exec_op(s: CpuState, m: Seq<u8>, op: u8) -> (CpuState, Seq<u8>)
    recommends
        m.len() == 256,
{
    if op == LDA {
        (CpuState { a: m[s.pc as int], pc: s.pc.wrapping_add(1), ..s }, m)
    } else if op == LDX {
        (CpuState { x: m[s.pc as int], pc: s.pc.wrapping_add(1), ..s }, m)
    } else if op == LDY {
        (CpuState { y: m[s.pc as int], pc: s.pc.wrapping_add(1), ..s }, m)
    } else if op == STA {
        (CpuState { pc: s.pc.wrapping_add(1), ..s }, m.update(m[s.pc as int] as int, s.a))
    } else if op == STX {
        (CpuState { pc: s.pc.wrapping_add(1), ..s }, m.update(m[s.pc as int] as int, s.x))
    } else if op == STY {
        (CpuState { pc: s.pc.wrapping_add(1), ..s }, m.update(m[s.pc as int] as int, s.y))
    } else if op == TXA {
        (CpuState { a: s.x, ..s }, m)
    } else if op == TYA {
        (CpuState { a: s.y, ..s }, m)
    } else if op == TAX {
        (CpuState { x: s.a, ..s }, m)
    } else if op == TAY {
        (CpuState { y: s.a, ..s }, m)
    } else if op == TSX {
        (CpuState { x: s.sp, ..s }, m)
    } else if op == TXS {
        (CpuState { sp: s.x, ..s }, m)
    } else if op == PHA {
        (CpuState { sp: s.sp.wrapping_add(1), ..s }, m.update(s.sp as int, s.a))
    } else if op == PHP {
        (CpuState { sp: s.sp.wrapping_add(1), ..s }, m.update(s.sp as int, s.p))
    } else if op == PLA {
        let sp1 = s.sp.wrapping_sub(1);
        (CpuState { a: m[sp1 as int], sp: sp1, ..s }, m)
    } else if op == PLP {
        let sp1 = s.sp.wrapping_sub(1);
        (CpuState { p: m[sp1 as int], sp: sp1, ..s }, m)
    } else if op == DEC {
        (CpuState { a: s.a.wrapping_sub(1), ..s }, m)
    } else if op == DEX {
        (CpuState { x: s.x.wrapping_sub(1), ..s }, m)
    } else if op == DEY {
        (CpuState { y: s.y.wrapping_sub(1), ..s }, m)
    } else if op == INC {
        (CpuState { a: s.a.wrapping_add(1), ..s }, m)
    } else if op == INX {
        (CpuState { x: s.x.wrapping_add(1), ..s }, m)
    } else if op == INY {
        (CpuState { y: s.y.wrapping_add(1), ..s }, m)
    } else if op == CMP {
        let p1 = if s.a == m[s.pc as int] { set_eq_flag(s.p) } else { s.p };
        (CpuState { p: p1, pc: s.pc.wrapping_add(1), ..s }, m)
    } else if op == CMX {
        let p1 = if s.x == m[s.pc as int] { set_eq_flag(s.p) } else { s.p };
        (CpuState { p: p1, pc: s.pc.wrapping_add(1), ..s }, m)
    } else if op == CMY {
        let p1 = if s.y == m[s.pc as int] { set_eq_flag(s.p) } else { s.p };
        (CpuState { p: p1, pc: s.pc.wrapping_add(1), ..s }, m)
    } else if op == BEQ {
        let pc1 = if eq_flag(s.p) { m[s.pc as int] } else { s.pc.wrapping_add(1) };
        (CpuState { p: clear_eq_flag(s.p), pc: pc1, ..s }, m)
    } else if op == BNE {
        let pc1 = if !eq_flag(s.p) { m[s.pc as int] } else { s.pc.wrapping_add(1) };
        (CpuState { p: clear_eq_flag(s.p), pc: pc1, ..s }, m)
    } else if op == JMP {
        (CpuState { pc: m[s.pc as int], ..s }, m)
    } else if op == JSR {
        let m1 = m.update(s.sp as int, s.p);
        let sp1 = s.sp.wrapping_add(1);
        let m2 = m1.update(sp1 as int, s.a);
        let sp2 = sp1.wrapping_add(1);
        let m3 = m2.update(sp2 as int, s.pc);
        let sp3 = sp2.wrapping_add(1);
        let m4 = m3.update(sp3 as int, s.x);
        let sp4 = sp3.wrapping_add(1);
        let m5 = m4.update(sp4 as int, s.y);
        let sp5 = sp4.wrapping_add(1);
        (CpuState { a: s.y, sp: sp5, pc: m5[s.pc as int], ..s }, m5)
    } else if op == RTS {
        let sp1 = s.sp.wrapping_sub(1);
        let sp2 = sp1.wrapping_sub(1);
        let sp3 = sp2.wrapping_sub(1);
        let sp4 = sp3.wrapping_sub(1);
        let sp5 = sp4.wrapping_sub(1);
        (
            CpuState {
                a: m[sp4 as int],
                x: m[sp2 as int],
                y: m[sp1 as int],
                p: m[sp5 as int],
                sp: sp5,
                pc: m[sp3 as int],
                ..s
            },
            m,
        )
    } else if op == OUA {
        (CpuState { out: s.out.push(s.a), ..s }, m)
    } else if op == HLT {
        (CpuState { pc: HALT_SENTINEL, ..s }, m)
    } else if op == APY {
        (CpuState { a: s.a.wrapping_add(s.y), ..s }, m)
    } else if op == APX {
        (CpuState { a: s.a.wrapping_add(s.x), ..s }, m)
    } else if op == APA {
        (CpuState { a: s.a.wrapping_add(s.a), ..s }, m)
    } else if op == ADA {
        (CpuState { a: s.a.wrapping_add(m[s.pc as int]), pc: s.pc.wrapping_add(1), ..s }, m)
    } else if op == ADX {
        (CpuState { x: s.x.wrapping_add(m[s.pc as int]), pc: s.pc.wrapping_add(1), ..s }, m)
    } else if op == ADY {
        (CpuState { y: s.y.wrapping_add(m[s.pc as int]), pc: s.pc.wrapping_add(1), ..s }, m)
    } else {
        (s, m)
    }
}

/// One full fetch-decode-execute cycle: fetch the opcode at the program
/// counter, advance past it, and execute it.
pub open spec fn step(s: CpuState, m: Seq<u8>) -> (CpuState, Seq<u8>)
    recommends
        m.len() == 256,
{
    exec_op(CpuState { pc: s.pc.wrapping_add(1), ..s }, m, m[s.pc as int])
}

/// The machine after at most `n` cycles: cycles are applied one at a time
/// and stop as soon as the program counter reaches the halt sentinel.
pub open spec fn run_n(s: CpuState, m: Seq<u8>, n: nat) -> (CpuState, Seq<u8>)
    recommends
        m.len() == 256,
    decreases n,
{
    if n == 0 {
        (s, m)
    } else {
        let prev = run_n(s, m, (n - 1) as nat);
        if prev.0.pc < HALT_SENTINEL {
            step(prev.0, prev.1)
        } else {
            prev
        }
    }
}

/// True when the machine starting from `s` and `m` reaches the halt
/// sentinel after finitely many cycles.
pub open spec fn halts(s: CpuState, m: Seq<u8>) -> bool {
    exists|n: nat| (#[trigger] run_n(s, m, n)).0.pc == HALT_SENTINEL
}

/// True when the machine starting from `s` and `m` halts with exactly the
/// state `s2` and memory `m2`.
pub open spec fn reaches_halt(s: CpuState, m: Seq<u8>, s2: CpuState, m2: Seq<u8>) -> bool {
    s2.pc == HALT_SENTINEL && exists|n: nat| (#[trigger] run_n(s, m, n)) == (s2, m2)
}

} // verus!
