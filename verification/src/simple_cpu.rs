//! The processor: one byte per instruction, one byte per register.

use crate::cpu::CPU;
use crate::isa::{
    run_n, CpuState, ADA, ADX, ADY, APA, APX, APY, BEQ, BNE, CMP, CMX, CMY, DEC, DEX, DEY,
    HALT_SENTINEL, HLT, INC, INX, INY, JMP, JSR, LDA, LDX, LDY, OUA, PHA, PHP, PLA, PLP, RTS,
    STA, STX, STY, TAX, TAY, TSX, TXA, TXS, TYA,
};
use crate::mem::Memory;
use vstd::prelude::*;

verus! {

/// The address at which the processor starts fetching instructions.
pub const DEFAULT_ORIGIN: u8 = 0x10;

/// A processor over the instruction set of [`crate::isa`]: an accumulator,
/// two index registers, a status register, a stack pointer and a program
/// counter, each one byte wide. Emitted observations are collected in
/// order and can be read back through [`SimpleCpu::output`].
pub struct SimpleCpu {
    a_reg: u8,
    x_reg: u8,
    y_reg: u8,
    // Negative, Overflow, -, Break, Decimal, Interrupt, Zero, Carry
    p_reg: u8,
    stack_pointer: u8,
    program_counter: u8,
    out: Vec<u8>,
}

impl SimpleCpu {
    /// A fresh processor: every register and the stack pointer zero, the
    /// program counter at the default origin, nothing emitted yet.
    pub fn new() -> (r: Self)
        ensures
            r.state() == (CpuState {
                a: 0,
                x: 0,
                y: 0,
                p: 0,
                sp: 0,
                pc: DEFAULT_ORIGIN,
                out: Seq::empty(),
            }),
    {
        SimpleCpu {
            a_reg: 0x0,
            x_reg: 0x0,
            y_reg: 0x0,
            p_reg: 0x0,
            stack_pointer: 0x0,
            program_counter: DEFAULT_ORIGIN,
            out: Vec::new(),
        }
    }

    /// Advance the program counter past the byte it points at, wrapping
    /// modulo 256, and hand back the address of that byte.
    fn inc_pc(&mut self) -> (r: u8)
        ensures
            final(self).state() == (CpuState {
                pc: old(self).state().pc.wrapping_add(1),
                ..old(self).state()
            }),
            r == old(self).state().pc,
    {
        let r = self.program_counter;
        self.program_counter = r.wrapping_add(1);
        r
    }

    /// Advance the stack pointer past the slot it points at, wrapping
    /// modulo 256, and hand back the address of that slot.
    fn inc_sp(&mut self) -> (r: u8)
        ensures
            final(self).state() == (CpuState {
                sp: old(self).state().sp.wrapping_add(1),
                ..old(self).state()
            }),
            r == old(self).state().sp,
    {
        let r = self.stack_pointer;
        self.stack_pointer = r.wrapping_add(1);
        r
    }

    /// Move the stack pointer back one slot, wrapping modulo 256, and hand
    /// back the address it now points at.
    fn dec_sp(&mut self) -> (r: u8)
        ensures
            final(self).state() == (CpuState {
                sp: old(self).state().sp.wrapping_sub(1),
                ..old(self).state()
            }),
            r == old(self).state().sp.wrapping_sub(1),
    {
        self.stack_pointer = self.stack_pointer.wrapping_sub(1);
        self.stack_pointer
    }

    /// Write `value` at the stack pointer, then advance the pointer: the
    /// push primitive every stacking instruction is built from.
    fn push_byte<M: Memory>(&mut self, memory: &mut M, value: u8)
        requires
            old(memory).contents().len() == 256,
        ensures
            final(self).state() == (CpuState {
                sp: old(self).state().sp.wrapping_add(1),
                ..old(self).state()
            }),
            final(memory).contents() == old(memory).contents().update(
                old(self).state().sp as int,
                value,
            ),
    {
        let addr = self.inc_sp();
        memory.write_byte(addr, value);
    }

    /// Move the stack pointer back one slot and read the byte there: the
    /// pop primitive every unstacking instruction is built from.
    fn pop_byte<M: Memory>(&mut self, memory: &M) -> (r: u8)
        requires
            memory.contents().len() == 256,
        ensures
            final(self).state() == (CpuState {
                sp: old(self).state().sp.wrapping_sub(1),
                ..old(self).state()
            }),
            r == memory.contents()[old(self).state().sp.wrapping_sub(1) as int],
    {
        let addr = self.dec_sp();
        memory.fetch_byte(addr)
    }

    /// The accumulator.
    pub fn a_reg(&self) -> (r: u8)
        ensures
            r == self.state().a,
    {
        self.a_reg
    }

    /// Index register X.
    pub fn x_reg(&self) -> (r: u8)
        ensures
            r == self.state().x,
    {
        self.x_reg
    }

    /// Index register Y.
    pub fn y_reg(&self) -> (r: u8)
        ensures
            r == self.state().y,
    {
        self.y_reg
    }

    /// The status register.
    pub fn p_reg(&self) -> (r: u8)
        ensures
            r == self.state().p,
    {
        self.p_reg
    }

    /// The stack pointer.
    pub fn stack_pointer(&self) -> (r: u8)
        ensures
            r == self.state().sp,
    {
        self.stack_pointer
    }

    /// The program counter.
    pub fn program_counter(&self) -> (r: u8)
        ensures
            r == self.state().pc,
    {
        self.program_counter
    }

    /// Every value emitted so far, oldest first.
    pub fn output(&self) -> (r: &Vec<u8>)
        ensures
            r@ == self.state().out,
    {
        &self.out
    }
}

impl CPU for SimpleCpu {
    closed spec fn state(&self) -> CpuState {
        CpuState {
            a: self.a_reg,
            x: self.x_reg,
            y: self.y_reg,
            p: self.p_reg,
            sp: self.stack_pointer,
            pc: self.program_counter,
            out: self.out@,
        }
    }

    fn execute<M: Memory>(&mut self, opcode: u8, memory: &mut M) {
        if opcode == LDA {
            let p = self.inc_pc();
            self.a_reg = memory.fetch_byte(p);
        } else if opcode == LDX {
            let p = self.inc_pc();
            self.x_reg = memory.fetch_byte(p);
        } else if opcode == LDY {
            let p = self.inc_pc();
            self.y_reg = memory.fetch_byte(p);
        } else if opcode == STA {
            let p = self.inc_pc();
            let addr = memory.fetch_byte(p);
            memory.write_byte(addr, self.a_reg);
        } else if opcode == STX {
            let p = self.inc_pc();
            let addr = memory.fetch_byte(p);
            memory.write_byte(addr, self.x_reg);
        } else if opcode == STY {
            let p = self.inc_pc();
            let addr = memory.fetch_byte(p);
            memory.write_byte(addr, self.y_reg);
        } else if opcode == TXA {
            self.a_reg = self.x_reg;
        } else if opcode == TYA {
            self.a_reg = self.y_reg;
        } else if opcode == TAX {
            self.x_reg = self.a_reg;
        } else if opcode == TAY {
            self.y_reg = self.a_reg;
        } else if opcode == TSX {
            self.x_reg = self.stack_pointer;
        } else if opcode == TXS {
            self.stack_pointer = self.x_reg;
        } else if opcode == PHA {
            let v = self.a_reg;
            self.push_byte(memory, v);
        } else if opcode == PHP {
            let v = self.p_reg;
            self.push_byte(memory, v);
        } else if opcode == PLA {
            self.a_reg = self.pop_byte(memory);
        } else if opcode == PLP {
            self.p_reg = self.pop_byte(memory);
        } else if opcode == DEC {
            self.a_reg = self.a_reg.wrapping_sub(1);
        } else if opcode == DEX {
            self.x_reg = self.x_reg.wrapping_sub(1);
        } else if opcode == DEY {
            self.y_reg = self.y_reg.wrapping_sub(1);
        } else if opcode == INC {
            self.a_reg = self.a_reg.wrapping_add(1);
        } else if opcode == INX {
            self.x_reg = self.x_reg.wrapping_add(1);
        } else if opcode == INY {
            self.y_reg = self.y_reg.wrapping_add(1);
        } else if opcode == CMP {
            let p = self.inc_pc();
            if self.a_reg == memory.fetch_byte(p) {
                self.p_reg = self.p_reg | 2;
            }
        } else if opcode == CMX {
            let p = self.inc_pc();
            if self.x_reg == memory.fetch_byte(p) {
                self.p_reg = self.p_reg | 2;
            }
        } else if opcode == CMY {
            let p = self.inc_pc();
            if self.y_reg == memory.fetch_byte(p) {
                self.p_reg = self.p_reg | 2;
            }
        } else if opcode == BEQ {
            let p = self.inc_pc();
            if (self.p_reg >> 1) & 1 == 1 {
                self.program_counter = memory.fetch_byte(p);
            }
            self.p_reg = self.p_reg & 0xfd;
        } else if opcode == BNE {
            let p = self.inc_pc();
            proof {
                let pr = self.p_reg;
                assert((pr >> 1) & 1 == 0 || (pr >> 1) & 1 == 1) by (bit_vector);
            }
            if (self.p_reg >> 1) & 1 == 0 {
                self.program_counter = memory.fetch_byte(p);
            }
            self.p_reg = self.p_reg & 0xfd;
        } else if opcode == JMP {
            let p = self.inc_pc();
            self.program_counter = memory.fetch_byte(p);
        } else if opcode == JSR {
            let v = self.p_reg;
            self.push_byte(memory, v);
            let v = self.a_reg;
            self.push_byte(memory, v);
            self.a_reg = self.program_counter;
            let v = self.a_reg;
            self.push_byte(memory, v);
            self.a_reg = self.x_reg;
            let v = self.a_reg;
            self.push_byte(memory, v);
            self.a_reg = self.y_reg;
            let v = self.a_reg;
            self.push_byte(memory, v);
            let p = self.inc_pc();
            self.program_counter = memory.fetch_byte(p);
        } else if opcode == RTS {
            self.a_reg = self.pop_byte(memory);
            self.y_reg = self.a_reg;
            self.a_reg = self.pop_byte(memory);
            self.x_reg = self.a_reg;
            self.a_reg = self.pop_byte(memory);
            self.program_counter = self.a_reg;
            self.a_reg = self.pop_byte(memory);
            self.p_reg = self.pop_byte(memory);
        } else if opcode == OUA {
            let v = self.a_reg;
            self.out.push(v);
        } else if opcode == HLT {
            self.program_counter = HALT_SENTINEL;
        } else if opcode == APY {
            self.a_reg = self.a_reg.wrapping_add(self.y_reg);
        } else if opcode == APX {
            self.a_reg = self.a_reg.wrapping_add(self.x_reg);
        } else if opcode == APA {
            self.a_reg = self.a_reg.wrapping_add(self.a_reg);
        } else if opcode == ADA {
            let p = self.inc_pc();
            let v = memory.fetch_byte(p);
            self.a_reg = self.a_reg.wrapping_add(v);
        } else if opcode == ADX {
            let p = self.inc_pc();
            let v = memory.fetch_byte(p);
            self.x_reg = self.x_reg.wrapping_add(v);
        } else if opcode == ADY {
            let p = self.inc_pc();
            let v = memory.fetch_byte(p);
            self.y_reg = self.y_reg.wrapping_add(v);
        }
    }

    fn launch<M: Memory>(&mut self, memory: &mut M) {
        let ghost s0 = self.state();
        let ghost m0 = memory.contents();
        let ghost n0: nat = choose|n: nat|
            (#[trigger] run_n(s0, m0, n)).0.pc == HALT_SENTINEL;
        let ghost mut i: nat = 0;
        while self.program_counter < 255
            invariant
                memory.contents().len() == 256,
                run_n(s0, m0, i) == (self.state(), memory.contents()),
                run_n(s0, m0, n0).0.pc == HALT_SENTINEL,
                i <= n0,
            decreases n0 - i,
        {
            let sp = self.inc_pc();
            let op = memory.fetch_byte(sp);
            self.execute(op, memory);
            proof {
                i = i + 1;
            }
        }
    }
}

} // verus!
