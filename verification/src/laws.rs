//! General properties of the instruction set, stated and proved against
//! the model in [`crate::isa`].

use crate::isa::{
    clear_eq_flag, eq_flag, exec_op, hi_byte, lo_byte, reaches_halt, run_n, set_eq_flag, step,
    word_at, CpuState, BEQ, BNE, CMP, CMX, CMY, DEC, DEX, DEY, HALT_SENTINEL, HLT, INC, INX,
    INY, JSR, RTS,
};
use vstd::arithmetic::div_mod::lemma_fundamental_div_mod;
use vstd::prelude::*;

verus! {

/// Register wraparound: incrementing a register holding 255 yields 0, and
/// decrementing a register holding 0 yields 255, for each of the three
/// general registers.
pub proof fn lemma_register_wraparound(s: CpuState, m: Seq<u8>)
    requires
        m.len() == 256,
    ensures
        s.a == 255 ==> exec_op(s, m, INC).0.a == 0,
        s.x == 255 ==> exec_op(s, m, INX).0.x == 0,
        s.y == 255 ==> exec_op(s, m, INY).0.y == 0,
        s.a == 0 ==> exec_op(s, m, DEC).0.a == 255,
        s.x == 0 ==> exec_op(s, m, DEX).0.x == 255,
        s.y == 0 ==> exec_op(s, m, DEY).0.y == 255,
{
}

/// Compare-flag monotonicity: a compare leaves the status register exactly
/// as it was unless its register equals the operand, in which case it sets
/// the equality flag; it never clears the flag.
pub proof fn lemma_compare_flag_monotonic(s: CpuState, m: Seq<u8>, op: u8)
    requires
        m.len() == 256,
        op == CMP || op == CMX || op == CMY,
    ensures
        exec_op(s, m, op).0.p == (
        {
            let reg = if op == CMP {
                s.a
            } else if op == CMX {
                s.x
            } else {
                s.y
            };
            if reg == m[s.pc as int] {
                set_eq_flag(s.p)
            } else {
                s.p
            }
        }),
        eq_flag(s.p) ==> eq_flag(exec_op(s, m, op).0.p),
        !eq_flag(exec_op(s, m, op).0.p) ==> !eq_flag(s.p),
{
    let pr = s.p;
    assert(((pr | 2) >> 1) & 1 == 1) by (bit_vector);
}

/// Branch tie-break: BEQ branches if and only if the equality flag is set,
/// BNE if and only if it is clear, and both clear the flag afterwards no
/// matter whether they branched.
pub proof fn lemma_branch_tie_break(s: CpuState, m: Seq<u8>)
    requires
        m.len() == 256,
    ensures
        exec_op(s, m, BEQ).0.pc == (if eq_flag(s.p) {
            m[s.pc as int]
        } else {
            s.pc.wrapping_add(1)
        }),
        exec_op(s, m, BNE).0.pc == (if !eq_flag(s.p) {
            m[s.pc as int]
        } else {
            s.pc.wrapping_add(1)
        }),
        !eq_flag(exec_op(s, m, BEQ).0.p),
        !eq_flag(exec_op(s, m, BNE).0.p),
        exec_op(s, m, BEQ).0.p == clear_eq_flag(s.p),
        exec_op(s, m, BNE).0.p == clear_eq_flag(s.p),
{
    let pr = s.p;
    assert((((pr & 0xfd) >> 1) & 1) == 0) by (bit_vector);
}

/// Call/return symmetry: if a subroutine body brings the stack pointer
/// back to its value right after the call and leaves the five frame bytes
/// untouched, then RTS restores X, Y, the program counter and the status
/// register to their values at the moment the call instruction executed.
pub proof fn lemma_call_return_symmetry(s: CpuState, m: Seq<u8>, s2: CpuState, m2: Seq<u8>)
    requires
        m.len() == 256,
        m2.len() == 256,
        s2.sp == exec_op(s, m, JSR).0.sp,
        forall|k: u8|
            k < 5 ==> m2[s.sp.wrapping_add(k) as int] == exec_op(s, m, JSR).1[s.sp.wrapping_add(
                k,
            ) as int],
    ensures
        exec_op(s2, m2, RTS).0.x == s.x,
        exec_op(s2, m2, RTS).0.y == s.y,
        exec_op(s2, m2, RTS).0.pc == s.pc,
        exec_op(s2, m2, RTS).0.p == s.p,
{
    let frame = exec_op(s, m, JSR).1;
    assert(m2[s.sp.wrapping_add(0) as int] == frame[s.sp.wrapping_add(0) as int]);
    assert(m2[s.sp.wrapping_add(1) as int] == frame[s.sp.wrapping_add(1) as int]);
    assert(m2[s.sp.wrapping_add(2) as int] == frame[s.sp.wrapping_add(2) as int]);
    assert(m2[s.sp.wrapping_add(3) as int] == frame[s.sp.wrapping_add(3) as int]);
    assert(m2[s.sp.wrapping_add(4) as int] == frame[s.sp.wrapping_add(4) as int]);
    assert(frame[s.sp.wrapping_add(0) as int] == s.p);
    assert(frame[s.sp.wrapping_add(1) as int] == s.a);
    assert(frame[s.sp.wrapping_add(2) as int] == s.pc);
    assert(frame[s.sp.wrapping_add(3) as int] == s.x);
    assert(frame[s.sp.wrapping_add(4) as int] == s.y);
    assert(s2.sp.wrapping_sub(1) == s.sp.wrapping_add(4));
    assert(s2.sp.wrapping_sub(1).wrapping_sub(1) == s.sp.wrapping_add(3));
    assert(s2.sp.wrapping_sub(1).wrapping_sub(1).wrapping_sub(1) == s.sp.wrapping_add(2));
    assert(s2.sp.wrapping_sub(1).wrapping_sub(1).wrapping_sub(1).wrapping_sub(1)
        == s.sp.wrapping_add(1));
    assert(s2.sp.wrapping_sub(1).wrapping_sub(1).wrapping_sub(1).wrapping_sub(1).wrapping_sub(1)
        == s.sp.wrapping_add(0));
}

/// A big-endian word written at `addr` reads back unchanged, for any
/// address up to 254 and any 16-bit value.
pub proof fn lemma_word_round_trip(m: Seq<u8>, addr: u8, w: u16)
    requires
        m.len() == 256,
        addr < 255,
    ensures
        word_at(
            m.update(addr as int, hi_byte(w)).update(addr as int + 1, lo_byte(w)),
            addr,
        ) == w,
{
    lemma_fundamental_div_mod(w as int, 256);
}

/// Halt termination: on a memory whose byte at the program counter is the
/// halt opcode, the machine halts after exactly one cycle, with no change
/// to registers, flags, stack pointer, memory or output other than the
/// program counter becoming the halt sentinel.
pub proof fn lemma_halt_termination(s: CpuState, m: Seq<u8>)
    requires
        m.len() == 256,
        s.pc < 255,
        m[s.pc as int] == HLT,
    ensures
        run_n(s, m, 0).0.pc != HALT_SENTINEL,
        run_n(s, m, 1).0 == (CpuState { pc: HALT_SENTINEL, ..s }),
        run_n(s, m, 1).1 == m,
        reaches_halt(s, m, CpuState { pc: HALT_SENTINEL, ..s }, m),
{
    assert(run_n(s, m, 0) == (s, m));
    assert(run_n(s, m, 1) == step(s, m));
    assert(run_n(s, m, 1) == (CpuState { pc: HALT_SENTINEL, ..s }, m));
}

/// After the machine has halted, further cycles change nothing.
pub proof fn lemma_run_frozen_after_halt(s: CpuState, m: Seq<u8>, n: nat, k: nat)
    requires
        run_n(s, m, n).0.pc == HALT_SENTINEL,
        n <= k,
    ensures
        run_n(s, m, k) == run_n(s, m, n),
    decreases k,
{
    if n < k {
        lemma_run_frozen_after_halt(s, m, n, (k - 1) as nat);
    }
}

/// The machine is deterministic: a run has at most one halting state.
pub proof fn lemma_halt_state_unique(
    s: CpuState,
    m: Seq<u8>,
    s1: CpuState,
    m1: Seq<u8>,
    s2: CpuState,
    m2: Seq<u8>,
)
    requires
        reaches_halt(s, m, s1, m1),
        reaches_halt(s, m, s2, m2),
    ensures
        s1 == s2,
        m1 == m2,
{
    let n1 = choose|n: nat| (#[trigger] run_n(s, m, n)) == (s1, m1);
    let n2 = choose|n: nat| (#[trigger] run_n(s, m, n)) == (s2, m2);
    if n1 <= n2 {
        lemma_run_frozen_after_halt(s, m, n1, n2);
    } else {
        lemma_run_frozen_after_halt(s, m, n2, n1);
    }
}

} // verus!
