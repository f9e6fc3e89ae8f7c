use tinycpu::cpu::CPU;
use tinycpu::isa::{
    ADA, ADX, ADY, APA, APX, APY, BEQ, BNE, CMP, CMX, CMY, DEC, DEX, DEY, HLT, INC, INX, INY,
    JMP, JSR, LDA, LDX, LDY, OUA, PHA, PHP, PLA, PLP, RTS, STA, STX, STY, TAX, TAY, TSX, TXA,
    TXS, TYA,
};
use tinycpu::mem::Memory;
use tinycpu::ram::RAM;
use tinycpu::simple_cpu::SimpleCpu;

const ORIGIN: u8 = 0x10;

fn run(program: &[u8]) -> (SimpleCpu, RAM) {
    let mut ram = RAM::new();
    ram.load(ORIGIN, program);
    let mut cpu = SimpleCpu::new();
    cpu.launch(&mut ram);
    (cpu, ram)
}

#[test]
fn new_cpu_defaults() {
    let cpu = SimpleCpu::new();
    assert_eq!(cpu.a_reg(), 0);
    assert_eq!(cpu.x_reg(), 0);
    assert_eq!(cpu.y_reg(), 0);
    assert_eq!(cpu.p_reg(), 0);
    assert_eq!(cpu.stack_pointer(), 0);
    assert_eq!(cpu.program_counter(), ORIGIN);
    assert!(cpu.output().is_empty());
}

#[test]
fn increment_wraps_to_zero() {
    let (cpu, _) = run(&[LDA, 255, INC, OUA, HLT]);
    assert_eq!(cpu.output(), &vec![0]);
}

#[test]
fn decrement_wraps_to_255() {
    let (cpu, _) = run(&[LDA, 0, DEC, OUA, HLT]);
    assert_eq!(cpu.output(), &vec![255]);
}

#[test]
fn compare_sets_flag_on_equality() {
    let (cpu, _) = run(&[CMP, 0, HLT]);
    assert_eq!(cpu.p_reg(), 2);
}

#[test]
fn compare_leaves_flag_on_inequality() {
    let (cpu, _) = run(&[CMP, 5, HLT]);
    assert_eq!(cpu.p_reg(), 0);
}

#[test]
fn compare_never_clears_the_flag() {
    let (cpu, _) = run(&[CMP, 0, CMP, 5, HLT]);
    assert_eq!(cpu.p_reg(), 2);
}

#[test]
fn beq_branches_when_flag_set_and_clears_it() {
    // 0x10 CMP 0 sets the flag; 0x12 BEQ 0x15 skips the HLT at 0x14;
    // 0x15 LDA 7; 0x17 OUA; 0x18 HLT.
    let (cpu, _) = run(&[CMP, 0, BEQ, 0x15, HLT, LDA, 7, OUA, HLT]);
    assert_eq!(cpu.output(), &vec![7]);
    assert_eq!(cpu.p_reg(), 0);
}

#[test]
fn beq_falls_through_when_flag_clear() {
    let (cpu, _) = run(&[BEQ, 0x20, OUA, HLT]);
    assert_eq!(cpu.output(), &vec![0]);
}

#[test]
fn bne_branches_when_flag_clear_and_clears_it() {
    // 0x10 BNE 0x13 skips the HLT at 0x12; 0x13 OUA; 0x14 HLT.
    let (cpu, _) = run(&[BNE, 0x13, HLT, OUA, HLT]);
    assert_eq!(cpu.output(), &vec![0]);
    assert_eq!(cpu.p_reg(), 0);
}

#[test]
fn bne_falls_through_when_flag_set() {
    let (cpu, _) = run(&[CMP, 0, BNE, 0x20, OUA, HLT]);
    assert_eq!(cpu.output(), &vec![0]);
    assert_eq!(cpu.p_reg(), 0);
}

#[test]
fn jmp_sets_the_program_counter() {
    // 0x10 JMP 0x14 skips the HLT at 0x12 and the byte after it.
    let (cpu, _) = run(&[JMP, 0x14, HLT, 0, OUA, HLT]);
    assert_eq!(cpu.output(), &vec![0]);
}

#[test]
fn stores_write_registers_to_memory() {
    let (_, ram) = run(&[LDA, 5, STA, 0x30, LDX, 6, STX, 0x31, LDY, 7, STY, 0x32, HLT]);
    assert_eq!(ram.fetch_byte(0x30), 5);
    assert_eq!(ram.fetch_byte(0x31), 6);
    assert_eq!(ram.fetch_byte(0x32), 7);
}

#[test]
fn transfers_copy_between_registers() {
    let (cpu, _) = run(&[LDA, 9, TAX, TAY, HLT]);
    assert_eq!(cpu.a_reg(), 9);
    assert_eq!(cpu.x_reg(), 9);
    assert_eq!(cpu.y_reg(), 9);

    let (cpu, _) = run(&[LDX, 3, TXS, LDX, 1, TSX, HLT]);
    assert_eq!(cpu.stack_pointer(), 3);
    assert_eq!(cpu.x_reg(), 3);

    let (cpu, _) = run(&[LDX, 4, TXA, OUA, LDY, 6, TYA, OUA, HLT]);
    assert_eq!(cpu.output(), &vec![4, 6]);
}

#[test]
fn push_then_pop_restores_the_accumulator() {
    let (cpu, _) = run(&[LDA, 8, PHA, LDA, 2, PLA, OUA, HLT]);
    assert_eq!(cpu.output(), &vec![8]);
    assert_eq!(cpu.stack_pointer(), 0);
}

#[test]
fn push_then_pop_restores_the_status() {
    // 0x10 CMP 0 sets the flag; 0x12 PHP saves it; 0x13 BEQ 0x16 clears
    // it; 0x16 PLP restores it; 0x17 HLT.
    let (cpu, _) = run(&[CMP, 0, PHP, BEQ, 0x16, HLT, PLP, HLT]);
    assert_eq!(cpu.p_reg(), 2);
    assert_eq!(cpu.stack_pointer(), 0);
}

#[test]
fn additions_wrap_modulo_256() {
    let (cpu, _) = run(&[LDA, 200, ADA, 100, OUA, HLT]);
    assert_eq!(cpu.output(), &vec![44]);

    let (cpu, _) = run(&[LDA, 100, APA, OUA, HLT]);
    assert_eq!(cpu.output(), &vec![200]);

    let (cpu, _) = run(&[LDX, 5, LDA, 6, APX, OUA, HLT]);
    assert_eq!(cpu.output(), &vec![11]);
}

#[test]
fn index_registers_compare_like_the_accumulator() {
    let (cpu, _) = run(&[LDX, 4, CMX, 4, HLT]);
    assert_eq!(cpu.p_reg(), 2);

    let (cpu, _) = run(&[LDY, 9, CMY, 8, HLT]);
    assert_eq!(cpu.p_reg(), 0);
}

#[test]
fn index_registers_add_and_wrap() {
    let (cpu, _) = run(&[LDX, 250, ADX, 10, TXA, OUA, LDY, 1, ADY, 7, TYA, OUA, HLT]);
    assert_eq!(cpu.output(), &vec![4, 8]);
}

#[test]
fn index_registers_increment_and_wrap() {
    let (cpu, _) = run(&[LDX, 255, INX, TXA, OUA, LDY, 0, DEY, INY, INY, TYA, OUA, HLT]);
    assert_eq!(cpu.output(), &vec![0, 1]);
}

#[test]
fn jsr_rts_preserves_x_y_and_continues_after_the_call() {
    // Main image at 0x10: load X and Y, then call 0x20. The subroutine
    // at 0x20 clobbers X and Y and returns. RTS resumes at the operand
    // byte of the JSR, whose value 0x20 is then fetched as an opcode and
    // is exactly HLT, so the run stops there.
    let mut ram = RAM::new();
    ram.load(ORIGIN, &[LDX, 7, LDY, 9, JSR, 0x20]);
    ram.load(0x20, &[DEX, DEY, RTS]);
    let mut cpu = SimpleCpu::new();
    cpu.launch(&mut ram);
    assert_eq!(cpu.x_reg(), 7);
    assert_eq!(cpu.y_reg(), 9);
    assert_eq!(cpu.stack_pointer(), 0);
    assert_eq!(cpu.program_counter(), 255);
}

#[test]
fn halt_alone_stops_after_one_cycle_without_side_effects() {
    let (cpu, ram) = run(&[HLT]);
    assert_eq!(cpu.program_counter(), 255);
    assert_eq!(cpu.a_reg(), 0);
    assert_eq!(cpu.x_reg(), 0);
    assert_eq!(cpu.y_reg(), 0);
    assert_eq!(cpu.p_reg(), 0);
    assert_eq!(cpu.stack_pointer(), 0);
    assert!(cpu.output().is_empty());
    assert_eq!(ram.fetch_byte(0x10), HLT);
    assert_eq!(ram.fetch_byte(0), 0);
    assert_eq!(ram.fetch_byte(0x0f), 0);
    assert_eq!(ram.fetch_byte(0x11), 0);
}

#[test]
fn unrecognized_opcodes_are_no_ops() {
    let (cpu, _) = run(&[0, 0x7f, OUA, HLT]);
    assert_eq!(cpu.output(), &vec![0]);
    assert_eq!(cpu.a_reg(), 0);
    assert_eq!(cpu.x_reg(), 0);
}

#[test]
fn fibonacci_program_emits_233_exactly_once() {
    let mut ram = RAM::new();
    ram.load(
        ORIGIN,
        &[
            LDX, 1,
            LDY, 1,
            TYA,
            PHA,
            TXA,
            PHA,
            PLA,
            TAY,
            PLA,
            TAX,
            LDA, 0,
            APY,
            APX,
            OUA,
            CMP, 233,
            BNE, ORIGIN + 22,
            HLT,
            PHA,
            TXA,
            PHA,
            JMP, ORIGIN + 8,
        ],
    );
    let mut cpu = SimpleCpu::new();
    cpu.launch(&mut ram);
    assert_eq!(
        cpu.output(),
        &vec![2, 3, 5, 8, 13, 21, 34, 55, 89, 144, 233]
    );
    assert_eq!(cpu.output().iter().filter(|v| **v == 233).count(), 1);
    assert_eq!(cpu.output().last(), Some(&233));
    assert_eq!(cpu.program_counter(), 255);
}
