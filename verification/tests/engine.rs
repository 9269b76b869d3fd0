use mos6502::cpu::{CpuError, CPU};

fn boot(program: &[u8]) -> CPU {
    let mut cpu = CPU::new();
    cpu.load(0x8000, program).unwrap();
    cpu.reset(0x8000);
    cpu
}

#[test]
fn lda_immediate_loads_and_counts_cycles() {
    let mut cpu = boot(&[0xA9, 0x05]);
    let cycles = cpu.step().unwrap();
    assert_eq!(cpu.a, 5);
    assert!(!cpu.status.zero);
    assert!(!cpu.status.negative);
    assert_eq!(cpu.pc, 0x8002);
    assert_eq!(cycles, 2);
    assert_eq!(cpu.cycles, 2);
}

#[test]
fn lda_zero_sets_zero_flag() {
    let mut cpu = boot(&[0xA9, 0x00]);
    cpu.step().unwrap();
    assert_eq!(cpu.a, 0);
    assert!(cpu.status.zero);
}

#[test]
fn adc_overflowing_to_zero_sets_carry_and_zero() {
    let mut cpu = boot(&[0x69, 0x01]);
    cpu.a = 0xFF;
    assert!(!cpu.status.carry);
    cpu.step().unwrap();
    assert_eq!(cpu.a, 0);
    assert!(cpu.status.carry);
    assert!(cpu.status.zero);
    assert!(!cpu.status.overflow);
}

#[test]
fn jmp_absolute_redirects_without_touching_flags() {
    let mut cpu = boot(&[0x4C, 0x00, 0x90]);
    let before = cpu.status;
    let cycles = cpu.step().unwrap();
    assert_eq!(cpu.pc, 0x9000);
    assert_eq!(cycles, 3);
    assert_eq!(cpu.status, before);
}

#[test]
fn jmp_indirect_wraps_the_pointer_within_its_page() {
    let mut cpu = boot(&[0x6C, 0xFF, 0x30]);
    cpu.mem_write(0x30FF, 0x40);
    cpu.mem_write(0x3000, 0x50);
    cpu.mem_write(0x3100, 0x99);
    let cycles = cpu.step().unwrap();
    assert_eq!(cpu.pc, 0x5040);
    assert_eq!(cycles, 5);
}

#[test]
fn jsr_then_rts_returns_past_the_call() {
    // JSR $8005; then two NOPs; the subroutine at $8005 is a single RTS.
    let mut cpu = boot(&[0x20, 0x05, 0x80, 0xEA, 0xEA, 0x60]);
    let sp_before = cpu.sp;
    let cycles_jsr = cpu.step().unwrap();
    assert_eq!(cpu.pc, 0x8005);
    assert_eq!(cpu.sp, sp_before.wrapping_sub(2));
    assert_eq!(cycles_jsr, 6);
    let cycles_rts = cpu.step().unwrap();
    assert_eq!(cpu.pc, 0x8003);
    assert_eq!(cpu.sp, sp_before);
    assert_eq!(cycles_rts, 6);
}

#[test]
fn illegal_opcode_is_fatal_and_leaves_the_machine_still() {
    let mut cpu = boot(&[0x02]);
    let r = cpu.step();
    assert_eq!(r, Err(CpuError::IllegalOpcode(0x02)));
    assert_eq!(cpu.pc, 0x8000);
    assert_eq!(cpu.cycles, 0);
}

#[test]
fn load_past_the_end_is_rejected_whole() {
    let mut cpu = CPU::new();
    let r = cpu.load(0xFFF0, &[1u8; 32]);
    assert_eq!(r, Err(CpuError::LoadOutOfRange));
    assert_eq!(cpu.mem_read(0xFFF0), 0);
    assert_eq!(cpu.mem_read(0xFFFF), 0);
}

#[test]
fn load_writes_exactly_the_given_bytes() {
    let mut cpu = CPU::new();
    cpu.load(0x1234, &[7, 8, 9]).unwrap();
    assert_eq!(cpu.mem_read(0x1233), 0);
    assert_eq!(cpu.mem_read(0x1234), 7);
    assert_eq!(cpu.mem_read(0x1235), 8);
    assert_eq!(cpu.mem_read(0x1236), 9);
    assert_eq!(cpu.mem_read(0x1237), 0);
}

#[test]
fn brk_halts_and_interpret_reports_the_steps() {
    let mut cpu = CPU::new();
    let n = cpu.interpret(&[0xA9, 0x05, 0x00], 100).unwrap();
    assert_eq!(n, 2);
    assert!(cpu.halted);
    assert_eq!(cpu.a, 5);
}

#[test]
fn run_until_halt_respects_the_budget() {
    let mut cpu = boot(&[0xEA, 0xEA, 0xEA, 0xEA]);
    let n = cpu.run_until_halt(3).unwrap();
    assert_eq!(n, 3);
    assert!(!cpu.halted);
    assert_eq!(cpu.pc, 0x8003);
}

#[test]
fn interpret_rejects_an_oversized_program() {
    let mut cpu = CPU::new();
    let image = vec![0xEAu8; 0x8001];
    let r = cpu.interpret(&image, 10);
    assert_eq!(r, Err(CpuError::LoadOutOfRange));
}

#[test]
fn absolute_x_page_cross_costs_an_extra_cycle() {
    let mut cpu = boot(&[0xBD, 0xF0, 0x12]);
    cpu.x = 0x20;
    cpu.mem_write(0x1310, 7);
    let cycles = cpu.step().unwrap();
    assert_eq!(cpu.a, 7);
    assert_eq!(cycles, 5);

    let mut cpu2 = boot(&[0xBD, 0xF0, 0x12]);
    cpu2.x = 0x01;
    cpu2.mem_write(0x12F1, 9);
    let cycles2 = cpu2.step().unwrap();
    assert_eq!(cpu2.a, 9);
    assert_eq!(cycles2, 4);
}

#[test]
fn branch_cycle_costs() {
    // BEQ not taken: base cost only.
    let mut cpu = boot(&[0xF0, 0x02]);
    cpu.status.zero = false;
    assert_eq!(cpu.step().unwrap(), 2);
    assert_eq!(cpu.pc, 0x8002);

    // BEQ taken within the page: one extra cycle.
    let mut cpu2 = boot(&[0xF0, 0x02]);
    cpu2.status.zero = true;
    assert_eq!(cpu2.step().unwrap(), 3);
    assert_eq!(cpu2.pc, 0x8004);

    // BEQ taken across a page: two extra cycles.
    let mut cpu3 = CPU::new();
    cpu3.load(0x80F0, &[0xF0, 0x20]).unwrap();
    cpu3.reset(0x80F0);
    cpu3.status.zero = true;
    assert_eq!(cpu3.step().unwrap(), 4);
    assert_eq!(cpu3.pc, 0x8112);
}

#[test]
fn backward_branch_takes_a_negative_displacement() {
    // BNE -2 keeps looping onto itself while Zero is clear.
    let mut cpu = boot(&[0xEA, 0xD0, 0xFE]);
    cpu.step().unwrap();
    assert_eq!(cpu.pc, 0x8001);
    cpu.status.zero = false;
    cpu.step().unwrap();
    assert_eq!(cpu.pc, 0x8001);
}

#[test]
fn sta_stores_through_indirect_y() {
    // STA ($10),Y with the pointer at $0010 -> $2000 and Y = 5.
    let mut cpu = boot(&[0x91, 0x10]);
    cpu.mem_write(0x0010, 0x00);
    cpu.mem_write(0x0011, 0x20);
    cpu.y = 5;
    cpu.a = 0xAB;
    let cycles = cpu.step().unwrap();
    assert_eq!(cpu.mem_read(0x2005), 0xAB);
    assert_eq!(cycles, 6);
}
