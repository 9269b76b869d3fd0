use mos6502::cpu::CPU;
use mos6502::op::{lookup, AddressingMode, Instruction, OP};

fn boot(program: &[u8]) -> CPU {
    let mut cpu = CPU::new();
    cpu.load(0x8000, program).unwrap();
    cpu.reset(0x8000);
    cpu
}

#[test]
fn update_zero_and_negative_touches_only_those_two_flags() {
    for v in 0..=255u8 {
        let mut cpu = CPU::new();
        cpu.status.carry = true;
        cpu.status.overflow = true;
        cpu.status.interrupt_disable = true;
        cpu.status.decimal = true;
        cpu.update_zero_and_negative(v);
        assert_eq!(cpu.status.zero, v == 0);
        assert_eq!(cpu.status.negative, v & 0x80 != 0);
        assert!(cpu.status.carry);
        assert!(cpu.status.overflow);
        assert!(cpu.status.interrupt_disable);
        assert!(cpu.status.decimal);
        assert!(!cpu.status.brk);
        assert!(!cpu.status.unused);
    }
}

#[test]
fn zero_page_indexing_never_leaves_the_zero_page() {
    for base in (0..=255u8).step_by(17) {
        for index in (0..=255u8).step_by(13) {
            let mut cpu = CPU::new();
            cpu.pc = 0x8000;
            cpu.memory[0x8000] = base;
            cpu.x = index;
            cpu.y = index.wrapping_add(1);
            let (ax, _) = cpu.get_address(&AddressingMode::ZeroPageX);
            assert!(ax < 256);
            assert_eq!(ax, base.wrapping_add(index) as u16);
            let (ay, _) = cpu.get_address(&AddressingMode::ZeroPageY);
            assert!(ay < 256);
            assert_eq!(ay, base.wrapping_add(index.wrapping_add(1)) as u16);
        }
    }
}

#[test]
fn absolute_indexed_page_cross_flag_matches_the_low_byte_sum() {
    for &(base, index) in
        &[(0x12F0u16, 0x20u8), (0x12F0, 0x0F), (0x1200, 0x00), (0x12FF, 0x01), (0xFFFF, 0xFF)]
    {
        let mut cpu = CPU::new();
        cpu.pc = 0x8000;
        cpu.memory[0x8000] = (base % 256) as u8;
        cpu.memory[0x8001] = (base / 256) as u8;
        cpu.x = index;
        let (addr, crossed) = cpu.get_address(&AddressingMode::AbsoluteX);
        assert_eq!(addr, base.wrapping_add(index as u16));
        assert_eq!(crossed, base % 256 + index as u16 >= 256);
    }
}

#[test]
fn adc_then_sbc_round_trips_when_the_addition_carries() {
    // 200 + 100 carries out, so subtracting 100 again restores 200.
    let mut cpu = boot(&[0x69, 100, 0xE9, 100]);
    cpu.a = 200;
    cpu.step().unwrap();
    assert_eq!(cpu.a, 44);
    assert!(cpu.status.carry);
    cpu.step().unwrap();
    assert_eq!(cpu.a, 200);
}

#[test]
fn adc_then_sbc_lands_one_short_when_the_addition_does_not_carry() {
    // 5 + 3 leaves Carry clear, so the following SBC borrows: hardware
    // subtraction needs Carry set to be exact.
    let mut cpu = boot(&[0x69, 3, 0xE9, 3]);
    cpu.a = 5;
    cpu.step().unwrap();
    assert_eq!(cpu.a, 8);
    assert!(!cpu.status.carry);
    cpu.step().unwrap();
    assert_eq!(cpu.a, 4);
}

#[test]
fn adc_signed_overflow() {
    // 0x50 + 0x50 = 0xA0: two positives giving a negative sets Overflow.
    let mut cpu = boot(&[0x69, 0x50]);
    cpu.a = 0x50;
    cpu.step().unwrap();
    assert_eq!(cpu.a, 0xA0);
    assert!(cpu.status.overflow);
    assert!(cpu.status.negative);
    assert!(!cpu.status.carry);
}

#[test]
fn cmp_sets_carry_zero_negative() {
    let mut cpu = boot(&[0xC9, 0x30]);
    cpu.a = 0x30;
    cpu.step().unwrap();
    assert!(cpu.status.carry);
    assert!(cpu.status.zero);
    assert!(!cpu.status.negative);

    let mut cpu2 = boot(&[0xC9, 0x40]);
    cpu2.a = 0x30;
    cpu2.step().unwrap();
    assert!(!cpu2.status.carry);
    assert!(!cpu2.status.zero);
    assert!(cpu2.status.negative);
}

#[test]
fn shifts_move_bits_through_carry() {
    // ASL A on 0x81: carry out, result 0x02.
    let mut cpu = boot(&[0x0A]);
    cpu.a = 0x81;
    cpu.step().unwrap();
    assert_eq!(cpu.a, 0x02);
    assert!(cpu.status.carry);

    // ROR A with carry set feeds it into bit 7.
    let mut cpu2 = boot(&[0x6A]);
    cpu2.a = 0x02;
    cpu2.status.carry = true;
    cpu2.step().unwrap();
    assert_eq!(cpu2.a, 0x81);
    assert!(!cpu2.status.carry);

    // LSR on memory: zero page cell halves in place.
    let mut cpu3 = boot(&[0x46, 0x10]);
    cpu3.mem_write(0x0010, 0x05);
    cpu3.step().unwrap();
    assert_eq!(cpu3.mem_read(0x0010), 0x02);
    assert!(cpu3.status.carry);
}

#[test]
fn inc_wraps_and_leaves_carry_alone() {
    let mut cpu = boot(&[0xE6, 0x10]);
    cpu.mem_write(0x0010, 0xFF);
    cpu.status.carry = true;
    cpu.step().unwrap();
    assert_eq!(cpu.mem_read(0x0010), 0);
    assert!(cpu.status.zero);
    assert!(cpu.status.carry);
}

#[test]
fn dex_wraps_below_zero() {
    let mut cpu = boot(&[0xCA]);
    cpu.x = 0;
    cpu.step().unwrap();
    assert_eq!(cpu.x, 0xFF);
    assert!(cpu.status.negative);
}

#[test]
fn bit_reads_the_operand_bits() {
    let mut cpu = boot(&[0x24, 0x10]);
    cpu.mem_write(0x0010, 0xC0);
    cpu.a = 0x3F;
    cpu.step().unwrap();
    assert!(cpu.status.zero);
    assert!(cpu.status.overflow);
    assert!(cpu.status.negative);
}

#[test]
fn stack_push_and_pull_round_trip() {
    let mut cpu = boot(&[0x48, 0xA9, 0x00, 0x68]);
    cpu.a = 0x5A;
    let sp0 = cpu.sp;
    cpu.step().unwrap();
    assert_eq!(cpu.sp, sp0.wrapping_sub(1));
    cpu.step().unwrap();
    assert_eq!(cpu.a, 0);
    cpu.step().unwrap();
    assert_eq!(cpu.a, 0x5A);
    assert_eq!(cpu.sp, sp0);
    assert!(!cpu.status.zero);
}

#[test]
fn php_plp_keeps_the_stored_flags_and_fixes_the_break_bits() {
    let mut cpu = boot(&[0x08, 0x18, 0xB8, 0x28]);
    cpu.status.carry = true;
    cpu.status.overflow = true;
    cpu.status.negative = true;
    cpu.step().unwrap(); // PHP
    cpu.step().unwrap(); // CLC
    cpu.step().unwrap(); // CLV
    assert!(!cpu.status.carry);
    assert!(!cpu.status.overflow);
    cpu.step().unwrap(); // PLP
    assert!(cpu.status.carry);
    assert!(cpu.status.overflow);
    assert!(cpu.status.negative);
    assert!(!cpu.status.brk);
    assert!(cpu.status.unused);
}

#[test]
fn transfers_copy_and_set_flags() {
    let mut cpu = boot(&[0xAA, 0x98]);
    cpu.a = 0x80;
    cpu.y = 0x00;
    cpu.step().unwrap(); // TAX
    assert_eq!(cpu.x, 0x80);
    assert!(cpu.status.negative);
    cpu.step().unwrap(); // TYA
    assert_eq!(cpu.a, 0x00);
    assert!(cpu.status.zero);
}

#[test]
fn indirect_x_wraps_in_the_zero_page() {
    // LDA ($FE,X) with X=3: pointer at $01/$02.
    let mut cpu = boot(&[0xA1, 0xFE]);
    cpu.x = 3;
    cpu.mem_write(0x0001, 0x34);
    cpu.mem_write(0x0002, 0x12);
    cpu.mem_write(0x1234, 0x77);
    cpu.step().unwrap();
    assert_eq!(cpu.a, 0x77);
}

#[test]
fn the_table_decodes_the_documented_opcodes() {
    let lda_iy = lookup(0xB1).unwrap();
    assert_eq!(lda_iy.instruction, Instruction::LDA);
    assert_eq!(lda_iy.mode, AddressingMode::IndirectY);
    assert_eq!(lda_iy.len, 2);
    assert_eq!(lda_iy.cycles, 5);

    let ldx_ay = lookup(0xBE).unwrap();
    assert_eq!(ldx_ay.instruction, Instruction::LDX);
    assert_eq!(ldx_ay.mode, AddressingMode::AbsoluteY);

    assert!(lookup(0x02).is_none());
    assert!(lookup(0xFF).is_none());

    let mut documented: u32 = 0;
    for code in 0..=255u16 {
        if let Some(op) = lookup(code as u8) {
            assert_eq!(op.code, code as u8);
            documented += 1;
        }
    }
    assert_eq!(documented, 151);
}

#[test]
fn op_new_builds_the_entry() {
    let op = OP::new(Instruction::NOP, AddressingMode::NoneAddressing, 0xEA, 1, 2);
    assert_eq!(op.code, 0xEA);
    assert_eq!(op.instruction, Instruction::NOP);
    assert_eq!(op.mode, AddressingMode::NoneAddressing);
    assert_eq!(op.len, 1);
    assert_eq!(op.cycles, 2);
}

#[test]
fn reset_restores_the_architectural_state() {
    let mut cpu = CPU::new();
    cpu.a = 9;
    cpu.x = 9;
    cpu.y = 9;
    cpu.status.carry = true;
    cpu.mem_write(0x4000, 0xAB);
    cpu.reset(0xC000);
    assert_eq!(cpu.a, 0);
    assert_eq!(cpu.x, 0);
    assert_eq!(cpu.y, 0);
    assert_eq!(cpu.sp, 0xFD);
    assert_eq!(cpu.pc, 0xC000);
    assert_eq!(cpu.cycles, 0);
    assert!(!cpu.halted);
    assert!(!cpu.status.carry);
    assert!(cpu.status.interrupt_disable);
    assert!(cpu.status.unused);
    assert_eq!(cpu.mem_read(0x4000), 0xAB);
}

#[test]
fn mem_read_write_u16_are_little_endian() {
    let mut cpu = CPU::new();
    cpu.mem_write_u16(0x0200, 0x1234);
    assert_eq!(cpu.mem_read(0x0200), 0x34);
    assert_eq!(cpu.mem_read(0x0201), 0x12);
    assert_eq!(cpu.mem_read_u16(0x0200), 0x1234);
    // The high byte of a word at the top of memory wraps to address zero.
    cpu.mem_write_u16(0xFFFF, 0xBEEF);
    assert_eq!(cpu.mem_read(0xFFFF), 0xEF);
    assert_eq!(cpu.mem_read(0x0000), 0xBE);
    assert_eq!(cpu.mem_read_u16(0xFFFF), 0xBEEF);
}
