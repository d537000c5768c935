use cpu_core::cpu::CPU;
use cpu_core::flags::{CARRY, NEGATIVE, OVERFLOW, ZERO};
use cpu_core::instruction::{decode, Instruction};

#[test]
fn new_is_all_zero() {
    let cpu = CPU::new();
    assert_eq!(cpu.accumulator, 0);
    assert_eq!(cpu.register_x, 0);
    assert_eq!(cpu.register_y, 0);
    assert_eq!(cpu.stack_pointer, 0);
    assert_eq!(cpu.program_counter, 0);
    assert_eq!(cpu.status_flags, 0);
}

#[test]
fn lda_sets_zero_negative_and_keeps_carry_overflow() {
    for v in 0..=255u8 {
        let mut cpu = CPU::new();
        cpu.status_flags = CARRY | OVERFLOW;
        cpu.lda(v);
        assert_eq!(cpu.accumulator, v);
        assert_eq!(cpu.status_flags & ZERO != 0, v == 0);
        assert_eq!(cpu.status_flags & NEGATIVE != 0, v & 0x80 != 0);
        assert_eq!(cpu.status_flags & (CARRY | OVERFLOW), CARRY | OVERFLOW);
    }
}

#[test]
fn lda_then_tax_copies_value_and_flags() {
    for v in [0x00u8, 0x01, 0x7F, 0x80, 0xFF] {
        let mut cpu = CPU::new();
        cpu.lda(v);
        let after_lda = cpu.status_flags;
        cpu.tax();
        assert_eq!(cpu.register_x, v);
        assert_eq!(cpu.status_flags, after_lda);
    }
}

#[test]
fn and_twice_equals_once() {
    let mut once = CPU::new();
    once.lda(0x05);
    once.and(0x03);
    let mut twice = CPU::new();
    twice.lda(0x05);
    twice.and(0x03);
    twice.and(0x03);
    assert_eq!(once.accumulator, 0x01);
    assert_eq!(twice.accumulator, once.accumulator);
    assert_eq!(twice.status_flags, once.status_flags);
    assert_eq!(once.status_flags, 0);
}

#[test]
fn and_to_zero_sets_zero() {
    let mut cpu = CPU::new();
    cpu.lda(0xF0);
    cpu.and(0x0F);
    assert_eq!(cpu.accumulator, 0);
    assert_eq!(cpu.status_flags, ZERO);
}

#[test]
fn asl_shifts_and_sets_flags() {
    let mut cpu = CPU::new();
    assert_eq!(cpu.asl(0x05), 0x0A);
    assert_eq!(cpu.status_flags, 0);
    assert_eq!(cpu.asl(0x40), 0x80);
    assert_eq!(cpu.status_flags, NEGATIVE);
    assert_eq!(cpu.asl(0x80), 0x00);
    assert_eq!(cpu.status_flags, ZERO);
    assert_eq!(cpu.accumulator, 0);
}

#[test]
fn asl_carry_comes_from_result_low_bit() {
    let mut cpu = CPU::new();
    cpu.status_flags = CARRY;
    assert_eq!(cpu.asl(0xC1), 0x82);
    assert_eq!(cpu.status_flags, NEGATIVE);
}

#[test]
fn clc_clears_only_carry() {
    let mut cpu = CPU::new();
    cpu.status_flags = 0xFF;
    cpu.clc();
    assert_eq!(cpu.status_flags, 0xFE);
}

#[test]
fn bit_sets_flags_from_operand() {
    let mut cpu = CPU::new();
    cpu.accumulator = 0x0F;
    cpu.bit(0xC0);
    assert_eq!(cpu.status_flags, ZERO | OVERFLOW | NEGATIVE);
    assert_eq!(cpu.accumulator, 0x0F);
    cpu.bit(0x01);
    assert_eq!(cpu.status_flags, 0);
}

#[test]
fn branches_test_their_flag() {
    let mut cpu = CPU::new();
    cpu.program_counter = 10;
    cpu.bcc(3);
    assert_eq!(cpu.program_counter, 13);
    cpu.bcs(3);
    assert_eq!(cpu.program_counter, 13);
    cpu.beq(3);
    assert_eq!(cpu.program_counter, 13);
    cpu.bne(3);
    assert_eq!(cpu.program_counter, 16);
    cpu.bmi(3);
    assert_eq!(cpu.program_counter, 16);
    cpu.bpl(3);
    assert_eq!(cpu.program_counter, 19);
    cpu.bvc(3);
    assert_eq!(cpu.program_counter, 22);
    cpu.status_flags = CARRY | ZERO | OVERFLOW | NEGATIVE;
    cpu.bcc(3);
    cpu.bne(3);
    cpu.bpl(3);
    cpu.bvc(3);
    assert_eq!(cpu.program_counter, 22);
    cpu.bcs(1);
    cpu.beq(1);
    cpu.bmi(1);
    assert_eq!(cpu.program_counter, 25);
    assert_eq!(cpu.status_flags, CARRY | ZERO | OVERFLOW | NEGATIVE);
}

#[test]
fn opcode_table_entries() {
    assert_eq!(decode(0x00), Some(Instruction::Halt));
    assert_eq!(decode(0x0A), Some(Instruction::Asl));
    assert_eq!(decode(0x18), Some(Instruction::Clc));
    assert_eq!(decode(0x29), Some(Instruction::And));
    assert_eq!(decode(0x30), Some(Instruction::Bmi));
    assert_eq!(decode(0x50), Some(Instruction::Bvc));
    assert_eq!(decode(0x90), Some(Instruction::Bcc));
    assert_eq!(decode(0xA9), Some(Instruction::Lda));
    assert_eq!(decode(0xAA), Some(Instruction::Tax));
    assert_eq!(decode(0xB0), Some(Instruction::Bcs));
    assert_eq!(decode(0xD0), Some(Instruction::Bne));
    assert_eq!(decode(0xF0), Some(Instruction::Beq));
    assert_eq!(decode(0x24), None);
    assert_eq!(decode(0x10), None);
    assert_eq!(decode(0xFF), None);
    assert!(Instruction::Lda.has_operand());
    assert!(!Instruction::Tax.has_operand());
}

#[test]
fn execute_matches_handlers() {
    let mut a = CPU::new();
    a.execute(Instruction::Lda, 0x90);
    a.execute(Instruction::Asl, 0);
    let mut b = CPU::new();
    b.lda(0x90);
    let r = b.asl(b.accumulator);
    b.accumulator = r;
    assert_eq!(a.accumulator, 0x20);
    assert_eq!(a.accumulator, b.accumulator);
    assert_eq!(a.status_flags, b.status_flags);
}
