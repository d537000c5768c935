//! Laws relating several instructions, and what holds of every state the
//! loop passes through.
use vstd::prelude::*;

use crate::cpu::{shifted_left, CPU};
use crate::flags::{
    is_set, lemma_reserved_bits, lemma_zero_negative, lemma_zero_negative_twice,
    with_flag, CARRY, NEGATIVE, OVERFLOW, ZERO,
};
use crate::instruction::{opcode_table, Instruction};
use crate::machine::{fetchable, CpuError, Flow};

verus! {

/// After `LDA v` and then `TAX`, register X holds `v`, and Zero and
/// Negative are those that `LDA v` left: Zero set exactly when `v` is zero,
/// Negative exactly when bit 7 of `v` is set.
pub proof fn lda_then_tax(cpu: CPU, v: u8)
    ensures
        cpu.after_lda(v).after_tax().register_x == v,
        cpu.after_lda(v).after_tax().accumulator == v,
        cpu.after_lda(v).after_tax().status_flags == cpu.after_lda(v).status_flags,
        is_set(cpu.after_lda(v).after_tax().status_flags, ZERO) == (v == 0),
        is_set(cpu.after_lda(v).after_tax().status_flags, NEGATIVE) == is_set(v, NEGATIVE),
{
    lemma_zero_negative_twice(cpu.status_flags, v);
    lemma_zero_negative(cpu.status_flags, v);
}

/// `AND v` twice in a row leaves the state that `AND v` once leaves.
pub proof fn and_twice(cpu: CPU, v: u8)
    ensures
        cpu.after_and(v).after_and(v) == cpu.after_and(v),
{
    let a = cpu.accumulator;
    assert(a & v & v == a & v) by (bit_vector);
    lemma_zero_negative_twice(cpu.status_flags, a & v);
}

/// A branch whose opcode and operand are both in the program moves the
/// counter past its own two bytes, and then forward by the operand exactly
/// when the branch is taken; nothing else changes.
pub proof fn branch_advance(cpu: CPU, program: Seq<u8>)
    requires
        fetchable(program, cpu.program_counter as int),
        fetchable(program, cpu.program_counter + 1),
        opcode_table(program[cpu.program_counter as int]) matches Some(ins)
            && ins.branch_test() is Some,
    ensures
        ({
            let ins = opcode_table(program[cpu.program_counter as int])->0;
            let (mask, set) = ins.branch_test()->0;
            let operand = program[cpu.program_counter + 1];
            let target = cpu.program_counter + 2 + if cpu.branch_taken(mask, set) {
                operand as int
            } else {
                0
            };
            target <= u16::MAX ==> cpu.next(program) == (cpu.at(target as u16), Ok::<
                Flow,
                CpuError,
            >(Flow::Continue))
        }),
{
}

/// No instruction sets or clears bits 2 to 5 of the status flags.
pub proof fn apply_keeps_reserved_bits(cpu: CPU, ins: Instruction, operand: u8)
    ensures
        cpu.apply(ins, operand).status_flags & 0x3C == cpu.status_flags & 0x3C,
{
    let f = cpu.status_flags;
    match ins {
        Instruction::Asl => {
            let r = shifted_left(cpu.accumulator);
            let c = with_flag(f, CARRY, is_set(r, CARRY));
            lemma_reserved_bits(f, CARRY, is_set(r, CARRY));
            lemma_zero_negative(c, r);
        },
        Instruction::Clc => lemma_reserved_bits(f, CARRY, false),
        Instruction::And => {
            lemma_zero_negative(f, cpu.accumulator & operand);
        },
        Instruction::Lda => {
            lemma_zero_negative(f, operand);
        },
        Instruction::Tax => {
            lemma_zero_negative(f, cpu.accumulator);
        },
        Instruction::Bit => {
            let z = with_flag(f, ZERO, cpu.accumulator & operand == 0);
            let o = with_flag(z, OVERFLOW, is_set(operand, OVERFLOW));
            lemma_reserved_bits(f, ZERO, cpu.accumulator & operand == 0);
            lemma_reserved_bits(z, OVERFLOW, is_set(operand, OVERFLOW));
            lemma_reserved_bits(o, NEGATIVE, is_set(operand, NEGATIVE));
        },
        _ => {},
    }
}

/// Running a program, to a halt or to a failure, leaves bits 2 to 5 of the
/// status flags as they were.
pub proof fn run_keeps_reserved_bits(cpu: CPU, program: Seq<u8>)
    ensures
        cpu.run(program).0.status_flags & 0x3C == cpu.status_flags & 0x3C,
    decreases u16::MAX - cpu.program_counter,
{
    let pc = cpu.program_counter as int;
    if fetchable(program, pc) {
        if let Some(ins) = opcode_table(program[pc]) {
            let fetched = cpu.at((pc + 1) as u16);
            if !ins.spec_has_operand() {
                apply_keeps_reserved_bits(fetched, ins, 0);
            } else if fetchable(program, pc + 1) {
                apply_keeps_reserved_bits(fetched.at((pc + 2) as u16), ins, program[pc + 1]);
            }
        }
    }
    let (after, r) = cpu.next(program);
    if r == Ok::<Flow, CpuError>(Flow::Continue) {
        run_keeps_reserved_bits(after, program);
    }
}

} // verus!
