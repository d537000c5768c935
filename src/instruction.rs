//! The instruction set and the opcode table that maps bytes onto it.
use vstd::prelude::*;

use crate::flags::{CARRY, NEGATIVE, OVERFLOW, ZERO};

verus! {

/// An instruction of the processor, as the opcode table names it.
#[derive(Clone, Copy, Debug, PartialEq, Eq, Structural)]
pub enum Instruction {
    /// Stop execution.
    Halt,
    /// Shift the accumulator left by one bit.
    Asl,
    /// Clear Carry.
    Clc,
    /// Accumulator AND operand.
    And,
    /// Branch if Negative is set.
    Bmi,
    /// Branch if Overflow is clear.
    Bvc,
    /// Branch if Carry is clear.
    Bcc,
    /// Load the operand into the accumulator.
    Lda,
    /// Copy the accumulator into register X.
    Tax,
    /// Branch if Carry is set.
    Bcs,
    /// Branch if Zero is clear.
    Bne,
    /// Branch if Zero is set.
    Beq,
    /// Test operand bits against the accumulator (no opcode yet).
    Bit,
    /// Branch if Negative is clear (no opcode yet).
    Bpl,
}

/// The opcode table: the instruction that `opcode` stands for, if any.
pub open spec fn opcode_table(opcode: u8) -> Option<Instruction> {
    if opcode == 0x00 {
        Some(Instruction::Halt)
    } else if opcode == 0x0A {
        Some(Instruction::Asl)
    } else if opcode == 0x18 {
        Some(Instruction::Clc)
    } else if opcode == 0x29 {
        Some(Instruction::And)
    } else if opcode == 0x30 {
        Some(Instruction::Bmi)
    } else if opcode == 0x50 {
        Some(Instruction::Bvc)
    } else if opcode == 0x90 {
        Some(Instruction::Bcc)
    } else if opcode == 0xA9 {
        Some(Instruction::Lda)
    } else if opcode == 0xAA {
        Some(Instruction::Tax)
    } else if opcode == 0xB0 {
        Some(Instruction::Bcs)
    } else if opcode == 0xD0 {
        Some(Instruction::Bne)
    } else if opcode == 0xF0 {
        Some(Instruction::Beq)
    } else {
        None
    }
}

/// Looks `opcode` up in the opcode table; `None` for an unimplemented byte.
pub fn decode(opcode: u8) -> (r: Option<Instruction>)
    ensures
        r == opcode_table(opcode),
{
    match opcode {
        0x00 => Some(Instruction::Halt),
        0x0A => Some(Instruction::Asl),
        0x18 => Some(Instruction::Clc),
        0x29 => Some(Instruction::And),
        0x30 => Some(Instruction::Bmi),
        0x50 => Some(Instruction::Bvc),
        0x90 => Some(Instruction::Bcc),
        0xA9 => Some(Instruction::Lda),
        0xAA => Some(Instruction::Tax),
        0xB0 => Some(Instruction::Bcs),
        0xD0 => Some(Instruction::Bne),
        0xF0 => Some(Instruction::Beq),
        _ => None,
    }
}

impl Instruction {
    /// Whether the instruction reads one operand byte after its opcode.
    pub open spec fn spec_has_operand(&self) -> bool {
        match self {
            Instruction::Halt | Instruction::Asl | Instruction::Clc | Instruction::Tax => false,
            _ => true,
        }
    }

    /// Whether the instruction reads one operand byte after its opcode.
    #[verifier::when_used_as_spec(spec_has_operand)]
    pub fn has_operand(&self) -> (r: bool)
        ensures
            r == self.spec_has_operand(),
    {
        match self {
            Instruction::Halt | Instruction::Asl | Instruction::Clc | Instruction::Tax => false,
            _ => true,
        }
    }

    /// For a branch, the flag it tests and whether that flag must be set
    /// for the branch to be taken.
    pub open spec fn branch_test(self) -> Option<(u8, bool)> {
        match self {
            Instruction::Bcc => Some((CARRY, false)),
            Instruction::Bcs => Some((CARRY, true)),
            Instruction::Beq => Some((ZERO, true)),
            Instruction::Bne => Some((ZERO, false)),
            Instruction::Bmi => Some((NEGATIVE, true)),
            Instruction::Bpl => Some((NEGATIVE, false)),
            Instruction::Bvc => Some((OVERFLOW, false)),
            _ => None,
        }
    }
}

} // verus!
