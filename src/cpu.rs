//! The processor state and the effect of each instruction on it.
use vstd::prelude::*;

use crate::flags::{
    is_set, lemma_zero_negative, set_flag, with_flag, with_zero_negative, CARRY, NEGATIVE,
    OVERFLOW, ZERO,
};

verus! {

/// Registers and status flags of the processor.
///
/// Flag bits of `status_flags`: 0 Carry, 1 Zero, 6 Overflow, 7 Negative;
/// bits 2 to 5 are never touched.
#[derive(Debug)]
pub struct CPU {
    pub accumulator: u8,
    pub register_x: u8,
    pub register_y: u8,
    pub stack_pointer: u8,
    pub program_counter: u16,
    pub status_flags: u8,
}

/// `value` shifted left by one bit, the top bit dropped.
pub open spec fn shifted_left(value: u8) -> u8 {
    ((2 * value as int) % 256) as u8
}

impl CPU {
    /// The state with the program counter set to `pc`.
    pub open spec fn at(self, pc: u16) -> CPU {
        CPU { program_counter: pc, ..self }
    }

    /// Flags after `ASL` produced `result`: Carry from bit 0 of the result,
    /// Zero and Negative from the result.
    pub open spec fn asl_flags(self, result: u8) -> u8 {
        with_zero_negative(with_flag(self.status_flags, CARRY, is_set(result, CARRY)), result)
    }

    /// The state after `ASL` applied to the accumulator.
    pub open spec fn after_asl(self) -> CPU {
        let result = shifted_left(self.accumulator);
        CPU { accumulator: result, status_flags: self.asl_flags(result), ..self }
    }

    /// The state after `AND value`.
    pub open spec fn after_and(self, value: u8) -> CPU {
        let result = self.accumulator & value;
        CPU {
            accumulator: result,
            status_flags: with_zero_negative(self.status_flags, result),
            ..self
        }
    }

    /// The state after `LDA value`.
    pub open spec fn after_lda(self, value: u8) -> CPU {
        CPU {
            accumulator: value,
            status_flags: with_zero_negative(self.status_flags, value),
            ..self
        }
    }

    /// The state after `TAX`.
    pub open spec fn after_tax(self) -> CPU {
        CPU {
            register_x: self.accumulator,
            status_flags: with_zero_negative(self.status_flags, self.accumulator),
            ..self
        }
    }

    /// The state after `CLC`.
    pub open spec fn after_clc(self) -> CPU {
        CPU { status_flags: with_flag(self.status_flags, CARRY, false), ..self }
    }

    /// The state after `BIT value`: Zero from accumulator AND `value`,
    /// Overflow and Negative from bits 6 and 7 of `value`.
    pub open spec fn after_bit(self, value: u8) -> CPU {
        let flags = with_flag(self.status_flags, ZERO, self.accumulator & value == 0);
        let flags = with_flag(flags, OVERFLOW, is_set(value, OVERFLOW));
        CPU { status_flags: with_flag(flags, NEGATIVE, is_set(value, NEGATIVE)), ..self }
    }

    /// Whether a branch that tests `mask` for being `set` is taken.
    pub open spec fn branch_taken(self, mask: u8, set: bool) -> bool {
        is_set(self.status_flags, mask) == set
    }

    /// Whether the counter can hold the target of such a branch.
    pub open spec fn branch_fits(self, mask: u8, set: bool, offset: u8) -> bool {
        self.branch_taken(mask, set) ==> self.program_counter + offset <= u16::MAX
    }

    /// The state after such a branch: the counter moves forward by `offset`
    /// when it is taken.
    pub open spec fn after_branch(self, mask: u8, set: bool, offset: u8) -> CPU {
        if self.branch_taken(mask, set) {
            self.at((self.program_counter + offset) as u16)
        } else {
            self
        }
    }

    /// A processor with every register, the counter and the flags at zero.
    pub fn new() -> (r: CPU)
        ensures
            r == (CPU {
                accumulator: 0,
                register_x: 0,
                register_y: 0,
                stack_pointer: 0,
                program_counter: 0,
                status_flags: 0,
            }),
    {
        CPU {
            accumulator: 0,
            register_x: 0,
            register_y: 0,
            stack_pointer: 0,
            program_counter: 0,
            status_flags: 0,
        }
    }

    /// Shifts `parameter` left by one bit and returns the result, with
    /// Carry set from bit 0 of the result and Zero and Negative from the
    /// result. Nothing but the flags changes.
    pub fn asl(&mut self, parameter: u8) -> (r: u8)
        ensures
            r == shifted_left(parameter),
            *final(self) == (CPU { status_flags: old(self).asl_flags(r), ..*old(self) }),
    {
        let result = parameter << 1;
        assert(result == shifted_left(parameter)) by (bit_vector)
            requires
                result == parameter << 1,
        ;
        self.status_flags = set_flag(self.status_flags, CARRY, result & CARRY == CARRY);
        self.status_flags = set_flag(self.status_flags, ZERO, result == 0);
        self.status_flags = set_flag(self.status_flags, NEGATIVE, result & NEGATIVE == NEGATIVE);
        result
    }
    /// Recomputes Zero and Negative from `value`.
    fn set_zero_negative(&mut self, value: u8)
        ensures
            *final(self) == (CPU {
                status_flags: with_zero_negative(old(self).status_flags, value),
                ..*old(self)
            }),
    {
        self.status_flags = set_flag(self.status_flags, ZERO, value == 0);
        self.status_flags = set_flag(self.status_flags, NEGATIVE, value & NEGATIVE == NEGATIVE);
    }

    /// `AND`: the accumulator becomes accumulator AND `parameter`; Zero and
    /// Negative follow the new accumulator; Carry and Overflow stay.
    pub fn and(&mut self, parameter: u8)
        ensures
            *final(self) == old(self).after_and(parameter),
            final(self).accumulator == old(self).accumulator & parameter,
            is_set(final(self).status_flags, ZERO) == (final(self).accumulator == 0),
            is_set(final(self).status_flags, NEGATIVE) == is_set(final(self).accumulator, NEGATIVE),
            final(self).status_flags & 0x7D == old(self).status_flags & 0x7D,
    {
        self.accumulator = self.accumulator & parameter;
        let value = self.accumulator;
        self.set_zero_negative(value);
        proof {
            lemma_zero_negative(old(self).status_flags, value);
        }
    }

    /// Takes the branch, moving the counter forward by `parameter`, when
    /// the flag `mask` is set exactly when `set` holds.
    fn branch(&mut self, mask: u8, set: bool, parameter: u8)
        requires
            old(self).branch_fits(mask, set, parameter),
        ensures
            *final(self) == old(self).after_branch(mask, set, parameter),
    {
        if (self.status_flags & mask == mask) == set {
            self.program_counter = self.program_counter + parameter as u16;
        }
    }

    /// `BCC`: branch forward by `parameter` if Carry is clear.
    pub fn bcc(&mut self, parameter: u8)
        requires
            old(self).branch_fits(CARRY, false, parameter),
        ensures
            *final(self) == old(self).after_branch(CARRY, false, parameter),
    {
        self.branch(CARRY, false, parameter);
    }

    /// `BCS`: branch forward by `parameter` if Carry is set.
    pub fn bcs(&mut self, parameter: u8)
        requires
            old(self).branch_fits(CARRY, true, parameter),
        ensures
            *final(self) == old(self).after_branch(CARRY, true, parameter),
    {
        self.branch(CARRY, true, parameter);
    }

    /// `BEQ`: branch forward by `parameter` if Zero is set.
    pub fn beq(&mut self, parameter: u8)
        requires
            old(self).branch_fits(ZERO, true, parameter),
        ensures
            *final(self) == old(self).after_branch(ZERO, true, parameter),
    {
        self.branch(ZERO, true, parameter);
    }

    /// `BIT`: Zero is set exactly when accumulator AND `parameter` is zero,
    /// Overflow and Negative are copied from bits 6 and 7 of `parameter`;
    /// the accumulator and Carry stay.
    pub fn bit(&mut self, parameter: u8)
        ensures
            *final(self) == old(self).after_bit(parameter),
    {
        let test = self.accumulator & parameter;
        self.status_flags = set_flag(self.status_flags, ZERO, test == 0);
        self.status_flags = set_flag(
            self.status_flags,
            OVERFLOW,
            parameter & OVERFLOW == OVERFLOW,
        );
        self.status_flags = set_flag(
            self.status_flags,
            NEGATIVE,
            parameter & NEGATIVE == NEGATIVE,
        );
    }

    /// `BMI`: branch forward by `parameter` if Negative is set.
    pub fn bmi(&mut self, parameter: u8)
        requires
            old(self).branch_fits(NEGATIVE, true, parameter),
        ensures
            *final(self) == old(self).after_branch(NEGATIVE, true, parameter),
    {
        self.branch(NEGATIVE, true, parameter);
    }

    /// `BNE`: branch forward by `parameter` if Zero is clear.
    pub fn bne(&mut self, parameter: u8)
        requires
            old(self).branch_fits(ZERO, false, parameter),
        ensures
            *final(self) == old(self).after_branch(ZERO, false, parameter),
    {
        self.branch(ZERO, false, parameter);
    }

    /// `BPL`: branch forward by `parameter` if Negative is clear.
    pub fn bpl(&mut self, parameter: u8)
        requires
            old(self).branch_fits(NEGATIVE, false, parameter),
        ensures
            *final(self) == old(self).after_branch(NEGATIVE, false, parameter),
    {
        self.branch(NEGATIVE, false, parameter);
    }

    /// `BVC`: branch forward by `parameter` if Overflow is clear.
    pub fn bvc(&mut self, parameter: u8)
        requires
            old(self).branch_fits(OVERFLOW, false, parameter),
        ensures
            *final(self) == old(self).after_branch(OVERFLOW, false, parameter),
    {
        self.branch(OVERFLOW, false, parameter);
    }

    /// `CLC`: clears Carry and nothing else.
    pub fn clc(&mut self)
        ensures
            *final(self) == old(self).after_clc(),
            !is_set(final(self).status_flags, CARRY),
            final(self).status_flags & 0xFE == old(self).status_flags & 0xFE,
    {
        self.status_flags = set_flag(self.status_flags, CARRY, false);
        proof {
            let f = old(self).status_flags;
            assert(!is_set(with_flag(f, CARRY, false), CARRY) && with_flag(f, CARRY, false) & 0xFE
                == f & 0xFE) by (bit_vector);
        }
    }

    /// `LDA`: the accumulator becomes `parameter`; Zero is set exactly when
    /// it is zero, Negative exactly when its bit 7 is set; Carry, Overflow
    /// and the unused bits stay.
    pub fn lda(&mut self, parameter: u8)
        ensures
            *final(self) == old(self).after_lda(parameter),
            final(self).accumulator == parameter,
            is_set(final(self).status_flags, ZERO) == (parameter == 0),
            is_set(final(self).status_flags, NEGATIVE) == is_set(parameter, NEGATIVE),
            final(self).status_flags & 0x7D == old(self).status_flags & 0x7D,
            is_set(final(self).status_flags, CARRY) == is_set(old(self).status_flags, CARRY),
            is_set(final(self).status_flags, OVERFLOW) == is_set(old(self).status_flags, OVERFLOW),
    {
        self.accumulator = parameter;
        self.set_zero_negative(parameter);
        proof {
            lemma_zero_negative(old(self).status_flags, parameter);
        }
    }

    /// `TAX`: register X becomes the accumulator; Zero and Negative follow
    /// register X; Carry, Overflow and the unused bits stay.
    pub fn tax(&mut self)
        ensures
            *final(self) == old(self).after_tax(),
            final(self).register_x == old(self).accumulator,
            is_set(final(self).status_flags, ZERO) == (final(self).register_x == 0),
            is_set(final(self).status_flags, NEGATIVE) == is_set(final(self).register_x, NEGATIVE),
            final(self).status_flags & 0x7D == old(self).status_flags & 0x7D,
    {
        let value = self.accumulator;
        self.register_x = value;
        self.set_zero_negative(value);
        proof {
            lemma_zero_negative(old(self).status_flags, value);
        }
    }
}

} // verus!
