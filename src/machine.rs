//! The fetch-decode-execute loop.
use vstd::prelude::*;

use crate::cpu::CPU;
use crate::flags::{CARRY, NEGATIVE, OVERFLOW, ZERO};
use crate::instruction::{decode, opcode_table, Instruction};

verus! {

/// Why a program stopped other than by its halt instruction.
#[derive(Clone, Copy, Debug, PartialEq, Eq, Structural)]
pub enum CpuError {
    /// The byte at `offset` is not in the opcode table.
    UnknownOpcode { byte: u8, offset: usize },
    /// A byte was to be fetched at `offset`, which lies past the end of the
    /// program or beyond what the 16-bit counter can step over.
    OutOfBounds { offset: usize },
}

/// What the loop does after an instruction that succeeded.
#[derive(Clone, Copy, Debug, PartialEq, Eq, Structural)]
pub enum Flow {
    /// Fetch the next instruction.
    Continue,
    /// The halt instruction was executed.
    Halt,
}

/// Whether a byte can be fetched at `offset`: it lies in the program and
/// the counter can move past it.
pub open spec fn fetchable(program: Seq<u8>, offset: int) -> bool {
    offset < program.len() && offset < u16::MAX
}

impl CPU {
    /// Whether the counter can hold where `ins` with `operand` moves it.
    pub open spec fn fits(self, ins: Instruction, operand: u8) -> bool {
        match ins.branch_test() {
            Some((mask, set)) => self.branch_fits(mask, set, operand),
            None => true,
        }
    }

    /// The state after `ins` with `operand` (ignored by instructions that
    /// take none).
    pub open spec fn apply(self, ins: Instruction, operand: u8) -> CPU {
        match ins {
            Instruction::Halt => self,
            Instruction::Asl => self.after_asl(),
            Instruction::Clc => self.after_clc(),
            Instruction::And => self.after_and(operand),
            Instruction::Lda => self.after_lda(operand),
            Instruction::Tax => self.after_tax(),
            Instruction::Bit => self.after_bit(operand),
            _ => match ins.branch_test() {
                Some((mask, set)) => self.after_branch(mask, set, operand),
                None => self,
            },
        }
    }

    /// One turn of the loop on `program`: the state it leaves and how it ends.
    pub open spec fn next(self, program: Seq<u8>) -> (CPU, Result<Flow, CpuError>) {
        let pc = self.program_counter as int;
        if !fetchable(program, pc) {
            (self, Err(CpuError::OutOfBounds { offset: pc as usize }))
        } else {
            let opcode = program[pc];
            let fetched = self.at((pc + 1) as u16);
            match opcode_table(opcode) {
                None => (fetched, Err(CpuError::UnknownOpcode { byte: opcode, offset: pc as usize })),
                Some(ins) => {
                    if !ins.spec_has_operand() {
                        let flow = if ins == Instruction::Halt {
                            Flow::Halt
                        } else {
                            Flow::Continue
                        };
                        (fetched.apply(ins, 0), Ok(flow))
                    } else if !fetchable(program, pc + 1) {
                        (fetched, Err(CpuError::OutOfBounds { offset: (pc + 1) as usize }))
                    } else {
                        let operand = program[pc + 1];
                        let ready = fetched.at((pc + 2) as u16);
                        if !ready.fits(ins, operand) {
                            (ready, Err(CpuError::OutOfBounds { offset: (pc + 2 + operand) as usize }))
                        } else {
                            (ready.apply(ins, operand), Ok(Flow::Continue))
                        }
                    }
                },
            }
        }
    }

    /// The loop run on `program` from this state until it halts or fails:
    /// the state it leaves and how it ended.
    pub open spec fn run(self, program: Seq<u8>) -> (CPU, Result<(), CpuError>)
        decreases u16::MAX - self.program_counter,
    {
        let (after, r) = self.next(program);
        match r {
            Ok(Flow::Continue) => after.run(program),
            Ok(Flow::Halt) => (after, Ok(())),
            Err(e) => (after, Err(e)),
        }
    }
    /// Applies `ins` with `operand` (ignored by instructions that take none).
    pub fn execute(&mut self, ins: Instruction, operand: u8)
        requires
            old(self).fits(ins, operand),
        ensures
            *final(self) == old(self).apply(ins, operand),
    {
        match ins {
            Instruction::Halt => {},
            Instruction::Asl => {
                let value = self.accumulator;
                self.accumulator = self.asl(value);
            },
            Instruction::Clc => self.clc(),
            Instruction::And => self.and(operand),
            Instruction::Lda => self.lda(operand),
            Instruction::Tax => self.tax(),
            Instruction::Bit => self.bit(operand),
            Instruction::Bcc => self.bcc(operand),
            Instruction::Bcs => self.bcs(operand),
            Instruction::Beq => self.beq(operand),
            Instruction::Bne => self.bne(operand),
            Instruction::Bmi => self.bmi(operand),
            Instruction::Bpl => self.bpl(operand),
            Instruction::Bvc => self.bvc(operand),
        }
    }

    /// Whether the counter can hold where `ins` with `operand` moves it.
    fn target_fits(&self, ins: Instruction, operand: u8) -> (r: bool)
        ensures
            r == self.fits(ins, operand),
    {
        let (mask, set): (u8, bool) = match ins {
            Instruction::Bcc => (CARRY, false),
            Instruction::Bcs => (CARRY, true),
            Instruction::Beq => (ZERO, true),
            Instruction::Bne => (ZERO, false),
            Instruction::Bmi => (NEGATIVE, true),
            Instruction::Bpl => (NEGATIVE, false),
            Instruction::Bvc => (OVERFLOW, false),
            _ => {
                return true;
            },
        };
        (self.status_flags & mask == mask) != set || self.program_counter as u32 + operand as u32
            <= u16::MAX as u32
    }

    /// Runs one turn of the loop: fetches the opcode at the counter, then
    /// its operand if it takes one, advancing the counter past each, and
    /// applies the instruction.
    pub fn step(&mut self, program: &Vec<u8>) -> (r: Result<Flow, CpuError>)
        ensures
            (*final(self), r) == old(self).next(program@),
    {
        let pc = self.program_counter;
        if pc as usize >= program.len() || pc == u16::MAX {
            return Err(CpuError::OutOfBounds { offset: pc as usize });
        }
        let opcode = program[pc as usize];
        self.program_counter = pc + 1;
        let ins = match decode(opcode) {
            Some(ins) => ins,
            None => {
                return Err(CpuError::UnknownOpcode { byte: opcode, offset: pc as usize });
            },
        };
        if !ins.has_operand() {
            self.execute(ins, 0);
            return if ins == Instruction::Halt {
                Ok(Flow::Halt)
            } else {
                Ok(Flow::Continue)
            };
        }
        let at = self.program_counter;
        if at as usize >= program.len() || at == u16::MAX {
            return Err(CpuError::OutOfBounds { offset: at as usize });
        }
        let operand = program[at as usize];
        self.program_counter = at + 1;
        if !self.target_fits(ins, operand) {
            let target = self.program_counter as usize + operand as usize;
            return Err(CpuError::OutOfBounds { offset: target });
        }
        self.execute(ins, operand);
        Ok(Flow::Continue)
    }

    /// Runs `program` from its first byte until it halts or fails. The
    /// counter is reset to 0 first; every other register and flag starts
    /// as it is. On a failure, what earlier instructions did stays.
    pub fn interpret(&mut self, program: Vec<u8>) -> (r: Result<(), CpuError>)
        ensures
            (*final(self), r) == old(self).at(0).run(program@),
    {
        self.program_counter = 0;
        loop
            invariant
                self.run(program@) == old(self).at(0).run(program@),
            decreases u16::MAX - self.program_counter,
        {
            match self.step(&program) {
                Ok(Flow::Continue) => {},
                Ok(Flow::Halt) => {
                    return Ok(());
                },
                Err(e) => {
                    return Err(e);
                },
            }
        }
    }
}

} // verus!
