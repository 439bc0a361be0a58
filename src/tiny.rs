//! A tiny interpreter without memory that executes LDA immediate, TAX and BRK
//! straight out of a program vector, from its first byte.
use vstd::prelude::*;
use crate::flags::{set_flag, with_zero_negative, NEGATIVE, ZERO};

verus! {

/// Why the tiny interpreter stopped before BRK.
#[derive(Clone, Copy, Debug, PartialEq, Eq, Structural)]
pub enum InterpretError {
    /// The byte at `pc` is not LDA immediate, TAX or BRK.
    UnknownOpcode { code: u8, pc: u16 },
    /// The program ended at `pc` before BRK.
    EndOfProgram { pc: u16 },
}

/// Accumulator, X, status and program counter; nothing else.
pub struct CPU {
    pub register_a: u8,
    pub status: u8,
    pub program_counter: u16,
    pub register_x: u8,
}

pub open spec fn with_a(c: CPU, v: u8) -> CPU {
    CPU { register_a: v, status: with_zero_negative(c.status, v), ..c }
}

pub open spec fn with_x(c: CPU, v: u8) -> CPU {
    CPU { register_x: v, status: with_zero_negative(c.status, v), ..c }
}

pub open spec fn at(c: CPU, pc: int) -> CPU {
    CPU { program_counter: pc as u16, ..c }
}

/// Executes `program` from the program counter of `c` to BRK: the state it
/// halts in, and the error when it stops before.
pub open spec fn run_from(c: CPU, program: Seq<u8>) -> (CPU, Result<(), InterpretError>)
    decreases program.len() - c.program_counter,
    when program.len() <= 0xFFFF
{
    let pc = c.program_counter as int;
    if pc >= program.len() {
        (c, Err(InterpretError::EndOfProgram { pc: pc as u16 }))
    } else {
        let code = program[pc];
        if code == 0x00 {
            (at(c, pc + 1), Ok(()))
        } else if code == 0xAA {
            run_from(with_x(at(c, pc + 1), c.register_a), program)
        } else if code == 0xA9 {
            if pc + 1 >= program.len() {
                (at(c, pc + 1), Err(InterpretError::EndOfProgram { pc: (pc + 1) as u16 }))
            } else {
                run_from(with_a(at(c, pc + 2), program[pc + 1]), program)
            }
        } else {
            (c, Err(InterpretError::UnknownOpcode { code, pc: pc as u16 }))
        }
    }
}

impl CPU {
    pub fn new() -> (r: CPU)
        ensures
            r == (CPU { register_a: 0, status: 0, program_counter: 0, register_x: 0 }),
    {
        CPU { register_a: 0, status: 0, program_counter: 0, register_x: 0 }
    }

    fn update_zero_and_negative_flags(&mut self, result: u8)
        ensures
            *final(self) == (CPU { status: with_zero_negative(old(self).status, result), ..*old(self) }),
    {
        self.status = set_flag(self.status, ZERO, result == 0);
        self.status = set_flag(self.status, NEGATIVE, result & 0x80 != 0);
    }

    fn lda(&mut self, value: u8)
        ensures
            *final(self) == with_a(*old(self), value),
    {
        self.register_a = value;
        self.update_zero_and_negative_flags(value);
    }

    fn tax(&mut self)
        ensures
            *final(self) == with_x(*old(self), old(self).register_a),
    {
        self.register_x = self.register_a;
        self.update_zero_and_negative_flags(self.register_x);
    }

    /// Runs `program` from its first byte until BRK; the registers other than
    /// the program counter keep their values from before the call.
    pub fn interpret(&mut self, program: Vec<u8>) -> (r: Result<(), InterpretError>)
        requires
            program.len() <= 0xFFFF,
        ensures
            (*final(self), r) == run_from(at(*old(self), 0), program@),
    {
        self.program_counter = 0;
        let n = program.len();
        loop
            invariant
                n == program.len() <= 0xFFFF,
                run_from(at(*old(self), 0), program@) == run_from(*self, program@),
            decreases n - self.program_counter,
        {
            let pc = self.program_counter;
            if pc as usize >= n {
                return Err(InterpretError::EndOfProgram { pc });
            }
            let code = program[pc as usize];
            if code == 0x00 {
                self.program_counter = pc + 1;
                return Ok(());
            } else if code == 0xAA {
                self.program_counter = pc + 1;
                self.tax();
            } else if code == 0xA9 {
                self.program_counter = pc + 1;
                if pc as usize + 1 >= n {
                    return Err(InterpretError::EndOfProgram { pc: pc + 1 });
                }
                let param = program[pc as usize + 1];
                self.program_counter = pc + 2;
                self.lda(param);
            } else {
                return Err(InterpretError::UnknownOpcode { code, pc });
            }
        }
    }
}

} // verus!
