//! Decode, dispatch and the fetch-decode-execute loop.
use vstd::prelude::*;
use crate::cpu::CPU;
use crate::flags::{set_flag, CARRY, DECIMAL_MODE, INTERRUPT_DISABLE, NEGATIVE, OVERFLOW, ZERO};
use crate::opcodes::{lookup_opcode, AddressingMode, Mnemonic, OpCode};
use crate::state::{reports, CpuError, Step, MAX_STEPS};

verus! {

impl CPU {
    /// Runs the handler of `op`, the program counter being at its first
    /// operand byte.
    pub(crate) fn execute(&mut self, op: &OpCode)
        requires
            op.well_formed(),
            op.mnemonic != Mnemonic::Brk,
        ensures
            final(self)@ == old(self)@.execute(*op),
    {
        match op.mnemonic {
            Mnemonic::Lda
            | Mnemonic::Ldx
            | Mnemonic::Ldy
            | Mnemonic::Sta
            | Mnemonic::Stx
            | Mnemonic::Sty
            | Mnemonic::Tax
            | Mnemonic::Tay
            | Mnemonic::Tsx
            | Mnemonic::Txa
            | Mnemonic::Txs
            | Mnemonic::Tya
            | Mnemonic::Pha
            | Mnemonic::Php
            | Mnemonic::Pla
            | Mnemonic::Plp => self.execute_transfer(op),
            Mnemonic::Adc
            | Mnemonic::Sbc
            | Mnemonic::And
            | Mnemonic::Eor
            | Mnemonic::Ora
            | Mnemonic::Bit
            | Mnemonic::Cmp
            | Mnemonic::Cpx
            | Mnemonic::Cpy
            | Mnemonic::Inc
            | Mnemonic::Dec
            | Mnemonic::Inx
            | Mnemonic::Iny
            | Mnemonic::Dex
            | Mnemonic::Dey => self.execute_arithmetic(op),
            Mnemonic::Asl
            | Mnemonic::Lsr
            | Mnemonic::Rol
            | Mnemonic::Ror
            | Mnemonic::Clc
            | Mnemonic::Cld
            | Mnemonic::Cli
            | Mnemonic::Clv
            | Mnemonic::Sec
            | Mnemonic::Sed
            | Mnemonic::Sei
            | Mnemonic::Nop => self.execute_shift_or_flag(op),
            Mnemonic::Bcc
            | Mnemonic::Bcs
            | Mnemonic::Beq
            | Mnemonic::Bmi
            | Mnemonic::Bne
            | Mnemonic::Bpl
            | Mnemonic::Bvc
            | Mnemonic::Bvs
            | Mnemonic::Jmp
            | Mnemonic::Jsr
            | Mnemonic::Rts
            | Mnemonic::Rti => self.execute_control(op),
            Mnemonic::Brk => {},
        }
    }

    /// The handlers for loads, stores, register transfers and stack instructions.
    fn execute_transfer(&mut self, op: &OpCode)
        requires
            op.well_formed(),
            op.mnemonic == Mnemonic::Lda || op.mnemonic == Mnemonic::Ldx || op.mnemonic == Mnemonic::Ldy || op.mnemonic == Mnemonic::Sta || op.mnemonic == Mnemonic::Stx || op.mnemonic == Mnemonic::Sty || op.mnemonic == Mnemonic::Tax || op.mnemonic == Mnemonic::Tay || op.mnemonic == Mnemonic::Tsx || op.mnemonic == Mnemonic::Txa || op.mnemonic == Mnemonic::Txs || op.mnemonic == Mnemonic::Tya || op.mnemonic == Mnemonic::Pha || op.mnemonic == Mnemonic::Php || op.mnemonic == Mnemonic::Pla || op.mnemonic == Mnemonic::Plp,
        ensures
            final(self)@ == old(self)@.execute(*op),
    {
        let mode = &op.mode;
        let accumulator = op.mode == AddressingMode::NoneAddressing;
        match op.mnemonic {
            Mnemonic::Lda => self.lda(mode),
            Mnemonic::Ldx => self.ldx(mode),
            Mnemonic::Ldy => self.ldy(mode),
            Mnemonic::Sta => self.sta(mode),
            Mnemonic::Stx => self.stx(mode),
            Mnemonic::Sty => self.sty(mode),
            Mnemonic::Tax => self.tax(),
            Mnemonic::Tay => self.tay(),
            Mnemonic::Tsx => self.tsx(),
            Mnemonic::Txa => self.txa(),
            Mnemonic::Txs => self.stack_pointer = self.register_x,
            Mnemonic::Tya => self.tya(),
            Mnemonic::Pha => self.push(self.register_a),
            Mnemonic::Php => self.php(),
            Mnemonic::Pla => self.pla(),
            Mnemonic::Plp => self.plp(),
            _ => {},
        }
    }

    /// The handlers for arithmetic, logic, compares, increments and decrements.
    fn execute_arithmetic(&mut self, op: &OpCode)
        requires
            op.well_formed(),
            op.mnemonic == Mnemonic::Adc || op.mnemonic == Mnemonic::Sbc || op.mnemonic == Mnemonic::And || op.mnemonic == Mnemonic::Eor || op.mnemonic == Mnemonic::Ora || op.mnemonic == Mnemonic::Bit || op.mnemonic == Mnemonic::Cmp || op.mnemonic == Mnemonic::Cpx || op.mnemonic == Mnemonic::Cpy || op.mnemonic == Mnemonic::Inc || op.mnemonic == Mnemonic::Dec || op.mnemonic == Mnemonic::Inx || op.mnemonic == Mnemonic::Iny || op.mnemonic == Mnemonic::Dex || op.mnemonic == Mnemonic::Dey,
        ensures
            final(self)@ == old(self)@.execute(*op),
    {
        let mode = &op.mode;
        let accumulator = op.mode == AddressingMode::NoneAddressing;
        match op.mnemonic {
            Mnemonic::Adc => self.adc(mode),
            Mnemonic::Sbc => self.sbc(mode),
            Mnemonic::And => self.and(mode),
            Mnemonic::Eor => self.eor(mode),
            Mnemonic::Ora => self.ora(mode),
            Mnemonic::Bit => self.bit(mode),
            Mnemonic::Cmp => self.compare(mode, self.register_a),
            Mnemonic::Cpx => self.compare(mode, self.register_x),
            Mnemonic::Cpy => self.compare(mode, self.register_y),
            Mnemonic::Inc => self.inc(mode),
            Mnemonic::Dec => self.dec(mode),
            Mnemonic::Inx => self.inx(),
            Mnemonic::Iny => self.iny(),
            Mnemonic::Dex => self.dex(),
            Mnemonic::Dey => self.dey(),
            _ => {},
        }
    }

    /// The handlers for shifts, rotates, flag instructions and NOP.
    fn execute_shift_or_flag(&mut self, op: &OpCode)
        requires
            op.well_formed(),
            op.mnemonic == Mnemonic::Asl || op.mnemonic == Mnemonic::Lsr || op.mnemonic == Mnemonic::Rol || op.mnemonic == Mnemonic::Ror || op.mnemonic == Mnemonic::Clc || op.mnemonic == Mnemonic::Cld || op.mnemonic == Mnemonic::Cli || op.mnemonic == Mnemonic::Clv || op.mnemonic == Mnemonic::Sec || op.mnemonic == Mnemonic::Sed || op.mnemonic == Mnemonic::Sei || op.mnemonic == Mnemonic::Nop,
        ensures
            final(self)@ == old(self)@.execute(*op),
    {
        let mode = &op.mode;
        let accumulator = op.mode == AddressingMode::NoneAddressing;
        match op.mnemonic {
            Mnemonic::Asl => if accumulator {
                self.asl_accumulator()
            } else {
                self.asl(mode)
            },
            Mnemonic::Lsr => if accumulator {
                self.lsr_accumulator()
            } else {
                self.lsr(mode)
            },
            Mnemonic::Rol => if accumulator {
                self.rol_accumulator()
            } else {
                self.rol(mode)
            },
            Mnemonic::Ror => if accumulator {
                self.ror_accumulator()
            } else {
                self.ror(mode)
            },
            Mnemonic::Clc => self.status = set_flag(self.status, CARRY, false),
            Mnemonic::Cld => self.status = set_flag(self.status, DECIMAL_MODE, false),
            Mnemonic::Cli => self.status = set_flag(self.status, INTERRUPT_DISABLE, false),
            Mnemonic::Clv => self.status = set_flag(self.status, OVERFLOW, false),
            Mnemonic::Sec => self.status = set_flag(self.status, CARRY, true),
            Mnemonic::Sed => self.status = set_flag(self.status, DECIMAL_MODE, true),
            Mnemonic::Sei => self.status = set_flag(self.status, INTERRUPT_DISABLE, true),
            Mnemonic::Nop => {},
            _ => {},
        }
    }

    /// The handlers for branches, jumps, calls and returns.
    fn execute_control(&mut self, op: &OpCode)
        requires
            op.well_formed(),
            op.mnemonic == Mnemonic::Bcc || op.mnemonic == Mnemonic::Bcs || op.mnemonic == Mnemonic::Beq || op.mnemonic == Mnemonic::Bmi || op.mnemonic == Mnemonic::Bne || op.mnemonic == Mnemonic::Bpl || op.mnemonic == Mnemonic::Bvc || op.mnemonic == Mnemonic::Bvs || op.mnemonic == Mnemonic::Jmp || op.mnemonic == Mnemonic::Jsr || op.mnemonic == Mnemonic::Rts || op.mnemonic == Mnemonic::Rti,
        ensures
            final(self)@ == old(self)@.execute(*op),
    {
        let mode = &op.mode;
        let accumulator = op.mode == AddressingMode::NoneAddressing;
        match op.mnemonic {
            Mnemonic::Bcc => self.branch(self.status & CARRY == 0),
            Mnemonic::Bcs => self.branch(self.status & CARRY != 0),
            Mnemonic::Beq => self.branch(self.status & ZERO != 0),
            Mnemonic::Bmi => self.branch(self.status & NEGATIVE != 0),
            Mnemonic::Bne => self.branch(self.status & ZERO == 0),
            Mnemonic::Bpl => self.branch(self.status & NEGATIVE == 0),
            Mnemonic::Bvc => self.branch(self.status & OVERFLOW == 0),
            Mnemonic::Bvs => self.branch(self.status & OVERFLOW != 0),
            Mnemonic::Jmp => if accumulator {
                self.jmp_indirect()
            } else {
                self.jmp_absolute()
            },
            Mnemonic::Jsr => self.jsr(),
            Mnemonic::Rts => self.rts(),
            Mnemonic::Rti => self.rti(),
            _ => {},
        }
    }

    /// One iteration of the loop. `Ok(true)` when BRK was fetched and the
    /// processor halts, `Ok(false)` when an instruction ran; on an
    /// unimplemented opcode the state is left as it was.
    pub fn step(&mut self) -> (r: Result<bool, CpuError>)
        ensures
            match old(self)@.step() {
                Step::Next(s) => r == Ok::<bool, CpuError>(false) && final(self)@ == s,
                Step::Halt(s) => r == Ok::<bool, CpuError>(true) && final(self)@ == s,
                Step::Fault(e) => r == Err::<bool, CpuError>(e) && final(self)@ == old(self)@,
            },
    {
        let code = self.mem_read(self.program_counter);
        let op = match lookup_opcode(code) {
            Some(op) => op,
            None => {
                return Err(CpuError::UnimplementedOpcode { code, pc: self.program_counter });
            },
        };
        self.program_counter = self.program_counter.wrapping_add(1);
        if op.mnemonic == Mnemonic::Brk {
            return Ok(true);
        }
        let pc_before_operands = self.program_counter;
        self.execute(&op);
        if self.program_counter == pc_before_operands {
            self.program_counter = pc_before_operands.wrapping_add(op.len as u16 - 1);
        }
        Ok(false)
    }

    /// Executes instructions until BRK or a fault, for at most `MAX_STEPS`
    /// instructions.
    pub fn run(&mut self) -> (r: Result<(), CpuError>)
        ensures
            reports(old(self)@.run(MAX_STEPS as nat), r, final(self)@),
    {
        let mut remaining: u64 = MAX_STEPS;
        while remaining > 0
            invariant
                old(self)@.run(MAX_STEPS as nat) == self@.run(remaining as nat),
            decreases remaining,
        {
            match self.step() {
                Ok(true) => return Ok(()),
                Ok(false) => {},
                Err(e) => return Err(e),
            }
            remaining = remaining - 1;
        }
        Err(CpuError::StepLimitReached)
    }

    /// `load`, `reset`, then `run`.
    pub fn load_and_run(&mut self, program: Vec<u8>) -> (r: Result<(), CpuError>)
        requires
            program.len() <= 0x7FFF,
        ensures
            reports(old(self)@.load(program@).reset().run(MAX_STEPS as nat), r, final(self)@),
    {
        self.load(program);
        self.reset();
        self.run()
    }

    pub fn interpret(&mut self, program: Vec<u8>) -> (r: Result<(), CpuError>)
        requires
            program.len() <= 0x7FFF,
        ensures
            reports(old(self)@.load(program@).reset().run(MAX_STEPS as nat), r, final(self)@),
    {
        self.load_and_run(program)
    }
}

} // verus!
