//! The mathematical model of the processor: register file and memory as plain
//! values, and the effect of every instruction on them.
use vstd::prelude::*;
use crate::flags::{
    with_flag, with_zero_negative, BREAK, CARRY, DECIMAL_MODE, INTERRUPT_DISABLE, NEGATIVE,
    OVERFLOW, UNUSED, ZERO,
};
use crate::opcodes::{opcode_table, AddressingMode, Mnemonic, OpCode};

verus! {

/// Size of the address space in bytes.
pub const MEMORY_SIZE: usize = 0x1_0000;

/// How many instructions `run` executes at most before giving up on BRK.
pub const MAX_STEPS: u64 = 0xFFFF_FFFF_FFFF_FFFF;

/// Base of the stack page.
pub const STACK: u16 = 0x0100;

/// Value of the stack pointer after reset.
pub const STACK_RESET: u8 = 0xFD;

/// Status after reset: only the unconnected bit 5 reads as one.
pub const STATUS_RESET: u8 = 0b0010_0000;

/// Where `load` places a program.
pub const PROGRAM_START: u16 = 0x8000;

/// Where the reset vector is stored, little-endian.
pub const RESET_VECTOR: u16 = 0xFFFC;

/// The fatal conditions of the core.
#[derive(Clone, Copy, Debug, PartialEq, Eq, Structural)]
pub enum CpuError {
    /// The fetched byte has no entry in the opcode table.
    UnimplementedOpcode { code: u8, pc: u16 },
    /// An effective address was requested for `NoneAddressing`.
    InvalidAddressingRequest,
    /// `run` executed its whole instruction budget without reaching BRK.
    StepLimitReached,
}

/// Register file and memory as values.
pub struct CpuState {
    pub register_a: u8,
    pub register_x: u8,
    pub register_y: u8,
    pub status: u8,
    pub stack_pointer: u8,
    pub program_counter: u16,
    pub memory: Seq<u8>,
}

/// What one fetch-decode-execute iteration leads to.
pub enum Step {
    /// An instruction ran; the loop goes on from this state.
    Next(CpuState),
    /// BRK was fetched; execution halts in this state.
    Halt(CpuState),
    /// A fatal condition; the state is left as it was before the fetch.
    Fault(CpuError),
}

/// What running until BRK leads to.
pub enum Outcome {
    Halted(CpuState),
    /// A fatal condition met in this state, before the faulting fetch.
    Faulted(CpuState, CpuError),
    /// The instruction budget ran out in this state.
    OutOfSteps(CpuState),
}

/// `result` and the final state `s` are what `outcome` says.
pub open spec fn reports(outcome: Outcome, result: Result<(), CpuError>, s: CpuState) -> bool {
    match outcome {
        Outcome::Halted(h) => result == Ok::<(), CpuError>(()) && s == h,
        Outcome::Faulted(f, e) => result == Err::<(), CpuError>(e) && s == f,
        Outcome::OutOfSteps(o) => result == Err::<(), CpuError>(CpuError::StepLimitReached) && s == o,
    }
}

pub open spec fn wrap8(v: int) -> u8 {
    (v % 0x100) as u8
}

pub open spec fn wrap16(v: int) -> u16 {
    (v % 0x1_0000) as u16
}

/// Little-endian word from its two bytes.
pub open spec fn word(lo: u8, hi: u8) -> u16 {
    (lo + 0x100 * hi) as u16
}

/// Destination of a relative branch whose offset byte sits at `pc`: the
/// offset, read as a signed byte, counts from the next instruction.
pub open spec fn branch_target(pc: u16, offset: u8) -> u16 {
    if offset < 0x80 {
        wrap16(pc + 1 + offset)
    } else {
        wrap16(pc + 1 + offset - 0x100)
    }
}

/// The status that PLP and RTI install from a pulled byte: Break is not a
/// stored flag and bit 5 always reads as one.
pub open spec fn pulled_status(v: u8) -> u8 {
    (v & !BREAK) | UNUSED
}

/// The byte that PHP pushes: the status with Break and bit 5 set.
pub open spec fn pushed_status(status: u8) -> u8 {
    status | BREAK | UNUSED
}

/// Status after an add of `value` and the carry into the accumulator `a`,
/// `sum` being the full 9-bit sum and `r` its low byte.
pub open spec fn add_status(status: u8, a: u8, value: u8, sum: int, r: u8) -> u8 {
    with_zero_negative(
        with_flag(with_flag(status, OVERFLOW, (value ^ r) & (a ^ r) & 0x80 != 0), CARRY, sum > 0xFF),
        r,
    )
}

pub open spec fn rol_value(v: u8, carry: bool) -> u8 {
    if carry {
        (v << 1) | 1
    } else {
        v << 1
    }
}

pub open spec fn ror_value(v: u8, carry: bool) -> u8 {
    if carry {
        (v >> 1) | 0x80
    } else {
        v >> 1
    }
}

impl CpuState {
    /// The memory covers the whole 16-bit address space.
    pub open spec fn well_formed(self) -> bool {
        self.memory.len() == MEMORY_SIZE
    }

    pub open spec fn read(self, addr: u16) -> u8 {
        self.memory[addr as int]
    }

    /// Little-endian word at `addr` and `addr + 1`, wrapping at the top of memory.
    pub open spec fn read_u16(self, addr: u16) -> u16 {
        word(self.read(addr), self.read(wrap16(addr + 1)))
    }

    pub open spec fn write(self, addr: u16, v: u8) -> CpuState {
        CpuState { memory: self.memory.update(addr as int, v), ..self }
    }

    pub open spec fn write_u16(self, addr: u16, v: u16) -> CpuState {
        self.write(addr, wrap8(v as int)).write(wrap16(addr + 1), (v / 0x100) as u8)
    }

    /// `program` copied to `PROGRAM_START` onwards, and the reset vector
    /// pointed at it.
    pub open spec fn load(self, program: Seq<u8>) -> CpuState {
        self.copy_program(program).write_u16(RESET_VECTOR, PROGRAM_START)
    }

    /// `program` copied to `PROGRAM_START` onwards.
    pub open spec fn copy_program(self, program: Seq<u8>) -> CpuState {
        let memory = Seq::new(
            self.memory.len(),
            |i: int|
                if PROGRAM_START <= i < PROGRAM_START + program.len() {
                    program[i - PROGRAM_START]
                } else {
                    self.memory[i]
                },
        );
        CpuState { memory, ..self }
    }

    /// Registers cleared, status and stack pointer at their power-on values,
    /// the program counter taken from the reset vector.
    pub open spec fn reset(self) -> CpuState {
        CpuState {
            register_a: 0,
            register_x: 0,
            register_y: 0,
            status: STATUS_RESET,
            stack_pointer: STACK_RESET,
            program_counter: self.read_u16(RESET_VECTOR),
            ..self
        }
    }

    pub open spec fn carry(self) -> bool {
        self.status & CARRY != 0
    }

    pub open spec fn with_status(self, status: u8) -> CpuState {
        CpuState { status, ..self }
    }

    pub open spec fn with_pc(self, pc: u16) -> CpuState {
        CpuState { program_counter: pc, ..self }
    }

    pub open spec fn with_a(self, v: u8) -> CpuState {
        CpuState { register_a: v, status: with_zero_negative(self.status, v), ..self }
    }

    pub open spec fn with_x(self, v: u8) -> CpuState {
        CpuState { register_x: v, status: with_zero_negative(self.status, v), ..self }
    }

    pub open spec fn with_y(self, v: u8) -> CpuState {
        CpuState { register_y: v, status: with_zero_negative(self.status, v), ..self }
    }

    // ---- stack ----
    /// Decrements the stack pointer, then writes at the new top of the stack page.
    pub open spec fn push(self, v: u8) -> CpuState {
        let sp = wrap8(self.stack_pointer - 1);
        CpuState { stack_pointer: sp, ..self }.write((STACK + sp) as u16, v)
    }

    /// The byte at the top of the stack page.
    pub open spec fn top(self) -> u8 {
        self.read((STACK + self.stack_pointer) as u16)
    }

    /// Removes the top byte: increments the stack pointer.
    pub open spec fn drop_top(self) -> CpuState {
        CpuState { stack_pointer: wrap8(self.stack_pointer + 1), ..self }
    }

    /// High byte first, so that the low byte comes off first.
    pub open spec fn push_u16(self, v: u16) -> CpuState {
        self.push((v / 0x100) as u8).push(wrap8(v as int))
    }

    pub open spec fn top_u16(self) -> u16 {
        word(self.top(), self.drop_top().top())
    }

    pub open spec fn drop_top_u16(self) -> CpuState {
        self.drop_top().drop_top()
    }

    // ---- addressing ----
    /// Effective address of the operand of the instruction whose first operand
    /// byte is at the program counter.
    pub open spec fn operand_address(self, mode: AddressingMode) -> u16
        recommends
            mode != AddressingMode::NoneAddressing,
    {
        let pc = self.program_counter;
        match mode {
            AddressingMode::Immediate => pc,
            AddressingMode::ZeroPage => self.read(pc) as u16,
            AddressingMode::ZeroPage_X => wrap8(self.read(pc) + self.register_x) as u16,
            AddressingMode::ZeroPage_Y => wrap8(self.read(pc) + self.register_y) as u16,
            AddressingMode::Absolute => self.read_u16(pc),
            AddressingMode::Absolute_X => wrap16(self.read_u16(pc) + self.register_x),
            AddressingMode::Absolute_Y => wrap16(self.read_u16(pc) + self.register_y),
            AddressingMode::Indirect_X => {
                let ptr = wrap8(self.read(pc) + self.register_x);
                word(self.read(ptr as u16), self.read(wrap8(ptr + 1) as u16))
            },
            AddressingMode::Indirect_Y => {
                let ptr = self.read(pc);
                let base = word(self.read(ptr as u16), self.read(wrap8(ptr + 1) as u16));
                wrap16(base + self.register_y)
            },
            AddressingMode::NoneAddressing => pc,
        }
    }

    pub open spec fn operand(self, mode: AddressingMode) -> u8 {
        self.read(self.operand_address(mode))
    }

    // ---- loads, stores, transfers ----
    pub open spec fn lda(self, mode: AddressingMode) -> CpuState {
        self.with_a(self.operand(mode))
    }

    pub open spec fn ldx(self, mode: AddressingMode) -> CpuState {
        self.with_x(self.operand(mode))
    }

    pub open spec fn ldy(self, mode: AddressingMode) -> CpuState {
        self.with_y(self.operand(mode))
    }

    pub open spec fn sta(self, mode: AddressingMode) -> CpuState {
        self.write(self.operand_address(mode), self.register_a)
    }

    pub open spec fn stx(self, mode: AddressingMode) -> CpuState {
        self.write(self.operand_address(mode), self.register_x)
    }

    pub open spec fn sty(self, mode: AddressingMode) -> CpuState {
        self.write(self.operand_address(mode), self.register_y)
    }

    pub open spec fn tax(self) -> CpuState {
        self.with_x(self.register_a)
    }

    pub open spec fn tay(self) -> CpuState {
        self.with_y(self.register_a)
    }

    pub open spec fn txa(self) -> CpuState {
        self.with_a(self.register_x)
    }

    pub open spec fn tya(self) -> CpuState {
        self.with_a(self.register_y)
    }

    pub open spec fn tsx(self) -> CpuState {
        self.with_x(self.stack_pointer)
    }

    pub open spec fn txs(self) -> CpuState {
        CpuState { stack_pointer: self.register_x, ..self }
    }

    // ---- arithmetic and logic ----
    /// Adds `value` and the carry into the accumulator.
    pub open spec fn add_to_register_a(self, value: u8) -> CpuState {
        let sum = self.register_a + value + (if self.carry() { 1int } else { 0int });
        let r = wrap8(sum);
        CpuState {
            register_a: r,
            status: add_status(self.status, self.register_a, value, sum, r),
            ..self
        }
    }

    pub open spec fn adc(self, mode: AddressingMode) -> CpuState {
        self.add_to_register_a(self.operand(mode))
    }

    /// Subtraction is the add of the operand's one's complement.
    pub open spec fn sbc(self, mode: AddressingMode) -> CpuState {
        self.add_to_register_a(!self.operand(mode))
    }

    pub open spec fn and(self, mode: AddressingMode) -> CpuState {
        self.with_a(self.register_a & self.operand(mode))
    }

    pub open spec fn eor(self, mode: AddressingMode) -> CpuState {
        self.with_a(self.register_a ^ self.operand(mode))
    }

    pub open spec fn ora(self, mode: AddressingMode) -> CpuState {
        self.with_a(self.register_a | self.operand(mode))
    }

    /// Zero from `A & M`, Overflow and Negative from bits 6 and 7 of `M`.
    pub open spec fn bit(self, mode: AddressingMode) -> CpuState {
        let v = self.operand(mode);
        self.with_status(
            with_flag(
                with_flag(with_flag(self.status, ZERO, self.register_a & v == 0), OVERFLOW, v & 0x40 != 0),
                NEGATIVE,
                v & 0x80 != 0,
            ),
        )
    }

    /// Zero and Negative from `target - M`, Carry iff `target >= M`.
    pub open spec fn compare(self, mode: AddressingMode, target: u8) -> CpuState {
        let v = self.operand(mode);
        self.with_status(
            with_flag(with_zero_negative(self.status, wrap8(target - v)), CARRY, target >= v),
        )
    }

    // ---- shifts and rotates ----
    /// The accumulator or a memory byte replaced by `v`, with Carry set to
    /// `carry` and Zero and Negative from `v`.
    pub open spec fn shifted_a(self, v: u8, carry: bool) -> CpuState {
        CpuState {
            register_a: v,
            status: with_zero_negative(with_flag(self.status, CARRY, carry), v),
            ..self
        }
    }

    pub open spec fn shifted_mem(self, addr: u16, v: u8, carry: bool) -> CpuState {
        self.with_status(with_zero_negative(with_flag(self.status, CARRY, carry), v)).write(addr, v)
    }

    pub open spec fn asl_accumulator(self) -> CpuState {
        self.shifted_a(self.register_a << 1, self.register_a & 0x80 != 0)
    }

    pub open spec fn lsr_accumulator(self) -> CpuState {
        self.shifted_a(self.register_a >> 1, self.register_a & 1 != 0)
    }

    pub open spec fn rol_accumulator(self) -> CpuState {
        self.shifted_a(rol_value(self.register_a, self.carry()), self.register_a & 0x80 != 0)
    }

    pub open spec fn ror_accumulator(self) -> CpuState {
        self.shifted_a(ror_value(self.register_a, self.carry()), self.register_a & 1 != 0)
    }

    pub open spec fn asl(self, mode: AddressingMode) -> CpuState {
        let v = self.operand(mode);
        self.shifted_mem(self.operand_address(mode), v << 1, v & 0x80 != 0)
    }

    pub open spec fn lsr(self, mode: AddressingMode) -> CpuState {
        let v = self.operand(mode);
        self.shifted_mem(self.operand_address(mode), v >> 1, v & 1 != 0)
    }

    pub open spec fn rol(self, mode: AddressingMode) -> CpuState {
        let v = self.operand(mode);
        self.shifted_mem(self.operand_address(mode), rol_value(v, self.carry()), v & 0x80 != 0)
    }

    pub open spec fn ror(self, mode: AddressingMode) -> CpuState {
        let v = self.operand(mode);
        self.shifted_mem(self.operand_address(mode), ror_value(v, self.carry()), v & 1 != 0)
    }

    // ---- increments and decrements ----
    pub open spec fn inc(self, mode: AddressingMode) -> CpuState {
        let v = wrap8(self.operand(mode) + 1);
        self.with_status(with_zero_negative(self.status, v)).write(self.operand_address(mode), v)
    }

    pub open spec fn dec(self, mode: AddressingMode) -> CpuState {
        let v = wrap8(self.operand(mode) - 1);
        self.with_status(with_zero_negative(self.status, v)).write(self.operand_address(mode), v)
    }

    pub open spec fn inx(self) -> CpuState {
        self.with_x(wrap8(self.register_x + 1))
    }

    pub open spec fn iny(self) -> CpuState {
        self.with_y(wrap8(self.register_y + 1))
    }

    pub open spec fn dex(self) -> CpuState {
        self.with_x(wrap8(self.register_x - 1))
    }

    pub open spec fn dey(self) -> CpuState {
        self.with_y(wrap8(self.register_y - 1))
    }

    // ---- stack instructions ----
    pub open spec fn pha(self) -> CpuState {
        self.push(self.register_a)
    }

    pub open spec fn pla(self) -> CpuState {
        self.drop_top().with_a(self.top())
    }

    pub open spec fn php(self) -> CpuState {
        self.push(pushed_status(self.status))
    }

    pub open spec fn plp(self) -> CpuState {
        self.drop_top().with_status(pulled_status(self.top()))
    }

    // ---- control flow ----
    pub open spec fn jmp_absolute(self) -> CpuState {
        self.with_pc(self.read_u16(self.program_counter))
    }

    /// The vector's high byte comes from the start of the vector's page when
    /// its low byte sits at the end of a page, as on the chip.
    pub open spec fn jmp_indirect(self) -> CpuState {
        let v = self.read_u16(self.program_counter);
        let target = if v & 0x00FF == 0x00FF {
            word(self.read(v), self.read(v & 0xFF00))
        } else {
            self.read_u16(v)
        };
        self.with_pc(target)
    }

    /// Pushes the address of the last operand byte, then jumps.
    pub open spec fn jsr(self) -> CpuState {
        let pushed = self.push_u16(wrap16(self.program_counter + 1));
        pushed.with_pc(pushed.read_u16(self.program_counter))
    }

    pub open spec fn rts(self) -> CpuState {
        self.drop_top_u16().with_pc(wrap16(self.top_u16() + 1))
    }

    pub open spec fn rti(self) -> CpuState {
        let s = self.drop_top().with_status(pulled_status(self.top()));
        s.drop_top_u16().with_pc(s.top_u16())
    }

    pub open spec fn branch(self, condition: bool) -> CpuState {
        if condition {
            self.with_pc(branch_target(self.program_counter, self.read(self.program_counter)))
        } else {
            self
        }
    }

    pub open spec fn flag_set(self, mask: u8, on: bool) -> CpuState {
        self.with_status(with_flag(self.status, mask, on))
    }

    // ---- decode and dispatch ----
    /// The effect of the instruction `op`, the program counter being at its
    /// first operand byte. BRK is not executed: it halts the loop.
    pub open spec fn execute(self, op: OpCode) -> CpuState {
        let mode = op.mode;
        let s = self;
        match op.mnemonic {
            Mnemonic::Adc => s.adc(mode),
            Mnemonic::And => s.and(mode),
            Mnemonic::Asl => if mode == AddressingMode::NoneAddressing {
                s.asl_accumulator()
            } else {
                s.asl(mode)
            },
            Mnemonic::Bcc => s.branch(s.status & CARRY == 0),
            Mnemonic::Bcs => s.branch(s.status & CARRY != 0),
            Mnemonic::Beq => s.branch(s.status & ZERO != 0),
            Mnemonic::Bit => s.bit(mode),
            Mnemonic::Bmi => s.branch(s.status & NEGATIVE != 0),
            Mnemonic::Bne => s.branch(s.status & ZERO == 0),
            Mnemonic::Bpl => s.branch(s.status & NEGATIVE == 0),
            Mnemonic::Brk => s,
            Mnemonic::Bvc => s.branch(s.status & OVERFLOW == 0),
            Mnemonic::Bvs => s.branch(s.status & OVERFLOW != 0),
            Mnemonic::Clc => s.flag_set(CARRY, false),
            Mnemonic::Cld => s.flag_set(DECIMAL_MODE, false),
            Mnemonic::Cli => s.flag_set(INTERRUPT_DISABLE, false),
            Mnemonic::Clv => s.flag_set(OVERFLOW, false),
            Mnemonic::Cmp => s.compare(mode, s.register_a),
            Mnemonic::Cpx => s.compare(mode, s.register_x),
            Mnemonic::Cpy => s.compare(mode, s.register_y),
            Mnemonic::Dec => s.dec(mode),
            Mnemonic::Dex => s.dex(),
            Mnemonic::Dey => s.dey(),
            Mnemonic::Eor => s.eor(mode),
            Mnemonic::Inc => s.inc(mode),
            Mnemonic::Inx => s.inx(),
            Mnemonic::Iny => s.iny(),
            Mnemonic::Jmp => if mode == AddressingMode::NoneAddressing {
                s.jmp_indirect()
            } else {
                s.jmp_absolute()
            },
            Mnemonic::Jsr => s.jsr(),
            Mnemonic::Lda => s.lda(mode),
            Mnemonic::Ldx => s.ldx(mode),
            Mnemonic::Ldy => s.ldy(mode),
            Mnemonic::Lsr => if mode == AddressingMode::NoneAddressing {
                s.lsr_accumulator()
            } else {
                s.lsr(mode)
            },
            Mnemonic::Nop => s,
            Mnemonic::Ora => s.ora(mode),
            Mnemonic::Pha => s.pha(),
            Mnemonic::Php => s.php(),
            Mnemonic::Pla => s.pla(),
            Mnemonic::Plp => s.plp(),
            Mnemonic::Rol => if mode == AddressingMode::NoneAddressing {
                s.rol_accumulator()
            } else {
                s.rol(mode)
            },
            Mnemonic::Ror => if mode == AddressingMode::NoneAddressing {
                s.ror_accumulator()
            } else {
                s.ror(mode)
            },
            Mnemonic::Rti => s.rti(),
            Mnemonic::Rts => s.rts(),
            Mnemonic::Sbc => s.sbc(mode),
            Mnemonic::Sec => s.flag_set(CARRY, true),
            Mnemonic::Sed => s.flag_set(DECIMAL_MODE, true),
            Mnemonic::Sei => s.flag_set(INTERRUPT_DISABLE, true),
            Mnemonic::Sta => s.sta(mode),
            Mnemonic::Stx => s.stx(mode),
            Mnemonic::Sty => s.sty(mode),
            Mnemonic::Tax => s.tax(),
            Mnemonic::Tay => s.tay(),
            Mnemonic::Tsx => s.tsx(),
            Mnemonic::Txa => s.txa(),
            Mnemonic::Txs => s.txs(),
            Mnemonic::Tya => s.tya(),
        }
    }

    /// One iteration of the loop: fetch, look up, execute, and skip the
    /// operand bytes unless the instruction moved the program counter itself.
    pub open spec fn step(self) -> Step {
        let code = self.read(self.program_counter);
        match opcode_table(code) {
            None => Step::Fault(CpuError::UnimplementedOpcode { code, pc: self.program_counter }),
            Some(op) => {
                let fetched = self.with_pc(wrap16(self.program_counter + 1));
                if op.mnemonic == Mnemonic::Brk {
                    Step::Halt(fetched)
                } else {
                    let done = fetched.execute(op);
                    if done.program_counter == fetched.program_counter {
                        Step::Next(done.with_pc(wrap16(fetched.program_counter + op.len - 1)))
                    } else {
                        Step::Next(done)
                    }
                }
            },
        }
    }

    /// Runs at most `fuel` instructions, stopping at BRK or at a fault.
    pub open spec fn run(self, fuel: nat) -> Outcome
        decreases fuel,
    {
        if fuel == 0 {
            Outcome::OutOfSteps(self)
        } else {
            match self.step() {
                Step::Next(s) => s.run((fuel - 1) as nat),
                Step::Halt(s) => Outcome::Halted(s),
                Step::Fault(e) => Outcome::Faulted(self, e),
            }
        }
    }
}

} // verus!
