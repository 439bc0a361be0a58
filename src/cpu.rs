//! The processor: register file and memory, the memory and stack primitives,
//! the addressing-mode resolver, and the fetch-decode-execute loop.
use vstd::prelude::*;
use crate::opcodes::AddressingMode;
use crate::state::{
    CpuError, CpuState, PROGRAM_START, RESET_VECTOR, STACK, STACK_RESET, STATUS_RESET,
};

verus! {

/// One 6502 processor with its own 64 KiB of memory.
pub struct CPU {
    /// The accumulator.
    pub register_a: u8,
    pub register_x: u8,
    pub register_y: u8,
    /// Flags, bit 7 to bit 0: Negative, Overflow, unused, Break, Decimal,
    /// Interrupt-Disable, Zero, Carry.
    pub status: u8,
    /// Offset of the next free byte in the stack page.
    pub stack_pointer: u8,
    pub program_counter: u16,
    pub memory: [u8; 0x1_0000],
}

impl View for CPU {
    type V = CpuState;

    open spec fn view(&self) -> CpuState {
        CpuState {
            register_a: self.register_a,
            register_x: self.register_x,
            register_y: self.register_y,
            status: self.status,
            stack_pointer: self.stack_pointer,
            program_counter: self.program_counter,
            memory: self.memory@,
        }
    }
}

/// The state of a new processor: every register and memory byte zero but the
/// status, at its power-on value, and the stack pointer, at its reset value.
pub open spec fn power_on() -> CpuState {
    CpuState {
        register_a: 0,
        register_x: 0,
        register_y: 0,
        status: STATUS_RESET,
        stack_pointer: STACK_RESET,
        program_counter: 0,
        memory: Seq::new(0x1_0000, |i: int| 0u8),
    }
}

impl CPU {
    pub fn new() -> (r: CPU)
        ensures
            r@ == power_on(),
    {
        let r = CPU {
            register_a: 0,
            register_x: 0,
            register_y: 0,
            stack_pointer: STACK_RESET,
            status: STATUS_RESET,
            program_counter: 0,
            memory: [0u8; 0x1_0000],
        };
        assert(r@.memory =~= power_on().memory);
        r
    }

    // ---- memory ----
    pub fn mem_read(&self, addr: u16) -> (r: u8)
        ensures
            r == self@.read(addr),
    {
        self.memory[addr as usize]
    }

    pub fn mem_write(&mut self, addr: u16, data: u8)
        ensures
            final(self)@ == old(self)@.write(addr, data),
    {
        self.memory[addr as usize] = data;
    }

    pub fn mem_read_u16(&self, pos: u16) -> (r: u16)
        ensures
            r == self@.read_u16(pos),
    {
        let lo = self.mem_read(pos) as u16;
        let hi = self.mem_read(pos.wrapping_add(1)) as u16;
        hi * 0x100 + lo
    }

    pub fn mem_write_u16(&mut self, pos: u16, data: u16)
        ensures
            final(self)@ == old(self)@.write_u16(pos, data),
    {
        let hi = (data / 0x100) as u8;
        let lo = (data % 0x100) as u8;
        self.mem_write(pos, lo);
        self.mem_write(pos.wrapping_add(1), hi);
    }

    // ---- stack ----
    pub fn push(&mut self, value: u8)
        ensures
            final(self)@ == old(self)@.push(value),
    {
        self.stack_pointer = self.stack_pointer.wrapping_sub(1);
        self.mem_write(STACK + self.stack_pointer as u16, value);
    }

    pub fn push_u16(&mut self, data: u16)
        ensures
            final(self)@ == old(self)@.push_u16(data),
    {
        let hi = (data / 0x100) as u8;
        let lo = (data % 0x100) as u8;
        self.push(hi);
        self.push(lo);
    }

    pub fn pop(&mut self) -> (r: u8)
        ensures
            r == old(self)@.top(),
            final(self)@ == old(self)@.drop_top(),
    {
        let data = self.mem_read(STACK + self.stack_pointer as u16);
        self.stack_pointer = self.stack_pointer.wrapping_add(1);
        data
    }

    pub fn pop_u16(&mut self) -> (r: u16)
        ensures
            r == old(self)@.top_u16(),
            final(self)@ == old(self)@.drop_top_u16(),
    {
        let lo = self.pop() as u16;
        let hi = self.pop() as u16;
        hi * 0x100 + lo
    }

    // ---- addressing ----
    /// The effective address of the operand for `mode`, the program counter
    /// being at the first operand byte; `NoneAddressing` has none.
    pub fn get_operand_address(&self, mode: &AddressingMode) -> (r: Result<u16, CpuError>)
        ensures
            *mode == AddressingMode::NoneAddressing ==> r == Err::<u16, CpuError>(
                CpuError::InvalidAddressingRequest,
            ),
            *mode != AddressingMode::NoneAddressing ==> r == Ok::<u16, CpuError>(
                self@.operand_address(*mode),
            ),
    {
        match mode {
            AddressingMode::NoneAddressing => Err(CpuError::InvalidAddressingRequest),
            _ => Ok(self.operand_address(mode)),
        }
    }

    #[verifier::rlimit(30)]
    pub(crate) fn operand_address(&self, mode: &AddressingMode) -> (r: u16)
        requires
            *mode != AddressingMode::NoneAddressing,
        ensures
            r == self@.operand_address(*mode),
    {
        let pc = self.program_counter;
        match mode {
            AddressingMode::Immediate => pc,
            AddressingMode::ZeroPage => self.mem_read(pc) as u16,
            AddressingMode::ZeroPage_X => self.mem_read(pc).wrapping_add(self.register_x) as u16,
            AddressingMode::ZeroPage_Y => self.mem_read(pc).wrapping_add(self.register_y) as u16,
            AddressingMode::Absolute => self.mem_read_u16(pc),
            AddressingMode::Absolute_X => self.mem_read_u16(pc).wrapping_add(
                self.register_x as u16,
            ),
            AddressingMode::Absolute_Y => self.mem_read_u16(pc).wrapping_add(
                self.register_y as u16,
            ),
            AddressingMode::Indirect_X => {
                let ptr = self.mem_read(pc).wrapping_add(self.register_x);
                let lo = self.mem_read(ptr as u16) as u16;
                let hi = self.mem_read(ptr.wrapping_add(1) as u16) as u16;
                hi * 0x100 + lo
            },
            AddressingMode::Indirect_Y => {
                let ptr = self.mem_read(pc);
                let lo = self.mem_read(ptr as u16) as u16;
                let hi = self.mem_read(ptr.wrapping_add(1) as u16) as u16;
                (hi * 0x100 + lo).wrapping_add(self.register_y as u16)
            },
            AddressingMode::NoneAddressing => pc,
        }
    }

    // ---- lifecycle ----
    /// Copies `program` to `0x8000` onwards and points the reset vector there.
    pub fn load(&mut self, program: Vec<u8>)
        requires
            program.len() <= 0x7FFF,
        ensures
            final(self)@ == old(self)@.load(program@),
    {
        let ghost start = self@;
        let n = program.len();
        let mut i: usize = 0;
        while i < n
            invariant
                n == program.len() <= 0x7FFF,
                0 <= i <= n,
                self@ == (CpuState { memory: self@.memory, ..start }),
                self@.memory =~= Seq::new(
                    0x1_0000,
                    |j: int|
                        if PROGRAM_START <= j < PROGRAM_START + i {
                            program@[j - PROGRAM_START]
                        } else {
                            start.memory[j]
                        },
                ),
            decreases n - i,
        {
            self.memory[0x8000 + i] = program[i];
            i = i + 1;
        }
        proof {
            assert(self@.memory =~= start.copy_program(program@).memory);
        }
        self.mem_write_u16(RESET_VECTOR, PROGRAM_START);
    }

    /// Registers, status and stack pointer to their reset values; the program
    /// counter from the reset vector.
    pub fn reset(&mut self)
        ensures
            final(self)@ == old(self)@.reset(),
    {
        self.register_a = 0;
        self.register_x = 0;
        self.register_y = 0;
        self.status = STATUS_RESET;
        self.stack_pointer = STACK_RESET;
        self.program_counter = self.mem_read_u16(RESET_VECTOR);
    }
}

} // verus!
