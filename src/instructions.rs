//! The instruction handlers, each proved to have the effect that the model
//! gives the instruction, and the flag logic they share.
use vstd::prelude::*;
use crate::cpu::CPU;
use crate::flags::{
    set_flag, with_flag, with_zero_negative, BREAK, CARRY, NEGATIVE, OVERFLOW, UNUSED, ZERO,
};
use crate::opcodes::AddressingMode;

verus! {

impl CPU {
    // ---- flag logic ----
    /// Zero iff `result` is zero, Negative iff its bit 7 is set.
    pub(crate) fn update_zero_and_negative_flags(&mut self, result: u8)
        ensures
            final(self)@ == old(self)@.with_status(with_zero_negative(old(self).status, result)),
    {
        self.status = set_flag(self.status, ZERO, result == 0);
        self.status = set_flag(self.status, NEGATIVE, result & 0x80 != 0);
    }

    /// Carry iff the 9-bit `result` does not fit in a byte.
    pub(crate) fn update_carry_flag(&mut self, result: u16)
        ensures
            final(self)@ == old(self)@.with_status(with_flag(old(self).status, CARRY, result > 0xFF)),
    {
        self.status = set_flag(self.status, CARRY, result > 0xFF);
    }

    /// Overflow iff `data` and `value` share a sign that `result` lacks.
    pub(crate) fn update_overflow_flag(&mut self, data: u8, value: u8, result: u8)
        ensures
            final(self)@ == old(self)@.with_status(
                with_flag(old(self).status, OVERFLOW, (data ^ result) & (value ^ result) & 0x80 != 0),
            ),
    {
        self.status = set_flag(
            self.status,
            OVERFLOW,
            (data ^ result) & (value ^ result) & 0x80 != 0,
        );
    }

    pub(crate) fn add_to_register_a(&mut self, data: u8)
        ensures
            final(self)@ == old(self)@.add_to_register_a(data),
    {
        let carry: u16 = if self.status & CARRY != 0 {
            1
        } else {
            0
        };
        let sum: u16 = self.register_a as u16 + data as u16 + carry;
        let result = (sum % 0x100) as u8;
        self.update_overflow_flag(data, self.register_a, result);
        self.update_carry_flag(sum);
        self.register_a = result;
        self.update_zero_and_negative_flags(result);
    }

    // ---- loads, stores, transfers ----
    pub(crate) fn lda(&mut self, mode: &AddressingMode)
        requires
            *mode != AddressingMode::NoneAddressing,
        ensures
            final(self)@ == old(self)@.lda(*mode),
    {
        let addr = self.operand_address(mode);
        let value = self.mem_read(addr);
        self.register_a = value;
        self.update_zero_and_negative_flags(value);
    }

    pub(crate) fn ldx(&mut self, mode: &AddressingMode)
        requires
            *mode != AddressingMode::NoneAddressing,
        ensures
            final(self)@ == old(self)@.ldx(*mode),
    {
        let addr = self.operand_address(mode);
        let value = self.mem_read(addr);
        self.register_x = value;
        self.update_zero_and_negative_flags(value);
    }

    pub(crate) fn ldy(&mut self, mode: &AddressingMode)
        requires
            *mode != AddressingMode::NoneAddressing,
        ensures
            final(self)@ == old(self)@.ldy(*mode),
    {
        let addr = self.operand_address(mode);
        let value = self.mem_read(addr);
        self.register_y = value;
        self.update_zero_and_negative_flags(value);
    }

    pub(crate) fn sta(&mut self, mode: &AddressingMode)
        requires
            *mode != AddressingMode::NoneAddressing,
        ensures
            final(self)@ == old(self)@.sta(*mode),
    {
        let addr = self.operand_address(mode);
        self.mem_write(addr, self.register_a);
    }

    pub(crate) fn stx(&mut self, mode: &AddressingMode)
        requires
            *mode != AddressingMode::NoneAddressing,
        ensures
            final(self)@ == old(self)@.stx(*mode),
    {
        let addr = self.operand_address(mode);
        self.mem_write(addr, self.register_x);
    }

    pub(crate) fn sty(&mut self, mode: &AddressingMode)
        requires
            *mode != AddressingMode::NoneAddressing,
        ensures
            final(self)@ == old(self)@.sty(*mode),
    {
        let addr = self.operand_address(mode);
        self.mem_write(addr, self.register_y);
    }

    pub(crate) fn tax(&mut self)
        ensures
            final(self)@ == old(self)@.tax(),
    {
        self.register_x = self.register_a;
        self.update_zero_and_negative_flags(self.register_x);
    }

    pub(crate) fn tay(&mut self)
        ensures
            final(self)@ == old(self)@.tay(),
    {
        self.register_y = self.register_a;
        self.update_zero_and_negative_flags(self.register_y);
    }

    pub(crate) fn txa(&mut self)
        ensures
            final(self)@ == old(self)@.txa(),
    {
        self.register_a = self.register_x;
        self.update_zero_and_negative_flags(self.register_a);
    }

    pub(crate) fn tya(&mut self)
        ensures
            final(self)@ == old(self)@.tya(),
    {
        self.register_a = self.register_y;
        self.update_zero_and_negative_flags(self.register_a);
    }

    pub(crate) fn tsx(&mut self)
        ensures
            final(self)@ == old(self)@.tsx(),
    {
        self.register_x = self.stack_pointer;
        self.update_zero_and_negative_flags(self.register_x);
    }

    // ---- arithmetic and logic ----
    pub(crate) fn adc(&mut self, mode: &AddressingMode)
        requires
            *mode != AddressingMode::NoneAddressing,
        ensures
            final(self)@ == old(self)@.adc(*mode),
    {
        let addr = self.operand_address(mode);
        let value = self.mem_read(addr);
        self.add_to_register_a(value);
    }

    /// Adds the one's complement of the operand: Carry afterwards means that
    /// no borrow occurred.
    pub(crate) fn sbc(&mut self, mode: &AddressingMode)
        requires
            *mode != AddressingMode::NoneAddressing,
        ensures
            final(self)@ == old(self)@.sbc(*mode),
    {
        let addr = self.operand_address(mode);
        let value = self.mem_read(addr);
        self.add_to_register_a(!value);
    }

    pub(crate) fn and(&mut self, mode: &AddressingMode)
        requires
            *mode != AddressingMode::NoneAddressing,
        ensures
            final(self)@ == old(self)@.and(*mode),
    {
        let addr = self.operand_address(mode);
        let value = self.mem_read(addr);
        self.register_a = self.register_a & value;
        self.update_zero_and_negative_flags(self.register_a);
    }

    pub(crate) fn eor(&mut self, mode: &AddressingMode)
        requires
            *mode != AddressingMode::NoneAddressing,
        ensures
            final(self)@ == old(self)@.eor(*mode),
    {
        let addr = self.operand_address(mode);
        let value = self.mem_read(addr);
        self.register_a = self.register_a ^ value;
        self.update_zero_and_negative_flags(self.register_a);
    }

    pub(crate) fn ora(&mut self, mode: &AddressingMode)
        requires
            *mode != AddressingMode::NoneAddressing,
        ensures
            final(self)@ == old(self)@.ora(*mode),
    {
        let addr = self.operand_address(mode);
        let value = self.mem_read(addr);
        self.register_a = self.register_a | value;
        self.update_zero_and_negative_flags(self.register_a);
    }

    pub(crate) fn bit(&mut self, mode: &AddressingMode)
        requires
            *mode != AddressingMode::NoneAddressing,
        ensures
            final(self)@ == old(self)@.bit(*mode),
    {
        let addr = self.operand_address(mode);
        let value = self.mem_read(addr);
        self.status = set_flag(self.status, ZERO, self.register_a & value == 0);
        self.status = set_flag(self.status, OVERFLOW, value & 0x40 != 0);
        self.status = set_flag(self.status, NEGATIVE, value & 0x80 != 0);
    }

    /// Zero and Negative from `target - operand`, Carry iff `target >= operand`.
    pub(crate) fn compare(&mut self, mode: &AddressingMode, target: u8)
        requires
            *mode != AddressingMode::NoneAddressing,
        ensures
            final(self)@ == old(self)@.compare(*mode, target),
    {
        let addr = self.operand_address(mode);
        let value = self.mem_read(addr);
        self.update_zero_and_negative_flags(target.wrapping_sub(value));
        self.status = set_flag(self.status, CARRY, target >= value);
    }

    // ---- shifts and rotates ----
    pub(crate) fn asl_accumulator(&mut self)
        ensures
            final(self)@ == old(self)@.asl_accumulator(),
    {
        let a = self.register_a;
        self.status = set_flag(self.status, CARRY, a & 0x80 != 0);
        self.register_a = a << 1;
        self.update_zero_and_negative_flags(self.register_a);
    }

    pub(crate) fn asl(&mut self, mode: &AddressingMode)
        requires
            *mode != AddressingMode::NoneAddressing,
        ensures
            final(self)@ == old(self)@.asl(*mode),
    {
        let addr = self.operand_address(mode);
        let data = self.mem_read(addr);
        self.status = set_flag(self.status, CARRY, data & 0x80 != 0);
        self.update_zero_and_negative_flags(data << 1);
        self.mem_write(addr, data << 1);
    }

    pub(crate) fn lsr_accumulator(&mut self)
        ensures
            final(self)@ == old(self)@.lsr_accumulator(),
    {
        let a = self.register_a;
        self.status = set_flag(self.status, CARRY, a & 1 != 0);
        self.register_a = a >> 1;
        self.update_zero_and_negative_flags(self.register_a);
    }

    pub(crate) fn lsr(&mut self, mode: &AddressingMode)
        requires
            *mode != AddressingMode::NoneAddressing,
        ensures
            final(self)@ == old(self)@.lsr(*mode),
    {
        let addr = self.operand_address(mode);
        let data = self.mem_read(addr);
        self.status = set_flag(self.status, CARRY, data & 1 != 0);
        self.update_zero_and_negative_flags(data >> 1);
        self.mem_write(addr, data >> 1);
    }

    pub(crate) fn rol_accumulator(&mut self)
        ensures
            final(self)@ == old(self)@.rol_accumulator(),
    {
        let a = self.register_a;
        let rotated = if self.status & CARRY != 0 {
            (a << 1) | 1
        } else {
            a << 1
        };
        self.status = set_flag(self.status, CARRY, a & 0x80 != 0);
        self.register_a = rotated;
        self.update_zero_and_negative_flags(rotated);
    }

    pub(crate) fn rol(&mut self, mode: &AddressingMode)
        requires
            *mode != AddressingMode::NoneAddressing,
        ensures
            final(self)@ == old(self)@.rol(*mode),
    {
        let addr = self.operand_address(mode);
        let data = self.mem_read(addr);
        let rotated = if self.status & CARRY != 0 {
            (data << 1) | 1
        } else {
            data << 1
        };
        self.status = set_flag(self.status, CARRY, data & 0x80 != 0);
        self.update_zero_and_negative_flags(rotated);
        self.mem_write(addr, rotated);
    }

    pub(crate) fn ror_accumulator(&mut self)
        ensures
            final(self)@ == old(self)@.ror_accumulator(),
    {
        let a = self.register_a;
        let rotated = if self.status & CARRY != 0 {
            (a >> 1) | 0x80
        } else {
            a >> 1
        };
        self.status = set_flag(self.status, CARRY, a & 1 != 0);
        self.register_a = rotated;
        self.update_zero_and_negative_flags(rotated);
    }

    pub(crate) fn ror(&mut self, mode: &AddressingMode)
        requires
            *mode != AddressingMode::NoneAddressing,
        ensures
            final(self)@ == old(self)@.ror(*mode),
    {
        let addr = self.operand_address(mode);
        let data = self.mem_read(addr);
        let rotated = if self.status & CARRY != 0 {
            (data >> 1) | 0x80
        } else {
            data >> 1
        };
        self.status = set_flag(self.status, CARRY, data & 1 != 0);
        self.update_zero_and_negative_flags(rotated);
        self.mem_write(addr, rotated);
    }

    // ---- increments and decrements ----
    pub(crate) fn inc(&mut self, mode: &AddressingMode)
        requires
            *mode != AddressingMode::NoneAddressing,
        ensures
            final(self)@ == old(self)@.inc(*mode),
    {
        let addr = self.operand_address(mode);
        let value = self.mem_read(addr).wrapping_add(1);
        self.update_zero_and_negative_flags(value);
        self.mem_write(addr, value);
    }

    pub(crate) fn dec(&mut self, mode: &AddressingMode)
        requires
            *mode != AddressingMode::NoneAddressing,
        ensures
            final(self)@ == old(self)@.dec(*mode),
    {
        let addr = self.operand_address(mode);
        let value = self.mem_read(addr).wrapping_sub(1);
        self.update_zero_and_negative_flags(value);
        self.mem_write(addr, value);
    }

    pub(crate) fn inx(&mut self)
        ensures
            final(self)@ == old(self)@.inx(),
    {
        self.register_x = self.register_x.wrapping_add(1);
        self.update_zero_and_negative_flags(self.register_x);
    }

    pub(crate) fn iny(&mut self)
        ensures
            final(self)@ == old(self)@.iny(),
    {
        self.register_y = self.register_y.wrapping_add(1);
        self.update_zero_and_negative_flags(self.register_y);
    }

    pub(crate) fn dex(&mut self)
        ensures
            final(self)@ == old(self)@.dex(),
    {
        self.register_x = self.register_x.wrapping_sub(1);
        self.update_zero_and_negative_flags(self.register_x);
    }

    pub(crate) fn dey(&mut self)
        ensures
            final(self)@ == old(self)@.dey(),
    {
        self.register_y = self.register_y.wrapping_sub(1);
        self.update_zero_and_negative_flags(self.register_y);
    }

    // ---- stack instructions ----
    pub(crate) fn pla(&mut self)
        ensures
            final(self)@ == old(self)@.pla(),
    {
        self.register_a = self.pop();
        self.update_zero_and_negative_flags(self.register_a);
    }

    /// Pushes the status with Break and bit 5 set.
    pub(crate) fn php(&mut self)
        ensures
            final(self)@ == old(self)@.php(),
    {
        self.push(self.status | BREAK | UNUSED);
    }

    /// Pulls the status, dropping Break and keeping bit 5 set.
    pub(crate) fn plp(&mut self)
        ensures
            final(self)@ == old(self)@.plp(),
    {
        self.status = (self.pop() & !BREAK) | UNUSED;
    }

    // ---- control flow ----
    pub(crate) fn jmp_absolute(&mut self)
        ensures
            final(self)@ == old(self)@.jmp_absolute(),
    {
        self.program_counter = self.mem_read_u16(self.program_counter);
    }

    /// Reproduces the chip's page-wrap defect: a vector whose low byte is at
    /// the end of a page takes its high byte from the start of that page.
    pub(crate) fn jmp_indirect(&mut self)
        ensures
            final(self)@ == old(self)@.jmp_indirect(),
    {
        let addr = self.mem_read_u16(self.program_counter);
        let target = if addr & 0x00FF == 0x00FF {
            let lo = self.mem_read(addr) as u16;
            let hi = self.mem_read(addr & 0xFF00) as u16;
            hi * 0x100 + lo
        } else {
            self.mem_read_u16(addr)
        };
        self.program_counter = target;
    }

    /// Pushes the address of the last operand byte (`RTS` adds the one back),
    /// then jumps to the operand.
    pub(crate) fn jsr(&mut self)
        ensures
            final(self)@ == old(self)@.jsr(),
    {
        let pc = self.program_counter;
        self.push_u16(pc.wrapping_add(1));
        self.program_counter = self.mem_read_u16(pc);
    }

    pub(crate) fn rts(&mut self)
        ensures
            final(self)@ == old(self)@.rts(),
    {
        self.program_counter = self.pop_u16().wrapping_add(1);
    }

    pub(crate) fn rti(&mut self)
        ensures
            final(self)@ == old(self)@.rti(),
    {
        self.plp();
        self.program_counter = self.pop_u16();
    }

    /// Adds the signed offset at the program counter, counted from the next
    /// instruction, when `condition` holds.
    pub(crate) fn branch(&mut self, condition: bool)
        ensures
            final(self)@ == old(self)@.branch(condition),
    {
        if condition {
            let offset = self.mem_read(self.program_counter);
            let next = self.program_counter.wrapping_add(1);
            self.program_counter = if offset < 0x80 {
                next.wrapping_add(offset as u16)
            } else {
                next.wrapping_sub(0x100 - offset as u16)
            };
        }
    }
}

} // verus!
