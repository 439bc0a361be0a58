//! Laws of the model that relate several instructions or several steps.
use vstd::prelude::*;
use crate::flags::{flag, with_flag, with_zero_negative, CARRY, OVERFLOW};
use crate::opcodes::{opcode_table, transfers_control, AddressingMode};
use crate::state::{wrap16, wrap8, CpuState, Step};

verus! {

/// Pulling right after a push gives back the pushed byte and puts the stack
/// pointer back where it was.
pub proof fn lemma_push_then_pop(s: CpuState, v: u8)
    requires
        s.well_formed(),
    ensures
        s.push(v).top() == v,
        s.push(v).drop_top().stack_pointer == s.stack_pointer,
{
}

/// Pulling a word right after pushing it gives the word back, low byte first
/// off the stack, and puts the stack pointer back where it was.
pub proof fn lemma_push_then_pop_u16(s: CpuState, v: u16)
    requires
        s.well_formed(),
    ensures
        s.push_u16(v).top() == v % 0x100,
        s.push_u16(v).top_u16() == v,
        s.push_u16(v).drop_top_u16().stack_pointer == s.stack_pointer,
{
}

/// After an instruction that does not transfer control, the program counter
/// is one past its last byte.
pub proof fn lemma_straight_line(s: CpuState)
    requires
        s.well_formed(),
        opcode_table(s.read(s.program_counter)) matches Some(op) && !transfers_control(
            op.mnemonic,
        ),
    ensures
        s.step() matches Step::Next(t) && t.program_counter == wrap16(
            s.program_counter + opcode_table(s.read(s.program_counter))->Some_0.len,
        ),
{
}

/// A JSR whose target holds an RTS comes back to the byte after the JSR's
/// operand, three bytes on from the call, with the stack pointer where it
/// was. The call and its operand lie above the stack page and below the top
/// of memory, the target lies outside the stack page, and the target is not
/// the JSR's own operand address.
pub proof fn lemma_call_return(s: CpuState)
    requires
        s.well_formed(),
        s.read(s.program_counter) == 0x20,
        0x0200 <= s.program_counter <= 0xFFFC,
        !(0x0100 <= s.read_u16((s.program_counter + 1) as u16) <= 0x01FF),
        s.read_u16((s.program_counter + 1) as u16) != s.program_counter + 1,
        s.read(s.read_u16((s.program_counter + 1) as u16)) == 0x60,
    ensures
        s.step() matches Step::Next(t) && t.step() matches Step::Next(u) && u.program_counter
            == s.program_counter + 3 && u.stack_pointer == s.stack_pointer,
{
    reveal(opcode_table);
}

/// A byte read as a two's-complement signed number.
pub open spec fn signed(v: u8) -> int {
    if v < 0x80 {
        v as int
    } else {
        v - 0x100
    }
}

/// Setting Zero and Negative after Carry and Overflow keeps those two.
proof fn lemma_zero_negative_keeps_carry_overflow(status: u8, o: bool, c: bool, r: u8)
    ensures
        flag(with_zero_negative(with_flag(with_flag(status, OVERFLOW, o), CARRY, c), r), CARRY)
            == c,
        flag(with_zero_negative(with_flag(with_flag(status, OVERFLOW, o), CARRY, c), r), OVERFLOW)
            == o,
{
    assert(flag(with_zero_negative(with_flag(with_flag(status, OVERFLOW, o), CARRY, c), r), CARRY)
        == c) by (bit_vector);
    assert(flag(with_zero_negative(with_flag(with_flag(status, OVERFLOW, o), CARRY, c), r), OVERFLOW)
        == o) by (bit_vector);
}

/// ADC adds the operand and Carry; Carry comes out set exactly when the
/// unsigned sum exceeds a byte, and Overflow exactly when the signed sum
/// leaves the range of a signed byte.
pub proof fn lemma_adc_adds(s: CpuState, mode: AddressingMode)
    ensures
        ({
            let m = s.operand(mode);
            let c: int = if s.carry() { 1 } else { 0 };
            let t = s.adc(mode);
            &&& t.register_a == wrap8(s.register_a + m + c)
            &&& t.carry() <==> s.register_a + m + c > 0xFF
            &&& flag(t.status, OVERFLOW) <==> !(-0x80 <= signed(s.register_a) + signed(m) + c
                <= 0x7F)
        }),
{
    let m = s.operand(mode);
    let a = s.register_a;
    let c: int = if s.carry() { 1 } else { 0 };
    let sum = a + m + c;
    let r = wrap8(sum);
    lemma_zero_negative_keeps_carry_overflow(s.status, (m ^ r) & (a ^ r) & 0x80 != 0, sum > 0xFF, r);
    let cu: u8 = c as u8;
    assert((m ^ ((a + m + cu) % 0x100) as u8) & (a ^ ((a + m + cu) % 0x100) as u8) & 0x80 != 0
        <==> !(-0x80 <= (if a < 0x80 { a as int } else { a - 0x100 }) + (if m < 0x80 {
        m as int
    } else {
        m - 0x100
    }) + cu <= 0x7F)) by (bit_vector)
        requires
            cu <= 1,
    ;
}

/// SBC subtracts the operand and a borrow of one when Carry is clear, and
/// leaves Carry set exactly when no borrow occurred.
pub proof fn lemma_sbc_subtracts(s: CpuState, mode: AddressingMode)
    ensures
        ({
            let m = s.operand(mode);
            let d = s.register_a - m - (if s.carry() { 0int } else { 1int });
            let t = s.sbc(mode);
            &&& t.register_a == wrap8(d)
            &&& t.carry() <==> d >= 0
        }),
{
    let m = s.operand(mode);
    assert(!m == 0xFF - m) by (bit_vector);
    let c: int = if s.carry() { 1 } else { 0 };
    let sum = s.register_a + !m + c;
    let r = wrap8(sum);
    lemma_zero_negative_keeps_carry_overflow(
        s.status,
        (!m ^ r) & (s.register_a ^ r) & 0x80 != 0,
        sum > 0xFF,
        r,
    );
}

} // verus!
