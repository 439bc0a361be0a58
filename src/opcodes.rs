//! The opcode table: for every legal opcode byte, its instruction, addressing
//! mode, length in bytes (opcode included) and base cycle count.
use vstd::prelude::*;

verus! {

use AddressingMode::{
    Immediate, ZeroPage, ZeroPage_X, ZeroPage_Y, Absolute, Absolute_X, Absolute_Y, Indirect_X,
    Indirect_Y, NoneAddressing,
};
use Mnemonic::{
    Adc, And, Asl, Bcc, Bcs, Beq, Bit, Bmi, Bne, Bpl, Brk, Bvc, Bvs, Clc, Cld, Cli, Clv,
    Cmp, Cpx, Cpy, Dec, Dex, Dey, Eor, Inc, Inx, Iny, Jmp, Jsr, Lda, Ldx, Ldy, Lsr, Nop,
    Ora, Pha, Php, Pla, Plp, Rol, Ror, Rti, Rts, Sbc, Sec, Sed, Sei, Sta, Stx, Sty, Tax,
    Tay, Tsx, Txa, Txs, Tya,
};

/// How an instruction finds its operand.
#[allow(non_camel_case_types)]
#[derive(Clone, Copy, Debug, PartialEq, Eq, Structural)]
pub enum AddressingMode {
    Immediate,
    ZeroPage,
    ZeroPage_X,
    ZeroPage_Y,
    Absolute,
    Absolute_X,
    Absolute_Y,
    Indirect_X,
    Indirect_Y,
    /// Register-only, accumulator, relative and indirect-jump forms: the
    /// instruction resolves no effective address through the resolver.
    NoneAddressing,
}

/// The official 6502 instructions.
#[derive(Clone, Copy, Debug, PartialEq, Eq, Structural)]
pub enum Mnemonic {
    Adc,
    And,
    Asl,
    Bcc,
    Bcs,
    Beq,
    Bit,
    Bmi,
    Bne,
    Bpl,
    Brk,
    Bvc,
    Bvs,
    Clc,
    Cld,
    Cli,
    Clv,
    Cmp,
    Cpx,
    Cpy,
    Dec,
    Dex,
    Dey,
    Eor,
    Inc,
    Inx,
    Iny,
    Jmp,
    Jsr,
    Lda,
    Ldx,
    Ldy,
    Lsr,
    Nop,
    Ora,
    Pha,
    Php,
    Pla,
    Plp,
    Rol,
    Ror,
    Rti,
    Rts,
    Sbc,
    Sec,
    Sed,
    Sei,
    Sta,
    Stx,
    Sty,
    Tax,
    Tay,
    Tsx,
    Txa,
    Txs,
    Tya,
}

/// One row of the opcode table.
#[derive(Clone, Copy, Debug, PartialEq, Eq, Structural)]
pub struct OpCode {
    pub code: u8,
    pub mnemonic: Mnemonic,
    pub mode: AddressingMode,
    pub len: u8,
    pub cycles: u8,
}

/// Instructions whose operand is reached through the addressing-mode resolver
/// in every form they take.
pub open spec fn reads_operand_address(m: Mnemonic) -> bool {
    match m {
        Adc | And | Bit | Cmp | Cpx | Cpy | Dec | Eor | Inc | Lda | Ldx | Ldy | Ora | Sbc | Sta
        | Stx | Sty => true,
        _ => false,
    }
}

/// Instructions that set the program counter themselves (BRK halts).
pub open spec fn transfers_control(m: Mnemonic) -> bool {
    match m {
        Bcc | Bcs | Beq | Bmi | Bne | Bpl | Bvc | Bvs | Brk | Jmp | Jsr | Rti | Rts => true,
        _ => false,
    }
}

pub open spec fn record(
    code: u8,
    mnemonic: Mnemonic,
    mode: AddressingMode,
    len: u8,
    cycles: u8,
) -> OpCode {
    OpCode { code, mnemonic, mode, len, cycles }
}

impl OpCode {
    pub fn new(code: u8, mnemonic: Mnemonic, mode: AddressingMode, len: u8, cycles: u8) -> (r:
        OpCode)
        ensures
            r == record(code, mnemonic, mode, len, cycles),
    {
        OpCode { code, mnemonic, mode, len, cycles }
    }

    /// A row is consistent when its length counts the opcode byte and at most
    /// two operand bytes, and an instruction that resolves an effective address
    /// has a mode to resolve it with.
    pub open spec fn well_formed(self) -> bool {
        &&& 1 <= self.len <= 3
        &&& reads_operand_address(self.mnemonic) ==> self.mode != NoneAddressing
    }
}

/// The table itself; `None` marks an illegal or unimplemented opcode byte.
#[verifier::opaque]
pub open spec fn opcode_table(code: u8) -> Option<OpCode> {
    match code {
        0x00 => Some(record(0x00, Brk, NoneAddressing, 1, 7)),
        0x01 => Some(record(0x01, Ora, Indirect_X, 2, 6)),
        0x05 => Some(record(0x05, Ora, ZeroPage, 2, 3)),
        0x06 => Some(record(0x06, Asl, ZeroPage, 2, 5)),
        0x08 => Some(record(0x08, Php, NoneAddressing, 1, 3)),
        0x09 => Some(record(0x09, Ora, Immediate, 2, 2)),
        0x0A => Some(record(0x0A, Asl, NoneAddressing, 1, 2)),
        0x0D => Some(record(0x0D, Ora, Absolute, 3, 4)),
        0x0E => Some(record(0x0E, Asl, Absolute, 3, 6)),
        0x10 => Some(record(0x10, Bpl, NoneAddressing, 2, 2)),
        0x11 => Some(record(0x11, Ora, Indirect_Y, 2, 5)),
        0x15 => Some(record(0x15, Ora, ZeroPage_X, 2, 4)),
        0x16 => Some(record(0x16, Asl, ZeroPage_X, 2, 6)),
        0x18 => Some(record(0x18, Clc, NoneAddressing, 1, 2)),
        0x19 => Some(record(0x19, Ora, Absolute_Y, 3, 4)),
        0x1D => Some(record(0x1D, Ora, Absolute_X, 3, 4)),
        0x1E => Some(record(0x1E, Asl, Absolute_X, 3, 7)),
        0x20 => Some(record(0x20, Jsr, Absolute, 3, 6)),
        0x21 => Some(record(0x21, And, Indirect_X, 2, 6)),
        0x24 => Some(record(0x24, Bit, ZeroPage, 2, 3)),
        0x25 => Some(record(0x25, And, ZeroPage, 2, 3)),
        0x26 => Some(record(0x26, Rol, ZeroPage, 2, 5)),
        0x28 => Some(record(0x28, Plp, NoneAddressing, 1, 4)),
        0x29 => Some(record(0x29, And, Immediate, 2, 2)),
        0x2A => Some(record(0x2A, Rol, NoneAddressing, 1, 2)),
        0x2C => Some(record(0x2C, Bit, Absolute, 3, 4)),
        0x2D => Some(record(0x2D, And, Absolute, 3, 4)),
        0x2E => Some(record(0x2E, Rol, Absolute, 3, 6)),
        0x30 => Some(record(0x30, Bmi, NoneAddressing, 2, 2)),
        0x31 => Some(record(0x31, And, Indirect_Y, 2, 5)),
        0x35 => Some(record(0x35, And, ZeroPage_X, 2, 4)),
        0x36 => Some(record(0x36, Rol, ZeroPage_X, 2, 6)),
        0x38 => Some(record(0x38, Sec, NoneAddressing, 1, 2)),
        0x39 => Some(record(0x39, And, Absolute_Y, 3, 4)),
        0x3D => Some(record(0x3D, And, Absolute_X, 3, 4)),
        0x3E => Some(record(0x3E, Rol, Absolute_X, 3, 7)),
        0x40 => Some(record(0x40, Rti, NoneAddressing, 1, 6)),
        0x41 => Some(record(0x41, Eor, Indirect_X, 2, 6)),
        0x45 => Some(record(0x45, Eor, ZeroPage, 2, 3)),
        0x46 => Some(record(0x46, Lsr, ZeroPage, 2, 5)),
        0x48 => Some(record(0x48, Pha, NoneAddressing, 1, 3)),
        0x49 => Some(record(0x49, Eor, Immediate, 2, 2)),
        0x4A => Some(record(0x4A, Lsr, NoneAddressing, 1, 2)),
        0x4C => Some(record(0x4C, Jmp, Absolute, 3, 3)),
        0x4D => Some(record(0x4D, Eor, Absolute, 3, 4)),
        0x4E => Some(record(0x4E, Lsr, Absolute, 3, 6)),
        0x50 => Some(record(0x50, Bvc, NoneAddressing, 2, 2)),
        0x51 => Some(record(0x51, Eor, Indirect_Y, 2, 5)),
        0x55 => Some(record(0x55, Eor, ZeroPage_X, 2, 4)),
        0x56 => Some(record(0x56, Lsr, ZeroPage_X, 2, 6)),
        0x58 => Some(record(0x58, Cli, NoneAddressing, 1, 2)),
        0x59 => Some(record(0x59, Eor, Absolute_Y, 3, 4)),
        0x5D => Some(record(0x5D, Eor, Absolute_X, 3, 4)),
        0x5E => Some(record(0x5E, Lsr, Absolute_X, 3, 7)),
        0x60 => Some(record(0x60, Rts, NoneAddressing, 1, 6)),
        0x61 => Some(record(0x61, Adc, Indirect_X, 2, 6)),
        0x65 => Some(record(0x65, Adc, ZeroPage, 2, 3)),
        0x66 => Some(record(0x66, Ror, ZeroPage, 2, 5)),
        0x68 => Some(record(0x68, Pla, NoneAddressing, 1, 4)),
        0x69 => Some(record(0x69, Adc, Immediate, 2, 2)),
        0x6A => Some(record(0x6A, Ror, NoneAddressing, 1, 2)),
        0x6C => Some(record(0x6C, Jmp, NoneAddressing, 3, 5)),
        0x6D => Some(record(0x6D, Adc, Absolute, 3, 4)),
        0x6E => Some(record(0x6E, Ror, Absolute, 3, 6)),
        0x70 => Some(record(0x70, Bvs, NoneAddressing, 2, 2)),
        0x71 => Some(record(0x71, Adc, Indirect_Y, 2, 5)),
        0x75 => Some(record(0x75, Adc, ZeroPage_X, 2, 4)),
        0x76 => Some(record(0x76, Ror, ZeroPage_X, 2, 6)),
        0x78 => Some(record(0x78, Sei, NoneAddressing, 1, 2)),
        0x79 => Some(record(0x79, Adc, Absolute_Y, 3, 4)),
        0x7D => Some(record(0x7D, Adc, Absolute_X, 3, 4)),
        0x7E => Some(record(0x7E, Ror, Absolute_X, 3, 7)),
        0x81 => Some(record(0x81, Sta, Indirect_X, 2, 6)),
        0x84 => Some(record(0x84, Sty, ZeroPage, 2, 3)),
        0x85 => Some(record(0x85, Sta, ZeroPage, 2, 3)),
        0x86 => Some(record(0x86, Stx, ZeroPage, 2, 3)),
        0x88 => Some(record(0x88, Dey, NoneAddressing, 1, 2)),
        0x8A => Some(record(0x8A, Txa, NoneAddressing, 1, 2)),
        0x8C => Some(record(0x8C, Sty, Absolute, 3, 4)),
        0x8D => Some(record(0x8D, Sta, Absolute, 3, 4)),
        0x8E => Some(record(0x8E, Stx, Absolute, 3, 4)),
        0x90 => Some(record(0x90, Bcc, NoneAddressing, 2, 2)),
        0x91 => Some(record(0x91, Sta, Indirect_Y, 2, 6)),
        0x94 => Some(record(0x94, Sty, ZeroPage_X, 2, 4)),
        0x95 => Some(record(0x95, Sta, ZeroPage_X, 2, 4)),
        0x96 => Some(record(0x96, Stx, ZeroPage_Y, 2, 4)),
        0x98 => Some(record(0x98, Tya, NoneAddressing, 1, 2)),
        0x99 => Some(record(0x99, Sta, Absolute_Y, 3, 5)),
        0x9A => Some(record(0x9A, Txs, NoneAddressing, 1, 2)),
        0x9D => Some(record(0x9D, Sta, Absolute_X, 3, 5)),
        0xA0 => Some(record(0xA0, Ldy, Immediate, 2, 2)),
        0xA1 => Some(record(0xA1, Lda, Indirect_X, 2, 6)),
        0xA2 => Some(record(0xA2, Ldx, Immediate, 2, 2)),
        0xA4 => Some(record(0xA4, Ldy, ZeroPage, 2, 3)),
        0xA5 => Some(record(0xA5, Lda, ZeroPage, 2, 3)),
        0xA6 => Some(record(0xA6, Ldx, ZeroPage, 2, 3)),
        0xA8 => Some(record(0xA8, Tay, NoneAddressing, 1, 2)),
        0xA9 => Some(record(0xA9, Lda, Immediate, 2, 2)),
        0xAA => Some(record(0xAA, Tax, NoneAddressing, 1, 2)),
        0xAC => Some(record(0xAC, Ldy, Absolute, 3, 4)),
        0xAD => Some(record(0xAD, Lda, Absolute, 3, 4)),
        0xAE => Some(record(0xAE, Ldx, Absolute, 3, 4)),
        0xB0 => Some(record(0xB0, Bcs, NoneAddressing, 2, 2)),
        0xB1 => Some(record(0xB1, Lda, Indirect_Y, 2, 5)),
        0xB4 => Some(record(0xB4, Ldy, ZeroPage_X, 2, 4)),
        0xB5 => Some(record(0xB5, Lda, ZeroPage_X, 2, 4)),
        0xB6 => Some(record(0xB6, Ldx, ZeroPage_Y, 2, 4)),
        0xB8 => Some(record(0xB8, Clv, NoneAddressing, 1, 2)),
        0xB9 => Some(record(0xB9, Lda, Absolute_Y, 3, 4)),
        0xBA => Some(record(0xBA, Tsx, NoneAddressing, 1, 2)),
        0xBC => Some(record(0xBC, Ldy, Absolute_X, 3, 4)),
        0xBD => Some(record(0xBD, Lda, Absolute_X, 3, 4)),
        0xBE => Some(record(0xBE, Ldx, Absolute_Y, 3, 4)),
        0xC0 => Some(record(0xC0, Cpy, Immediate, 2, 2)),
        0xC1 => Some(record(0xC1, Cmp, Indirect_X, 2, 6)),
        0xC4 => Some(record(0xC4, Cpy, ZeroPage, 2, 3)),
        0xC5 => Some(record(0xC5, Cmp, ZeroPage, 2, 3)),
        0xC6 => Some(record(0xC6, Dec, ZeroPage, 2, 5)),
        0xC8 => Some(record(0xC8, Iny, NoneAddressing, 1, 2)),
        0xC9 => Some(record(0xC9, Cmp, Immediate, 2, 2)),
        0xCA => Some(record(0xCA, Dex, NoneAddressing, 1, 2)),
        0xCC => Some(record(0xCC, Cpy, Absolute, 3, 4)),
        0xCD => Some(record(0xCD, Cmp, Absolute, 3, 4)),
        0xCE => Some(record(0xCE, Dec, Absolute, 3, 6)),
        0xD0 => Some(record(0xD0, Bne, NoneAddressing, 2, 2)),
        0xD1 => Some(record(0xD1, Cmp, Indirect_Y, 2, 5)),
        0xD5 => Some(record(0xD5, Cmp, ZeroPage_X, 2, 4)),
        0xD6 => Some(record(0xD6, Dec, ZeroPage_X, 2, 6)),
        0xD8 => Some(record(0xD8, Cld, NoneAddressing, 1, 2)),
        0xD9 => Some(record(0xD9, Cmp, Absolute_Y, 3, 4)),
        0xDD => Some(record(0xDD, Cmp, Absolute_X, 3, 4)),
        0xDE => Some(record(0xDE, Dec, Absolute_X, 3, 7)),
        0xE0 => Some(record(0xE0, Cpx, Immediate, 2, 2)),
        0xE1 => Some(record(0xE1, Sbc, Indirect_X, 2, 6)),
        0xE4 => Some(record(0xE4, Cpx, ZeroPage, 2, 3)),
        0xE5 => Some(record(0xE5, Sbc, ZeroPage, 2, 3)),
        0xE6 => Some(record(0xE6, Inc, ZeroPage, 2, 5)),
        0xE8 => Some(record(0xE8, Inx, NoneAddressing, 1, 2)),
        0xE9 => Some(record(0xE9, Sbc, Immediate, 2, 2)),
        0xEA => Some(record(0xEA, Nop, NoneAddressing, 1, 2)),
        0xEC => Some(record(0xEC, Cpx, Absolute, 3, 4)),
        0xED => Some(record(0xED, Sbc, Absolute, 3, 4)),
        0xEE => Some(record(0xEE, Inc, Absolute, 3, 6)),
        0xF0 => Some(record(0xF0, Beq, NoneAddressing, 2, 2)),
        0xF1 => Some(record(0xF1, Sbc, Indirect_Y, 2, 5)),
        0xF5 => Some(record(0xF5, Sbc, ZeroPage_X, 2, 4)),
        0xF6 => Some(record(0xF6, Inc, ZeroPage_X, 2, 6)),
        0xF8 => Some(record(0xF8, Sed, NoneAddressing, 1, 2)),
        0xF9 => Some(record(0xF9, Sbc, Absolute_Y, 3, 4)),
        0xFD => Some(record(0xFD, Sbc, Absolute_X, 3, 4)),
        0xFE => Some(record(0xFE, Inc, Absolute_X, 3, 7)),
        _ => None,
    }
}

/// Looks up the record of an opcode byte.
pub fn lookup_opcode(code: u8) -> (r: Option<OpCode>)
    ensures
        r == opcode_table(code),
        r matches Some(op) ==> op.code == code && op.well_formed(),
{
    proof {
        reveal(opcode_table);
    }
    match code {
        0x00 => Some(OpCode::new(0x00, Brk, NoneAddressing, 1, 7)),
        0x01 => Some(OpCode::new(0x01, Ora, Indirect_X, 2, 6)),
        0x05 => Some(OpCode::new(0x05, Ora, ZeroPage, 2, 3)),
        0x06 => Some(OpCode::new(0x06, Asl, ZeroPage, 2, 5)),
        0x08 => Some(OpCode::new(0x08, Php, NoneAddressing, 1, 3)),
        0x09 => Some(OpCode::new(0x09, Ora, Immediate, 2, 2)),
        0x0A => Some(OpCode::new(0x0A, Asl, NoneAddressing, 1, 2)),
        0x0D => Some(OpCode::new(0x0D, Ora, Absolute, 3, 4)),
        0x0E => Some(OpCode::new(0x0E, Asl, Absolute, 3, 6)),
        0x10 => Some(OpCode::new(0x10, Bpl, NoneAddressing, 2, 2)),
        0x11 => Some(OpCode::new(0x11, Ora, Indirect_Y, 2, 5)),
        0x15 => Some(OpCode::new(0x15, Ora, ZeroPage_X, 2, 4)),
        0x16 => Some(OpCode::new(0x16, Asl, ZeroPage_X, 2, 6)),
        0x18 => Some(OpCode::new(0x18, Clc, NoneAddressing, 1, 2)),
        0x19 => Some(OpCode::new(0x19, Ora, Absolute_Y, 3, 4)),
        0x1D => Some(OpCode::new(0x1D, Ora, Absolute_X, 3, 4)),
        0x1E => Some(OpCode::new(0x1E, Asl, Absolute_X, 3, 7)),
        0x20 => Some(OpCode::new(0x20, Jsr, Absolute, 3, 6)),
        0x21 => Some(OpCode::new(0x21, And, Indirect_X, 2, 6)),
        0x24 => Some(OpCode::new(0x24, Bit, ZeroPage, 2, 3)),
        0x25 => Some(OpCode::new(0x25, And, ZeroPage, 2, 3)),
        0x26 => Some(OpCode::new(0x26, Rol, ZeroPage, 2, 5)),
        0x28 => Some(OpCode::new(0x28, Plp, NoneAddressing, 1, 4)),
        0x29 => Some(OpCode::new(0x29, And, Immediate, 2, 2)),
        0x2A => Some(OpCode::new(0x2A, Rol, NoneAddressing, 1, 2)),
        0x2C => Some(OpCode::new(0x2C, Bit, Absolute, 3, 4)),
        0x2D => Some(OpCode::new(0x2D, And, Absolute, 3, 4)),
        0x2E => Some(OpCode::new(0x2E, Rol, Absolute, 3, 6)),
        0x30 => Some(OpCode::new(0x30, Bmi, NoneAddressing, 2, 2)),
        0x31 => Some(OpCode::new(0x31, And, Indirect_Y, 2, 5)),
        0x35 => Some(OpCode::new(0x35, And, ZeroPage_X, 2, 4)),
        0x36 => Some(OpCode::new(0x36, Rol, ZeroPage_X, 2, 6)),
        0x38 => Some(OpCode::new(0x38, Sec, NoneAddressing, 1, 2)),
        0x39 => Some(OpCode::new(0x39, And, Absolute_Y, 3, 4)),
        0x3D => Some(OpCode::new(0x3D, And, Absolute_X, 3, 4)),
        0x3E => Some(OpCode::new(0x3E, Rol, Absolute_X, 3, 7)),
        0x40 => Some(OpCode::new(0x40, Rti, NoneAddressing, 1, 6)),
        0x41 => Some(OpCode::new(0x41, Eor, Indirect_X, 2, 6)),
        0x45 => Some(OpCode::new(0x45, Eor, ZeroPage, 2, 3)),
        0x46 => Some(OpCode::new(0x46, Lsr, ZeroPage, 2, 5)),
        0x48 => Some(OpCode::new(0x48, Pha, NoneAddressing, 1, 3)),
        0x49 => Some(OpCode::new(0x49, Eor, Immediate, 2, 2)),
        0x4A => Some(OpCode::new(0x4A, Lsr, NoneAddressing, 1, 2)),
        0x4C => Some(OpCode::new(0x4C, Jmp, Absolute, 3, 3)),
        0x4D => Some(OpCode::new(0x4D, Eor, Absolute, 3, 4)),
        0x4E => Some(OpCode::new(0x4E, Lsr, Absolute, 3, 6)),
        0x50 => Some(OpCode::new(0x50, Bvc, NoneAddressing, 2, 2)),
        0x51 => Some(OpCode::new(0x51, Eor, Indirect_Y, 2, 5)),
        0x55 => Some(OpCode::new(0x55, Eor, ZeroPage_X, 2, 4)),
        0x56 => Some(OpCode::new(0x56, Lsr, ZeroPage_X, 2, 6)),
        0x58 => Some(OpCode::new(0x58, Cli, NoneAddressing, 1, 2)),
        0x59 => Some(OpCode::new(0x59, Eor, Absolute_Y, 3, 4)),
        0x5D => Some(OpCode::new(0x5D, Eor, Absolute_X, 3, 4)),
        0x5E => Some(OpCode::new(0x5E, Lsr, Absolute_X, 3, 7)),
        0x60 => Some(OpCode::new(0x60, Rts, NoneAddressing, 1, 6)),
        0x61 => Some(OpCode::new(0x61, Adc, Indirect_X, 2, 6)),
        0x65 => Some(OpCode::new(0x65, Adc, ZeroPage, 2, 3)),
        0x66 => Some(OpCode::new(0x66, Ror, ZeroPage, 2, 5)),
        0x68 => Some(OpCode::new(0x68, Pla, NoneAddressing, 1, 4)),
        0x69 => Some(OpCode::new(0x69, Adc, Immediate, 2, 2)),
        0x6A => Some(OpCode::new(0x6A, Ror, NoneAddressing, 1, 2)),
        0x6C => Some(OpCode::new(0x6C, Jmp, NoneAddressing, 3, 5)),
        0x6D => Some(OpCode::new(0x6D, Adc, Absolute, 3, 4)),
        0x6E => Some(OpCode::new(0x6E, Ror, Absolute, 3, 6)),
        0x70 => Some(OpCode::new(0x70, Bvs, NoneAddressing, 2, 2)),
        0x71 => Some(OpCode::new(0x71, Adc, Indirect_Y, 2, 5)),
        0x75 => Some(OpCode::new(0x75, Adc, ZeroPage_X, 2, 4)),
        0x76 => Some(OpCode::new(0x76, Ror, ZeroPage_X, 2, 6)),
        0x78 => Some(OpCode::new(0x78, Sei, NoneAddressing, 1, 2)),
        0x79 => Some(OpCode::new(0x79, Adc, Absolute_Y, 3, 4)),
        0x7D => Some(OpCode::new(0x7D, Adc, Absolute_X, 3, 4)),
        0x7E => Some(OpCode::new(0x7E, Ror, Absolute_X, 3, 7)),
        0x81 => Some(OpCode::new(0x81, Sta, Indirect_X, 2, 6)),
        0x84 => Some(OpCode::new(0x84, Sty, ZeroPage, 2, 3)),
        0x85 => Some(OpCode::new(0x85, Sta, ZeroPage, 2, 3)),
        0x86 => Some(OpCode::new(0x86, Stx, ZeroPage, 2, 3)),
        0x88 => Some(OpCode::new(0x88, Dey, NoneAddressing, 1, 2)),
        0x8A => Some(OpCode::new(0x8A, Txa, NoneAddressing, 1, 2)),
        0x8C => Some(OpCode::new(0x8C, Sty, Absolute, 3, 4)),
        0x8D => Some(OpCode::new(0x8D, Sta, Absolute, 3, 4)),
        0x8E => Some(OpCode::new(0x8E, Stx, Absolute, 3, 4)),
        0x90 => Some(OpCode::new(0x90, Bcc, NoneAddressing, 2, 2)),
        0x91 => Some(OpCode::new(0x91, Sta, Indirect_Y, 2, 6)),
        0x94 => Some(OpCode::new(0x94, Sty, ZeroPage_X, 2, 4)),
        0x95 => Some(OpCode::new(0x95, Sta, ZeroPage_X, 2, 4)),
        0x96 => Some(OpCode::new(0x96, Stx, ZeroPage_Y, 2, 4)),
        0x98 => Some(OpCode::new(0x98, Tya, NoneAddressing, 1, 2)),
        0x99 => Some(OpCode::new(0x99, Sta, Absolute_Y, 3, 5)),
        0x9A => Some(OpCode::new(0x9A, Txs, NoneAddressing, 1, 2)),
        0x9D => Some(OpCode::new(0x9D, Sta, Absolute_X, 3, 5)),
        0xA0 => Some(OpCode::new(0xA0, Ldy, Immediate, 2, 2)),
        0xA1 => Some(OpCode::new(0xA1, Lda, Indirect_X, 2, 6)),
        0xA2 => Some(OpCode::new(0xA2, Ldx, Immediate, 2, 2)),
        0xA4 => Some(OpCode::new(0xA4, Ldy, ZeroPage, 2, 3)),
        0xA5 => Some(OpCode::new(0xA5, Lda, ZeroPage, 2, 3)),
        0xA6 => Some(OpCode::new(0xA6, Ldx, ZeroPage, 2, 3)),
        0xA8 => Some(OpCode::new(0xA8, Tay, NoneAddressing, 1, 2)),
        0xA9 => Some(OpCode::new(0xA9, Lda, Immediate, 2, 2)),
        0xAA => Some(OpCode::new(0xAA, Tax, NoneAddressing, 1, 2)),
        0xAC => Some(OpCode::new(0xAC, Ldy, Absolute, 3, 4)),
        0xAD => Some(OpCode::new(0xAD, Lda, Absolute, 3, 4)),
        0xAE => Some(OpCode::new(0xAE, Ldx, Absolute, 3, 4)),
        0xB0 => Some(OpCode::new(0xB0, Bcs, NoneAddressing, 2, 2)),
        0xB1 => Some(OpCode::new(0xB1, Lda, Indirect_Y, 2, 5)),
        0xB4 => Some(OpCode::new(0xB4, Ldy, ZeroPage_X, 2, 4)),
        0xB5 => Some(OpCode::new(0xB5, Lda, ZeroPage_X, 2, 4)),
        0xB6 => Some(OpCode::new(0xB6, Ldx, ZeroPage_Y, 2, 4)),
        0xB8 => Some(OpCode::new(0xB8, Clv, NoneAddressing, 1, 2)),
        0xB9 => Some(OpCode::new(0xB9, Lda, Absolute_Y, 3, 4)),
        0xBA => Some(OpCode::new(0xBA, Tsx, NoneAddressing, 1, 2)),
        0xBC => Some(OpCode::new(0xBC, Ldy, Absolute_X, 3, 4)),
        0xBD => Some(OpCode::new(0xBD, Lda, Absolute_X, 3, 4)),
        0xBE => Some(OpCode::new(0xBE, Ldx, Absolute_Y, 3, 4)),
        0xC0 => Some(OpCode::new(0xC0, Cpy, Immediate, 2, 2)),
        0xC1 => Some(OpCode::new(0xC1, Cmp, Indirect_X, 2, 6)),
        0xC4 => Some(OpCode::new(0xC4, Cpy, ZeroPage, 2, 3)),
        0xC5 => Some(OpCode::new(0xC5, Cmp, ZeroPage, 2, 3)),
        0xC6 => Some(OpCode::new(0xC6, Dec, ZeroPage, 2, 5)),
        0xC8 => Some(OpCode::new(0xC8, Iny, NoneAddressing, 1, 2)),
        0xC9 => Some(OpCode::new(0xC9, Cmp, Immediate, 2, 2)),
        0xCA => Some(OpCode::new(0xCA, Dex, NoneAddressing, 1, 2)),
        0xCC => Some(OpCode::new(0xCC, Cpy, Absolute, 3, 4)),
        0xCD => Some(OpCode::new(0xCD, Cmp, Absolute, 3, 4)),
        0xCE => Some(OpCode::new(0xCE, Dec, Absolute, 3, 6)),
        0xD0 => Some(OpCode::new(0xD0, Bne, NoneAddressing, 2, 2)),
        0xD1 => Some(OpCode::new(0xD1, Cmp, Indirect_Y, 2, 5)),
        0xD5 => Some(OpCode::new(0xD5, Cmp, ZeroPage_X, 2, 4)),
        0xD6 => Some(OpCode::new(0xD6, Dec, ZeroPage_X, 2, 6)),
        0xD8 => Some(OpCode::new(0xD8, Cld, NoneAddressing, 1, 2)),
        0xD9 => Some(OpCode::new(0xD9, Cmp, Absolute_Y, 3, 4)),
        0xDD => Some(OpCode::new(0xDD, Cmp, Absolute_X, 3, 4)),
        0xDE => Some(OpCode::new(0xDE, Dec, Absolute_X, 3, 7)),
        0xE0 => Some(OpCode::new(0xE0, Cpx, Immediate, 2, 2)),
        0xE1 => Some(OpCode::new(0xE1, Sbc, Indirect_X, 2, 6)),
        0xE4 => Some(OpCode::new(0xE4, Cpx, ZeroPage, 2, 3)),
        0xE5 => Some(OpCode::new(0xE5, Sbc, ZeroPage, 2, 3)),
        0xE6 => Some(OpCode::new(0xE6, Inc, ZeroPage, 2, 5)),
        0xE8 => Some(OpCode::new(0xE8, Inx, NoneAddressing, 1, 2)),
        0xE9 => Some(OpCode::new(0xE9, Sbc, Immediate, 2, 2)),
        0xEA => Some(OpCode::new(0xEA, Nop, NoneAddressing, 1, 2)),
        0xEC => Some(OpCode::new(0xEC, Cpx, Absolute, 3, 4)),
        0xED => Some(OpCode::new(0xED, Sbc, Absolute, 3, 4)),
        0xEE => Some(OpCode::new(0xEE, Inc, Absolute, 3, 6)),
        0xF0 => Some(OpCode::new(0xF0, Beq, NoneAddressing, 2, 2)),
        0xF1 => Some(OpCode::new(0xF1, Sbc, Indirect_Y, 2, 5)),
        0xF5 => Some(OpCode::new(0xF5, Sbc, ZeroPage_X, 2, 4)),
        0xF6 => Some(OpCode::new(0xF6, Inc, ZeroPage_X, 2, 6)),
        0xF8 => Some(OpCode::new(0xF8, Sed, NoneAddressing, 1, 2)),
        0xF9 => Some(OpCode::new(0xF9, Sbc, Absolute_Y, 3, 4)),
        0xFD => Some(OpCode::new(0xFD, Sbc, Absolute_X, 3, 4)),
        0xFE => Some(OpCode::new(0xFE, Inc, Absolute_X, 3, 7)),
        _ => None,
    }
}

} // verus!
