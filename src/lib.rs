//! An instruction-level 6502 processor core: a flat 64 KiB memory, the
//! register file, the opcode table, the addressing-mode resolver and the
//! fetch-decode-execute loop, each specified against a mathematical model
//! of the processor state.
pub mod flags;
pub mod opcodes;
pub mod state;
pub mod cpu;
mod instructions;
mod execute;
pub mod laws;
pub mod tiny;

pub use cpu::CPU;
pub use opcodes::AddressingMode;
pub use state::CpuError;
