//! Instruction-execution core of an 8-bit accumulator processor: registers,
//! status flags, addressing-mode resolution, the opcode table and the
//! fetch-decode-execute loop over a flat 64 KiB memory.

pub mod cpu;
pub mod instructions;
pub mod laws;
pub mod machine;
pub mod status;

pub use cpu::Cpu;
pub use instructions::{AddressingMode, Descriptor, Instruction, OpcodeTable, Operation};
pub use machine::{CpuError, CpuState, MEMORY_SIZE, PROGRAM_START, RESET_VECTOR, STEP_LIMIT};
pub use status::{Flag, StatusFlags, RESET_STATUS_BITS};
