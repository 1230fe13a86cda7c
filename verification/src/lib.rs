//! Core of a CHIP-8 virtual machine.
//!
//! The crate owns the CPU state machine: the register file, the bounded
//! call stack with its push/pop discipline, the big-endian instruction
//! fetch, and the step cycle that feeds fetched words to the
//! decode/execute collaborator. Every operation carries a contract that
//! pins down its result and exactly which states it may change.

pub mod cpu;
pub mod errors;
pub mod opcodes;
pub mod screen;

pub use cpu::Cpu;
pub use errors::ChipError;
pub use screen::Screen;
