//! The execution core of a CHIP-8 interpreter: registers with wrapping
//! arithmetic, the 4096-byte memory with its call stack, and the processor
//! that fetches, decodes and executes two-byte instructions.

pub mod cpu;
pub mod fault;
pub mod instruction;
pub mod memory;
pub mod register;
pub mod rom;
pub mod unsigned;
