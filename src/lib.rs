//! Execution core of an 8-bit microprocessor emulator: registers with
//! overlapping byte views, a flag-producing ALU, operand addressing, memory,
//! and an Intel-8080-style machine that runs decoded instructions.
pub mod register;
pub mod alu;
pub mod memory;
pub mod i8080;
pub mod cpu;
pub mod addressing;
pub mod instruction;
