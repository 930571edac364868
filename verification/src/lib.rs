//! A MOS 6502 processor emulator: registers, status flags, the documented
//! instruction set, addressing-mode resolution, and a flat 64K memory bus,
//! with machine-checked contracts for every instruction's effect.
//!
//! [`model`] holds the mathematical transition function; [`cpu`] holds the
//! execution engine, proved step for step equal to that model; [`laws`]
//! holds properties proved of every state.

pub mod addressing;
pub mod assembler;
pub mod bus;
pub mod cpu;
pub mod flags;
pub mod laws;
pub mod model;
pub mod opcodes;
