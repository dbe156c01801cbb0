//! The RISC-V backend.

pub mod cpu;
pub mod trap;
