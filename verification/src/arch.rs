//! The architecture backends.

pub mod loongarch;
pub mod riscv;
