//! The interrupt controllers of a LoongArch machine.

pub mod eiointc;
pub mod irq_ctrl;
pub mod platic;
