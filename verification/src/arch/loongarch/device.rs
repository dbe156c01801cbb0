//! Devices of a LoongArch machine.

pub mod io_port;
pub mod serial;
