//! Verified core of a kernel hardware-abstraction layer.
//!
//! The crate models the three pieces that make kernel code portable across
//! instruction sets: the dispatcher that classifies the trap which stopped a
//! user-mode program, the codec between the generic page properties and the
//! packed page-table entry of an architecture, and the drivers of the
//! interrupt controllers. Hardware state is held in plain values, so that
//! every function has a contract over those values.

pub mod arch;
pub mod bits;
pub mod ext4;
pub mod io_mem;
pub mod irq;
pub mod logger;
pub mod mm;
pub mod rtc;
pub mod user;
