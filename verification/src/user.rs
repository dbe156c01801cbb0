//! What the scheduler learns when user-mode execution stops.

use vstd::prelude::*;

verus! {

/// Why control came back from user mode.
#[derive(Clone, Copy, Debug, PartialEq, Eq, Structural)]
pub enum ReturnReason {
    /// The user program issued a system call.
    UserSyscall,
    /// The user program raised an exception that the caller must handle.
    UserException,
    /// A kernel event is pending and wants the processor.
    KernelEvent,
}

} // verus!
