//! Providing the ability to exit QEMU and return a value as debug result.

use vstd::prelude::*;

verus! {

/// The exit code of QEMU.
#[derive(Debug, Clone, Copy, PartialEq, Eq, Structural)]
pub enum QemuExitCode {
    /// The code that indicates a successful exit.
    Success,
    /// The code that indicates a failed exit.
    Failed,
}

/// The address of the register that ends the emulation.
pub const EXIT_ADDR: u64 = 0x8000_0000_100e_001c;

/// The value that ends the emulation when written to `EXIT_ADDR`.
pub const EXIT_VALUE: u8 = 0x34;

/// The byte to write to `EXIT_ADDR` to end the emulation. The machine
/// takes one value only, so both codes end it in the same way.
pub fn exit_value(_exit_code: QemuExitCode) -> (r: u8)
    ensures
        r == EXIT_VALUE,
{
    EXIT_VALUE
}

} // verus!
