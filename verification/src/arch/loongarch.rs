//! The LoongArch backend.

pub mod boot;
pub mod cpu;
pub mod device;
pub mod kernel;
pub mod mm;
pub mod pci;
pub mod qemu;
pub mod serial;
pub mod trap;

use vstd::prelude::*;
use crate::arch::loongarch::kernel::irq_ctrl::{complete_interrupt, IrqCtrlCell};

verus! {

/// Tells the interrupt controller that `irq_number` has been served.
pub fn interrupts_ack(cell: &mut IrqCtrlCell, irq_number: usize)
    requires
        old(cell).ctrl is Some ==> irq_number < 256,
    ensures
        old(cell).ctrl is None ==> final(cell).ctrl is None,
        old(cell).ctrl is Some ==> {
            &&& final(cell).ctrl is Some
            &&& final(cell).ctrl->0.platic == old(cell).ctrl->0.platic
            &&& final(cell).ctrl->0.eiointc.enable == old(cell).ctrl->0.eiointc.enable
            &&& forall|m: int| #[trigger]
                final(cell).ctrl->0.eiointc.pending(m) == (old(cell).ctrl->0.eiointc.pending(m)
                    && m != irq_number)
            &&& forall|m: int| #[trigger]
                final(cell).ctrl->0.eiointc.enabled(m) == old(cell).ctrl->0.eiointc.enabled(m)
        },
{
    complete_interrupt(cell, irq_number);
}

/// Switches on the features of the processor that the kernel needs. This
/// backend needs none.
pub fn enable_cpu_features() {
}

/// Reads a hardware generated 64-bit random value.
///
/// Returns None if no random value was generated. This backend has no
/// generator, so it never returns one.
pub fn read_random() -> (r: Option<u64>)
    ensures
        r is None,
{
    None
}

} // verus!
