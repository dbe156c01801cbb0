//! The interrupt controller of the machine as the kernel uses it.

use vstd::prelude::*;
use crate::arch::loongarch::kernel::eiointc::Eiointc;
use crate::arch::loongarch::kernel::platic::Platic;
use crate::bits::{bit32, byte_of, lemma_clear_bit32, lemma_set_bit32};

verus! {

/// The two controller chips of the machine: the extended I/O interrupt
/// controller, which delivers to the cores, and the platform interrupt
/// controller in front of it. Together they serve 64 lines.
#[derive(Debug)]
pub struct IrqCtrl {
    pub eiointc: Eiointc,
    pub platic: Platic,
}

/// The registers of the platform controller after the 32-bit register at
/// `offset` has been set to `val`.
pub open spec fn with_word(regs: Seq<u8>, offset: int, val: u32) -> Seq<u8> {
    regs.update(offset, byte_of(val, 0)).update(offset + 1, byte_of(val, 1)).update(
        offset + 2,
        byte_of(val, 2),
    ).update(offset + 3, byte_of(val, 3))
}

impl IrqCtrl {
    /// The address of the register window of the platform controller.
    pub const PLATIC_BASE: u64 = 0x8000_0000_1000_0000;

    /// The number of lines that the controller serves.
    pub const LINES: usize = 64;

    /// The register window of the platform controller has its full size,
    /// and the extended controller is switched on and routes every line to
    /// core 0.
    pub open spec fn wf(self) -> bool {
        self.platic.wf() && self.eiointc.routed(1)
    }

    /// The offset of the mask word that holds the bit of line `no`: the
    /// low word for the lines below 32, the high word for the others.
    pub open spec fn mask_offset(no: int) -> int {
        Platic::INT_MASK + 4 * (no / 32)
    }

    /// Whether the platform controller masks line `no`.
    pub open spec fn masked(self, no: int) -> bool {
        bit32(self.platic.word_at(Self::mask_offset(no)), no % 32)
    }

    /// The vector that the platform controller sends for line `no`.
    pub open spec fn vector(self, no: int) -> u8 {
        self.platic.regs@[Platic::HTMSI_VECTOR0 + no]
    }

    /// Sets up both chips: the extended controller is switched on and routes
    /// every line to core 0, the platform controller takes active-high,
    /// level-triggered lines. No line is enabled or pending yet. Always
    /// succeeds.
    pub fn create() -> (r: Option<Self>)
        ensures
            r is Some,
            r->0.wf(),
            r->0.platic.mmio_vbase == Self::PLATIC_BASE,
            forall|i: int| 0 <= i < Platic::MMIO_SIZE ==> r->0.platic.regs@[i] == 0,
            r->0.eiointc.misc == Eiointc::MISC_EXT_IOI_EN,
            r->0.eiointc.node_type == 1,
            forall|i: int| 0 <= i < 8 ==> r->0.eiointc.pin_map@[i] == i,
            forall|i: int| 0 <= i < 256 ==> r->0.eiointc.core_map@[i] == Eiointc::core_mask(1),
            forall|no: int| !r->0.eiointc.enabled(no) && !r->0.eiointc.pending(no),
    {
        let mut eiointc = Eiointc::new();
        let ghost fresh = eiointc;
        eiointc.init(1);
        assert(0u64 | 0x2_0000_0000_0000u64 == 0x2_0000_0000_0000u64) by (bit_vector);
        let mut platic = Platic::new(Self::PLATIC_BASE);
        platic.write_w(Platic::INT_POLARITY, 0x0);
        platic.write_w(Platic::INT_POLARITY + 4, 0x0);
        platic.write_w(Platic::INTEDGE, 0x0);
        platic.write_w(Platic::INTEDGE + 4, 0x0);
        assert(byte_of(0, 0) == 0 && byte_of(0, 1) == 0 && byte_of(0, 2) == 0 && byte_of(0, 3) == 0)
            by {
            assert(((0u32 >> 0u32) & 0xffu32) as u8 == 0u8 && ((0u32 >> 8u32) & 0xffu32) as u8
                == 0u8 && ((0u32 >> 16u32) & 0xffu32) as u8 == 0u8 && ((0u32 >> 24u32)
                & 0xffu32) as u8 == 0u8) by (bit_vector);
        }
        assert forall|no: int| !eiointc.enabled(no) && !eiointc.pending(no) by {
            assert(eiointc.enabled(no) == fresh.enabled(no));
            assert(eiointc.pending(no) == fresh.pending(no));
        }
        Some(IrqCtrl { eiointc, platic })
    }

    /// Enables line `no`, and no other line. The extended controller
    /// enables it; the platform controller clears the line's mask bit and
    /// stores the line's number as its vector. A number from 64 on names
    /// no line of the controller: nothing changes on either chip.
    #[verifier::rlimit(40)]
    pub fn enable_irq(&mut self, no: usize)
        requires
            old(self).wf(),
        ensures
            final(self).wf(),
            no >= Self::LINES ==> *final(self) == *old(self),
            final(self).platic.mmio_vbase == old(self).platic.mmio_vbase,
            final(self).eiointc.status == old(self).eiointc.status,
            forall|m: int| #[trigger]
                final(self).eiointc.pending(m) == old(self).eiointc.pending(m),
            no < Self::LINES ==> {
                &&& forall|m: int| #[trigger]
                    final(self).eiointc.enabled(m) == (old(self).eiointc.enabled(m) || m == no)
                &&& final(self).platic.regs@ == with_word(
                    old(self).platic.regs@,
                    Self::mask_offset(no as int),
                    old(self).platic.word_at(Self::mask_offset(no as int)) & !(1u32 << ((no
                        % 32) as u32)),
                ).update(Platic::HTMSI_VECTOR0 + no, no as u8)
                &&& forall|m: int|
                    0 <= m < 64 ==> #[trigger] final(self).masked(m) == (old(self).masked(m) && m
                        != no)
                &&& forall|m: int|
                    0 <= m < 64 ==> #[trigger] final(self).vector(m) == (if m == no {
                        no as u8
                    } else {
                        old(self).vector(m)
                    })
            },
    {
        if no < Self::LINES {
            self.eiointc.enable_irq(no);
            let bit: u32 = (no % 32) as u32;
            let offset: usize = Platic::INT_MASK + 4 * (no / 32);
            let before: u32 = self.platic.read_w(offset);
            let mask: u32 = before & !(1u32 << bit);
            self.platic.write_w(offset, mask);
            self.platic.write_b(Platic::HTMSI_VECTOR0 + no, no as u8);
            proof {
                assert(self.platic.word_at(offset as int) == mask);
                assert forall|m: int| 0 <= m < 64 implies #[trigger] self.masked(m) == (old(self).masked(m) && m != no) by {
                    if m / 32 == no / 32 {
                        lemma_clear_bit32(before, bit, (m % 32) as u32);
                    } else {
                        assert(self.platic.word_at(Self::mask_offset(m)) == old(self).platic.word_at(Self::mask_offset(m)));
                    }
                }
            }
        }
    }

    /// Disables line `no`, and no other line. The extended controller
    /// disables it; the platform controller sets the line's mask bit. A
    /// number from 64 on names no line of the controller: nothing changes
    /// on either chip.
    #[verifier::rlimit(40)]
    pub fn disable_irq(&mut self, no: usize)
        requires
            old(self).wf(),
        ensures
            final(self).wf(),
            no >= Self::LINES ==> *final(self) == *old(self),
            final(self).platic.mmio_vbase == old(self).platic.mmio_vbase,
            final(self).eiointc.status == old(self).eiointc.status,
            forall|m: int| #[trigger]
                final(self).eiointc.pending(m) == old(self).eiointc.pending(m),
            no < Self::LINES ==> {
                &&& forall|m: int| #[trigger]
                    final(self).eiointc.enabled(m) == (old(self).eiointc.enabled(m) && m != no)
                &&& final(self).platic.regs@ == with_word(
                    old(self).platic.regs@,
                    Self::mask_offset(no as int),
                    old(self).platic.word_at(Self::mask_offset(no as int)) | (1u32 << ((no
                        % 32) as u32)),
                )
                &&& forall|m: int|
                    0 <= m < 64 ==> #[trigger] final(self).masked(m) == (old(self).masked(m) || m
                        == no)
                &&& forall|m: int|
                    0 <= m < 64 ==> #[trigger] final(self).vector(m) == old(self).vector(m)
            },
    {
        if no < Self::LINES {
            self.eiointc.disable_irq(no);
            let bit: u32 = (no % 32) as u32;
            let offset: usize = Platic::INT_MASK + 4 * (no / 32);
            let before: u32 = self.platic.read_w(offset);
            let mask: u32 = before | (1u32 << bit);
            self.platic.write_w(offset, mask);
            proof {
                assert(self.platic.word_at(offset as int) == mask);
                assert forall|m: int| 0 <= m < 64 implies #[trigger] self.masked(m) == (old(self).masked(m) || m == no) by {
                    if m / 32 == no / 32 {
                        lemma_set_bit32(before, bit, (m % 32) as u32);
                    } else {
                        assert(self.platic.word_at(Self::mask_offset(m)) == old(self).platic.word_at(Self::mask_offset(m)));
                    }
                }
            }
        }
    }

    /// Returns the highest line that is pending and enabled, or `None`
    /// where there is none.
    pub fn claim_irq(&self) -> (r: Option<usize>)
        ensures
            match r {
                Some(no) => self.eiointc.highest_deliverable() == Some(no as int),
                None => self.eiointc.highest_deliverable() is None,
            },
            match r {
                Some(no) => no < 256 && self.eiointc.deliverable(no as int) && forall|m: int|
                    self.eiointc.deliverable(m) ==> m <= no,
                None => forall|m: int| !self.eiointc.deliverable(m),
            },
    {
        self.eiointc.claim_irq()
    }

    /// Acknowledges line `no`: it stops being pending and stays enabled as
    /// it was.
    pub fn complete_irq(&mut self, no: usize)
        requires
            no < 256,
        ensures
            final(self).wf() == old(self).wf(),
            final(self).platic == old(self).platic,
            final(self).eiointc.enable == old(self).eiointc.enable,
            forall|m: int| #[trigger]
                final(self).eiointc.pending(m) == (old(self).eiointc.pending(m) && m != no),
            forall|m: int| #[trigger]
                final(self).eiointc.enabled(m) == old(self).eiointc.enabled(m),
    {
        self.eiointc.complete_irq(no);
    }
}

/// The place of the one interrupt controller of the machine: empty until
/// `init` fills it, and never emptied or replaced after that.
#[derive(Debug)]
pub struct IrqCtrlCell {
    pub ctrl: Option<IrqCtrl>,
}

impl IrqCtrlCell {
    /// A cell that no controller has been put into.
    pub fn new() -> (r: Self)
        ensures
            r.ctrl is None,
    {
        IrqCtrlCell { ctrl: None }
    }

    /// The controller in the cell, if any, is well-formed.
    pub open spec fn wf(self) -> bool {
        self.ctrl is Some ==> self.ctrl->0.wf()
    }
}

/// Sets up the interrupt controller on the first call and enables lines 0
/// to 63 on every call: afterwards the extended controller is switched on
/// and routes every line to core 0, and each of the 64 lines is enabled,
/// not masked, and sends its own number as its vector. A controller that
/// is already in the cell is kept, with what is pending on it and with the
/// lines from 64 on as they are; a second call changes nothing.
pub fn init(cell: &mut IrqCtrlCell)
    requires
        old(cell).wf(),
    ensures
        final(cell).wf(),
        final(cell).ctrl is Some,
        final(cell).ctrl->0.eiointc.routed(1),
        forall|m: int| #[trigger]
            final(cell).ctrl->0.eiointc.enabled(m) == ((old(cell).ctrl is Some && old(cell).ctrl->0.eiointc.enabled(m)) || 0 <= m < 64),
        forall|m: int| #[trigger]
            final(cell).ctrl->0.eiointc.pending(m) == (old(cell).ctrl is Some && old(cell).ctrl->0.eiointc.pending(m)),
        forall|m: int|
            0 <= m < 64 ==> !(#[trigger] final(cell).ctrl->0.masked(m)) && final(cell).ctrl->0.vector(m) == m,
        final(cell).ctrl->0.platic.mmio_vbase == (if old(cell).ctrl is Some {
            old(cell).ctrl->0.platic.mmio_vbase
        } else {
            IrqCtrl::PLATIC_BASE
        }),
        forall|i: int|
            0 <= i < Platic::MMIO_SIZE && !(Platic::INT_MASK <= i < Platic::INT_MASK + 8) && !(
            Platic::HTMSI_VECTOR0 <= i < Platic::HTMSI_VECTOR0 + 64) ==> #[trigger] final(cell).ctrl->0.platic.regs@[i] == (if old(cell).ctrl is Some {
                old(cell).ctrl->0.platic.regs@[i]
            } else {
                0u8
            }),
{
    let mut ctrl = match cell.ctrl.take() {
        Some(c) => c,
        None => {
            let c = IrqCtrl::create();
            c.unwrap()
        },
    };
    let ghost start = ctrl;
    let mut i: usize = 0;
    while i < 64
        invariant
            i <= 64,
            ctrl.wf(),
            ctrl.platic.mmio_vbase == start.platic.mmio_vbase,
            forall|m: int| #[trigger]
                ctrl.eiointc.enabled(m) == (start.eiointc.enabled(m) || 0 <= m < i),
            forall|m: int| #[trigger] ctrl.eiointc.pending(m) == start.eiointc.pending(m),
            forall|m: int| 0 <= m < i ==> !(#[trigger] ctrl.masked(m)) && ctrl.vector(m) == m,
            forall|k: int|
                0 <= k < Platic::MMIO_SIZE && !(Platic::INT_MASK <= k < Platic::INT_MASK + 8)
                    && !(Platic::HTMSI_VECTOR0 <= k < Platic::HTMSI_VECTOR0 + 64)
                    ==> #[trigger] ctrl.platic.regs@[k] == start.platic.regs@[k],
        decreases 64 - i,
    {
        let ghost before = ctrl;
        ctrl.enable_irq(i);
        proof {
            assert forall|m: int| 0 <= m < i + 1 implies !(#[trigger] ctrl.masked(m))
                && ctrl.vector(m) == m by {
                if m < i {
                    assert(!before.masked(m) && before.vector(m) == m);
                }
            }
        }
        i += 1;
    }
    cell.ctrl = Some(ctrl);
}

/// Claims the highest pending and enabled line from the controller in the
/// cell. An empty cell has nothing to claim.
pub fn claim_interrupt(cell: &IrqCtrlCell) -> (r: Option<usize>)
    ensures
        cell.ctrl is None ==> r is None,
        cell.ctrl is Some ==> match r {
            Some(no) => cell.ctrl->0.eiointc.highest_deliverable() == Some(no as int),
            None => cell.ctrl->0.eiointc.highest_deliverable() is None,
        },
        cell.ctrl is Some ==> match r {
            Some(no) => no < 256 && cell.ctrl->0.eiointc.deliverable(no as int) && forall|m: int|
                cell.ctrl->0.eiointc.deliverable(m) ==> m <= no,
            None => forall|m: int| !cell.ctrl->0.eiointc.deliverable(m),
        },
{
    match &cell.ctrl {
        Some(irq_ctrl) => irq_ctrl.claim_irq(),
        None => None,
    }
}

/// Acknowledges line `irq_number` on the controller in the cell. An empty
/// cell stays empty.
pub fn complete_interrupt(cell: &mut IrqCtrlCell, irq_number: usize)
    requires
        old(cell).ctrl is Some ==> irq_number < 256,
    ensures
        old(cell).ctrl is None ==> final(cell).ctrl is None,
        old(cell).ctrl is Some ==> {
            &&& final(cell).ctrl is Some
            &&& final(cell).ctrl->0.platic == old(cell).ctrl->0.platic
            &&& final(cell).ctrl->0.eiointc.enable == old(cell).ctrl->0.eiointc.enable
            &&& forall|m: int| #[trigger]
                final(cell).ctrl->0.eiointc.pending(m) == (old(cell).ctrl->0.eiointc.pending(m)
                    && m != irq_number)
            &&& forall|m: int| #[trigger]
                final(cell).ctrl->0.eiointc.enabled(m) == old(cell).ctrl->0.eiointc.enabled(m)
        },
{
    match cell.ctrl.take() {
        Some(mut irq_ctrl) => {
            irq_ctrl.complete_irq(irq_number);
            cell.ctrl = Some(irq_ctrl);
        },
        None => {},
    }
}

} // verus!
