//! The platform interrupt controller.

use vstd::prelude::*;
use crate::bits::{byte_of, le16, le32, lemma_le16_of_bytes, lemma_le32_of_bytes};

verus! {

/// The platform interrupt controller: the address of its register window
/// and the bytes of the window, which hold multi-byte registers low byte
/// first.
#[derive(Debug)]
pub struct Platic {
    /// The virtual address of the window.
    pub mmio_vbase: u64,
    /// The registers.
    pub regs: Vec<u8>,
}

impl Platic {
    pub const INT_ID: usize = 0x000;

    pub const INT_MASK: usize = 0x020;

    pub const HTMSI_EN: usize = 0x040;

    pub const INTEDGE: usize = 0x060;

    pub const INTCLR: usize = 0x080;

    pub const AUTO_CTRL0: usize = 0x0c0;

    pub const AUTO_CTRL1: usize = 0x0e0;

    pub const ROUTE_ENTRY_0: usize = 0x100;

    pub const ROUTE_ENTRY_8: usize = 0x108;

    pub const ROUTE_ENTRY_16: usize = 0x110;

    pub const ROUTE_ENTRY_24: usize = 0x118;

    pub const ROUTE_ENTRY_32: usize = 0x120;

    pub const ROUTE_ENTRY_40: usize = 0x128;

    pub const ROUTE_ENTRY_48: usize = 0x130;

    pub const ROUTE_ENTRY_56: usize = 0x138;

    pub const HTMSI_VECTOR0: usize = 0x200;

    pub const HTMSI_VECTOR8: usize = 0x208;

    pub const HTMSI_VECTOR16: usize = 0x210;

    pub const HTMSI_VECTOR24: usize = 0x218;

    pub const HTMSI_VECTOR32: usize = 0x220;

    pub const HTMSI_VECTOR40: usize = 0x228;

    pub const HTMSI_VECTOR48: usize = 0x230;

    pub const HTMSI_VECTOR56: usize = 0x238;

    pub const INTISR_0: usize = 0x300;

    pub const INTISR_1: usize = 0x320;

    pub const INTIRR: usize = 0x380;

    pub const INTISR: usize = 0x3a0;

    pub const INT_POLARITY: usize = 0x3e0;

    /// The size of the register window in bytes.
    pub const MMIO_SIZE: usize = 0x400;

    /// The window has its full size.
    pub open spec fn wf(self) -> bool {
        self.regs@.len() == Self::MMIO_SIZE
    }

    /// The 16-bit register at `offset`.
    pub open spec fn half_at(self, offset: int) -> u16 {
        le16(self.regs@[offset], self.regs@[offset + 1])
    }

    /// The 32-bit register at `offset`.
    pub open spec fn word_at(self, offset: int) -> u32 {
        le32(
            self.regs@[offset],
            self.regs@[offset + 1],
            self.regs@[offset + 2],
            self.regs@[offset + 3],
        )
    }

    /// The controller whose window lies at `mmio_vbase`, every register zero.
    pub fn new(mmio_vbase: u64) -> (r: Self)
        ensures
            r.wf(),
            r.mmio_vbase == mmio_vbase,
            forall|i: int| 0 <= i < Self::MMIO_SIZE ==> r.regs@[i] == 0,
    {
        let mut regs: Vec<u8> = Vec::new();
        let mut i: usize = 0;
        while i < Self::MMIO_SIZE
            invariant
                i <= Self::MMIO_SIZE,
                regs@.len() == i,
                forall|j: int| 0 <= j < i ==> regs@[j] == 0,
            decreases Self::MMIO_SIZE - i,
        {
            regs.push(0u8);
            i += 1;
        }
        Platic { mmio_vbase, regs }
    }

    /// Writes the byte register at `offset`.
    pub fn write_b(&mut self, offset: usize, val: u8)
        requires
            old(self).wf(),
            offset < Self::MMIO_SIZE,
        ensures
            final(self).regs@ == old(self).regs@.update(offset as int, val),
            final(self).mmio_vbase == old(self).mmio_vbase,
            final(self).wf(),
    {
        self.regs[offset] = val;
    }

    /// Writes the 16-bit register at `offset`.
    pub fn write_h(&mut self, offset: usize, val: u16)
        requires
            old(self).wf(),
            offset + 2 <= Self::MMIO_SIZE,
        ensures
            final(self).regs@ == old(self).regs@.update(offset as int, (val & 0xff) as u8).update(
                offset + 1,
                ((val >> 8) & 0xff) as u8,
            ),
            final(self).half_at(offset as int) == val,
            final(self).mmio_vbase == old(self).mmio_vbase,
            final(self).wf(),
    {
        proof {
            lemma_le16_of_bytes(val);
        }
        self.regs[offset] = #[verifier::truncate] ((val & 0xff) as u8);
        self.regs[offset + 1] = #[verifier::truncate] (((val >> 8) & 0xff) as u8);
    }

    /// Writes the 32-bit register at `offset`.
    pub fn write_w(&mut self, offset: usize, val: u32)
        requires
            old(self).wf(),
            offset + 4 <= Self::MMIO_SIZE,
        ensures
            final(self).regs@ == old(self).regs@.update(offset as int, byte_of(val, 0)).update(
                offset + 1,
                byte_of(val, 1),
            ).update(offset + 2, byte_of(val, 2)).update(offset + 3, byte_of(val, 3)),
            final(self).word_at(offset as int) == val,
            final(self).mmio_vbase == old(self).mmio_vbase,
            final(self).wf(),
    {
        proof {
            lemma_le32_of_bytes(val);
        }
        self.regs[offset] = #[verifier::truncate] (((val >> 0) & 0xff) as u8);
        self.regs[offset + 1] = #[verifier::truncate] (((val >> 8) & 0xff) as u8);
        self.regs[offset + 2] = #[verifier::truncate] (((val >> 16) & 0xff) as u8);
        self.regs[offset + 3] = #[verifier::truncate] (((val >> 24) & 0xff) as u8);
    }

    /// Reads the byte register at `offset`.
    pub fn read_b(&self, offset: usize) -> (r: u8)
        requires
            self.wf(),
            offset < Self::MMIO_SIZE,
        ensures
            r == self.regs@[offset as int],
    {
        self.regs[offset]
    }

    /// Reads the 16-bit register at `offset`.
    pub fn read_h(&self, offset: usize) -> (r: u16)
        requires
            self.wf(),
            offset + 2 <= Self::MMIO_SIZE,
        ensures
            r == self.half_at(offset as int),
    {
        (self.regs[offset] as u16) | ((self.regs[offset + 1] as u16) << 8)
    }

    /// Reads the 32-bit register at `offset`.
    pub fn read_w(&self, offset: usize) -> (r: u32)
        requires
            self.wf(),
            offset + 4 <= Self::MMIO_SIZE,
        ensures
            r == self.word_at(offset as int),
    {
        (self.regs[offset] as u32) | ((self.regs[offset + 1] as u32) << 8) | ((self.regs[offset
            + 2] as u32) << 16) | ((self.regs[offset + 3] as u32) << 24)
    }
}

} // verus!
