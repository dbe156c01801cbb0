//! RISC-V Platform Level Interrupt Controller

use vstd::prelude::*;
use crate::bits::{bit32, lemma_clear_bit32, lemma_set_bit32, lemma_test_bit32};
use crate::io_mem::IoMem;
use crate::mm::Paddr;

verus! {

/// RISC-V Platform Level Interrupt Controller: its registers, and for
/// each of the lines 0 to 255 whether it has been claimed and not yet
/// completed. The claim register of a context holds the line that the
/// controller offers to the context, or 0.
#[derive(Debug)]
pub struct PLIC {
    pub io_mem: IoMem,
    pub in_service: [bool; 256],
}

impl PLIC {
    /// The number of interrupt sources that a context has enable bits for.
    pub const SOURCE_CONUT: usize = 1024;

    /// The number of contexts.
    pub const CONTEXT_COUNT: usize = 15872;

    pub const U32_BITS: usize = 32;

    pub const U32_BYTES: usize = 4;

    /// The highest priority and threshold.
    pub const MAX_PRIORITY: u32 = 7;

    /// The context of a hart in machine mode, or, for `is_s_mode`, in
    /// supervisor mode.
    pub open spec fn context_id(hart_id: int, is_s_mode: bool) -> int {
        if is_s_mode {
            hart_id + 1
        } else {
            hart_id
        }
    }

    /// The offset of the priority of `interrupt`.
    pub open spec fn priority_offset(interrupt: int) -> int {
        interrupt * 4
    }

    /// The offset of the word that holds the pending bit of `interrupt`.
    pub open spec fn pending_offset(interrupt: int) -> int {
        0x1000 + (interrupt / 32) * 4
    }

    /// The offset of the word that holds the enable bit of `interrupt` for
    /// `context`.
    pub open spec fn enable_offset(context: int, interrupt: int) -> int {
        0x2000 + ((context * 1024 + interrupt) / 32) * 4
    }

    /// The position of the enable bit of `interrupt` in its word.
    pub open spec fn enable_bit(context: int, interrupt: int) -> int {
        (context * 1024 + interrupt) % 32
    }

    /// The offset of the threshold of `context`.
    pub open spec fn threshold_offset(context: int) -> int {
        0x200000 + context * 4096
    }

    /// The offset of the claim and completion register of `context`.
    pub open spec fn claim_offset(context: int) -> int {
        0x200004 + context * 4096
    }

    /// The register window fits a machine word.
    pub open spec fn wf(self) -> bool {
        self.io_mem.wf()
    }

    /// The priority of `interrupt`.
    pub open spec fn priority(self, interrupt: int) -> u32 {
        self.io_mem.word(Self::priority_offset(interrupt))
    }

    /// Whether `interrupt` is pending.
    pub open spec fn pending(self, interrupt: int) -> bool {
        bit32(self.io_mem.word(Self::pending_offset(interrupt)), interrupt % 32)
    }

    /// Whether `interrupt` is enabled for `context`.
    pub open spec fn enabled(self, context: int, interrupt: int) -> bool {
        bit32(
            self.io_mem.word(Self::enable_offset(context, interrupt)),
            Self::enable_bit(context, interrupt),
        )
    }

    /// The threshold of `context`.
    pub open spec fn threshold(self, context: int) -> u32 {
        self.io_mem.word(Self::threshold_offset(context))
    }

    /// What the claim register of `context` holds.
    pub open spec fn claimed(self, context: int) -> u32 {
        self.io_mem.word(Self::claim_offset(context))
    }

    /// Create a new PLIC instance.
    ///
    /// # Arguments
    /// * `base_paddr` - The base physical address of the PLIC.
    /// * `size` - The size of the PLIC in bytes.
    pub fn new(base_paddr: Paddr, size: usize) -> (r: Self)
        ensures
            r.wf(),
            r.io_mem.base == base_paddr,
            r.io_mem.words@.len() == size / 4,
            forall|i: int| 0 <= i < r.io_mem.words@.len() ==> r.io_mem.words@[i] == 0,
            forall|i: int| 0 <= i < 256 ==> !r.in_service@[i],
    {
        PLIC { io_mem: IoMem::new(base_paddr, size), in_service: [false;256] }
    }

    /// Base address of the PLIC.
    pub fn address(&self) -> (r: Paddr)
        ensures
            r == self.io_mem.base,
    {
        self.io_mem.paddr()
    }

    /// Grants access to the MMIO of the PLIC.
    pub fn io_mem(&self) -> (r: &IoMem)
        ensures
            *r == self.io_mem,
    {
        &self.io_mem
    }

    /// Set the priority of a specific IRQ.
    ///
    /// The provided priority must be between 0 and 7, inclusive.
    /// If the priority is set to 0, the IRQ will be disabled.
    /// If the priority is set to 1, it will be the lowest active priority.
    /// If the priority is set to 7, it will be the highest priority.
    pub fn set_priority(&mut self, interrupt: u8, priority: u32)
        requires
            old(self).wf(),
            priority <= Self::MAX_PRIORITY,
            old(self).io_mem.holds(Self::priority_offset(interrupt as int)),
        ensures
            final(self).wf(),
            final(self).in_service == old(self).in_service,
            final(self).io_mem.base == old(self).io_mem.base,
            final(self).io_mem.words@ == old(self).io_mem.words@.update(
                interrupt as int,
                priority,
            ),
            final(self).priority(interrupt as int) == priority,
    {
        let offset: usize = interrupt as usize * Self::U32_BYTES;
        let _ = self.io_mem.write_once(offset, priority);
    }

    /// Get the priority of a specific IRQ.
    pub fn get_priority(&self, interrupt: u8) -> (r: u32)
        requires
            self.wf(),
            self.io_mem.holds(Self::priority_offset(interrupt as int)),
        ensures
            r == self.priority(interrupt as int),
    {
        let offset: usize = interrupt as usize * Self::U32_BYTES;
        match self.io_mem.read_once(offset) {
            Ok(v) => v,
            Err(_) => 0,
        }
    }

    /// Check if a specific IRQ is pending,
    /// which means the interrupt is active and needs to be handled or is being handled.
    pub fn is_pending(&self, interrupt: u8) -> (r: bool)
        requires
            self.wf(),
            self.io_mem.holds(Self::pending_offset(interrupt as int)),
        ensures
            r == self.pending(interrupt as int),
    {
        let block: usize = interrupt as usize / Self::U32_BITS;
        let index: usize = interrupt as usize % Self::U32_BITS;
        let offset: usize = 0x1000 + block * Self::U32_BYTES;
        let value: u32 = match self.io_mem.read_once(offset) {
            Ok(v) => v,
            Err(_) => 0,
        };
        proof {
            lemma_test_bit32(value, index as u32);
        }
        (value & (1u32 << (index as u32))) != 0
    }

    /// Enable a specific IRQ.
    pub fn enable(&mut self, hart_id: usize, is_s_mode: bool, interrupt: u8)
        requires
            old(self).wf(),
            Self::context_id(hart_id as int, is_s_mode) < Self::CONTEXT_COUNT,
            old(self).io_mem.holds(
                Self::enable_offset(Self::context_id(hart_id as int, is_s_mode), interrupt as int),
            ),
        ensures
            final(self).wf(),
            final(self).in_service == old(self).in_service,
            final(self).io_mem.base == old(self).io_mem.base,
            final(self).io_mem.words@ == old(self).io_mem.words@.update(
                Self::enable_offset(Self::context_id(hart_id as int, is_s_mode), interrupt as int)
                    / 4,
                old(self).io_mem.word(
                    Self::enable_offset(
                        Self::context_id(hart_id as int, is_s_mode),
                        interrupt as int,
                    ),
                ) | (1u32 << (Self::enable_bit(
                    Self::context_id(hart_id as int, is_s_mode),
                    interrupt as int,
                ) as u32)),
            ),
            final(self).enabled(Self::context_id(hart_id as int, is_s_mode), interrupt as int),
            forall|c: int, i: int|
                0 <= c && 0 <= i < 1024 && old(self).io_mem.holds(Self::enable_offset(c, i))
                    ==> #[trigger] final(self).enabled(c, i) == (old(self).enabled(c, i) || (c
                    == Self::context_id(hart_id as int, is_s_mode) && i == interrupt)),
    {
        let context_id: usize = Self::get_context_id(hart_id, is_s_mode);
        let pos: usize = context_id * Self::SOURCE_CONUT + interrupt as usize;
        let block: usize = pos / Self::U32_BITS;
        let index: usize = pos % Self::U32_BITS;
        let offset: usize = 0x2000 + block * Self::U32_BYTES;
        let old_value: u32 = match self.io_mem.read_once(offset) {
            Ok(v) => v,
            Err(_) => 0,
        };
        let new_value: u32 = old_value | (1u32 << (index as u32));
        let _ = self.io_mem.write_once(offset, new_value);
        proof {
            assert forall|c: int, i: int|
                0 <= c && 0 <= i < 1024 && old(self).io_mem.holds(
                    Self::enable_offset(c, i),
                ) implies #[trigger] self.enabled(c, i) == (old(self).enabled(c, i) || (c
                == context_id && i == interrupt)) by {
                lemma_set_bit32(old_value, index as u32, Self::enable_bit(c, i) as u32);
            }
            lemma_set_bit32(old_value, index as u32, index as u32);
        }
    }

    /// Disable a specific IRQ.
    pub fn disable(&mut self, hart_id: usize, is_s_mode: bool, interrupt: u8)
        requires
            old(self).wf(),
            Self::context_id(hart_id as int, is_s_mode) < Self::CONTEXT_COUNT,
            old(self).io_mem.holds(
                Self::enable_offset(Self::context_id(hart_id as int, is_s_mode), interrupt as int),
            ),
        ensures
            final(self).wf(),
            final(self).in_service == old(self).in_service,
            final(self).io_mem.base == old(self).io_mem.base,
            final(self).io_mem.words@ == old(self).io_mem.words@.update(
                Self::enable_offset(Self::context_id(hart_id as int, is_s_mode), interrupt as int)
                    / 4,
                old(self).io_mem.word(
                    Self::enable_offset(
                        Self::context_id(hart_id as int, is_s_mode),
                        interrupt as int,
                    ),
                ) & !(1u32 << (Self::enable_bit(
                    Self::context_id(hart_id as int, is_s_mode),
                    interrupt as int,
                ) as u32)),
            ),
            !final(self).enabled(Self::context_id(hart_id as int, is_s_mode), interrupt as int),
            forall|c: int, i: int|
                0 <= c && 0 <= i < 1024 && old(self).io_mem.holds(Self::enable_offset(c, i))
                    ==> #[trigger] final(self).enabled(c, i) == (old(self).enabled(c, i) && !(c
                    == Self::context_id(hart_id as int, is_s_mode) && i == interrupt)),
    {
        let context_id: usize = Self::get_context_id(hart_id, is_s_mode);
        let pos: usize = context_id * Self::SOURCE_CONUT + interrupt as usize;
        let block: usize = pos / Self::U32_BITS;
        let index: usize = pos % Self::U32_BITS;
        let offset: usize = 0x2000 + block * Self::U32_BYTES;
        let old_value: u32 = match self.io_mem.read_once(offset) {
            Ok(v) => v,
            Err(_) => 0,
        };
        let new_value: u32 = old_value & !(1u32 << (index as u32));
        let _ = self.io_mem.write_once(offset, new_value);
        proof {
            assert forall|c: int, i: int|
                0 <= c && 0 <= i < 1024 && old(self).io_mem.holds(
                    Self::enable_offset(c, i),
                ) implies #[trigger] self.enabled(c, i) == (old(self).enabled(c, i) && !(c
                == context_id && i == interrupt)) by {
                lemma_clear_bit32(old_value, index as u32, Self::enable_bit(c, i) as u32);
            }
            lemma_clear_bit32(old_value, index as u32, index as u32);
        }
    }

    /// Check if a specific IRQ is enabled.
    pub fn is_enabled(&self, hart_id: usize, is_s_mode: bool, interrupt: u8) -> (r: bool)
        requires
            self.wf(),
            Self::context_id(hart_id as int, is_s_mode) < Self::CONTEXT_COUNT,
            self.io_mem.holds(
                Self::enable_offset(Self::context_id(hart_id as int, is_s_mode), interrupt as int),
            ),
        ensures
            r == self.enabled(Self::context_id(hart_id as int, is_s_mode), interrupt as int),
    {
        let context_id: usize = Self::get_context_id(hart_id, is_s_mode);
        let pos: usize = context_id * Self::SOURCE_CONUT + interrupt as usize;
        let block: usize = pos / Self::U32_BITS;
        let index: usize = pos % Self::U32_BITS;
        let offset: usize = 0x2000 + block * Self::U32_BYTES;
        let value: u32 = match self.io_mem.read_once(offset) {
            Ok(v) => v,
            Err(_) => 0,
        };
        proof {
            lemma_test_bit32(value, index as u32);
        }
        (value & (1u32 << (index as u32))) != 0
    }

    /// Set the threshold for a specific hart.
    /// The provided threshold must be between 0 and 7, inclusive.
    /// If the threshold is set to 0, all IRQs will be enabled.
    pub fn set_threshold(&mut self, hart_id: usize, is_s_mode: bool, threshold: u32)
        requires
            old(self).wf(),
            threshold <= Self::MAX_PRIORITY,
            old(self).io_mem.holds(
                Self::threshold_offset(Self::context_id(hart_id as int, is_s_mode)),
            ),
        ensures
            final(self).wf(),
            final(self).in_service == old(self).in_service,
            final(self).io_mem.base == old(self).io_mem.base,
            final(self).io_mem.words@ == old(self).io_mem.words@.update(
                Self::threshold_offset(Self::context_id(hart_id as int, is_s_mode)) / 4,
                threshold,
            ),
            final(self).threshold(Self::context_id(hart_id as int, is_s_mode)) == threshold,
    {
        let context_id: usize = Self::get_context_id(hart_id, is_s_mode);
        let offset: usize = 0x200000 + context_id * 4096;
        let _ = self.io_mem.write_once(offset, threshold);
    }

    /// Get the threshold for a specific hart.
    pub fn get_threshold(&self, hart_id: usize, is_s_mode: bool) -> (r: u32)
        requires
            self.wf(),
            self.io_mem.holds(Self::threshold_offset(Self::context_id(hart_id as int, is_s_mode))),
            self.threshold(Self::context_id(hart_id as int, is_s_mode)) <= Self::MAX_PRIORITY,
        ensures
            r == self.threshold(Self::context_id(hart_id as int, is_s_mode)),
            r <= Self::MAX_PRIORITY,
    {
        let context_id: usize = Self::get_context_id(hart_id, is_s_mode);
        let offset: usize = 0x200000 + context_id * 4096;
        match self.io_mem.read_once(offset) {
            Ok(v) => v,
            Err(_) => 0,
        }
    }

    /// The register at `offset`.
    fn read(&self, offset: usize) -> (r: u32)
        requires
            self.io_mem.holds(offset as int),
        ensures
            r == self.io_mem.word(offset as int),
    {
        match self.io_mem.read_once(offset) {
            Ok(v) => v,
            Err(_) => 0,
        }
    }

    /// Whether the controller offers `interrupt` to `context` when the
    /// device raises it: the context has no offer yet, the line is not in
    /// service, it is enabled for the context, and its priority lies above
    /// the threshold of the context.
    pub open spec fn offers(self, context: int, interrupt: int) -> bool {
        &&& self.claimed(context) == 0
        &&& !self.in_service@[interrupt]
        &&& self.enabled(context, interrupt)
        &&& self.priority(interrupt) > self.threshold(context)
    }

    /// What the controller does when the device raises `interrupt`: the
    /// line becomes pending, and the controller offers it to the context
    /// of the hart where `offers` says so. A line of priority 0, a line
    /// at or below the threshold, a line that is not enabled and a line
    /// that is still in service are not offered.
    pub fn raise(&mut self, hart_id: usize, is_s_mode: bool, interrupt: u8)
        requires
            old(self).wf(),
            interrupt != 0,
            Self::context_id(hart_id as int, is_s_mode) < Self::CONTEXT_COUNT,
            old(self).io_mem.holds(
                Self::claim_offset(Self::context_id(hart_id as int, is_s_mode)),
            ),
        ensures
            final(self).wf(),
            final(self).in_service == old(self).in_service,
            final(self).io_mem.base == old(self).io_mem.base,
            final(self).io_mem.words@.len() == old(self).io_mem.words@.len(),
            final(self).pending(interrupt as int),
            final(self).claimed(Self::context_id(hart_id as int, is_s_mode)) == (if old(self).offers(Self::context_id(hart_id as int, is_s_mode), interrupt as int) {
                interrupt as u32
            } else {
                old(self).claimed(Self::context_id(hart_id as int, is_s_mode))
            }),
            old(self).offers(Self::context_id(hart_id as int, is_s_mode), interrupt as int) ==> final(self).delivers(Self::context_id(hart_id as int, is_s_mode), interrupt as int),
            forall|k: int|
                0 <= k < old(self).io_mem.words@.len() && k != Self::pending_offset(
                    interrupt as int,
                ) / 4 && k != Self::claim_offset(Self::context_id(hart_id as int, is_s_mode)) / 4
                    ==> #[trigger] final(self).io_mem.words@[k] == old(self).io_mem.words@[k],
            final(self).io_mem.word(Self::pending_offset(interrupt as int)) == old(self).io_mem.word(Self::pending_offset(interrupt as int)) | (1u32 << ((interrupt % 32) as u32)),
    {
        let context_id: usize = Self::get_context_id(hart_id, is_s_mode);
        let line: usize = interrupt as usize;
        let bit: u32 = (line % 32) as u32;
        let pending_at: usize = 0x1000 + (line / 32) * 4;
        let claim_at: usize = 0x200004 + context_id * 4096;
        let pos: usize = context_id * Self::SOURCE_CONUT + line;
        let enable_at: usize = 0x2000 + (pos / 32) * 4;
        let was: u32 = self.read(pending_at);
        proof {
            lemma_set_bit32(was, bit, bit);
            lemma_test_bit32(self.io_mem.word(enable_at as int), (pos % 32) as u32);
        }
        let enabled: bool = (self.read(enable_at) & (1u32 << ((pos % 32) as u32))) != 0;
        let priority: u32 = self.read(line * 4);
        let threshold: u32 = self.read(claim_at - 4);
        let offered: u32 = self.read(claim_at);
        let _ = self.io_mem.write_once(pending_at, was | (1u32 << bit));
        if offered == 0 && !self.in_service[line] && enabled && priority > threshold {
            let _ = self.io_mem.write_once(claim_at, interrupt as u32);
        }
    }

    /// Claim an interrupt.
    ///
    /// Return the line that the controller offers to the context of the
    /// hart, or None where it offers none. A line that is claimed is no
    /// longer offered and, for the lines 0 to 255, no longer pending, and
    /// it is in service until it is completed.
    pub fn chaim(&mut self, hart_id: usize, is_s_mode: bool) -> (r: Option<u32>)
        requires
            old(self).wf(),
            old(self).io_mem.holds(
                Self::claim_offset(Self::context_id(hart_id as int, is_s_mode)),
            ),
        ensures
            final(self).wf(),
            final(self).io_mem.base == old(self).io_mem.base,
            final(self).io_mem.words@.len() == old(self).io_mem.words@.len(),
            r == (if old(self).claimed(Self::context_id(hart_id as int, is_s_mode)) == 0 {
                None
            } else {
                Some(old(self).claimed(Self::context_id(hart_id as int, is_s_mode)))
            }),
            final(self).claimed(Self::context_id(hart_id as int, is_s_mode)) == 0,
            match r {
                None => *final(self) == *old(self),
                Some(line) => if line < 256 {
                    &&& final(self).in_service@ == old(self).in_service@.update(line as int, true)
                    &&& !final(self).pending(line as int)
                    &&& final(self).io_mem.words@ == old(self).io_mem.words@.update(
                        Self::pending_offset(line as int) / 4,
                        old(self).io_mem.word(Self::pending_offset(line as int)) & !(1u32 << ((line
                            % 32) as u32)),
                    ).update(
                        Self::claim_offset(Self::context_id(hart_id as int, is_s_mode)) / 4,
                        0,
                    )
                } else {
                    &&& final(self).in_service == old(self).in_service
                    &&& final(self).io_mem.words@ == old(self).io_mem.words@.update(
                        Self::claim_offset(Self::context_id(hart_id as int, is_s_mode)) / 4,
                        0,
                    )
                },
            },
    {
        let context_id: usize = Self::get_context_id(hart_id, is_s_mode);
        let offset: usize = 0x200004 + context_id * 4096;
        let value: u32 = self.read(offset);
        if value == 0 {
            None
        } else {
            if value < 256 {
                let line: usize = value as usize;
                let bit: u32 = (line % 32) as u32;
                let pending_at: usize = 0x1000 + (line / 32) * 4;
                let was: u32 = self.read(pending_at);
                proof {
                    lemma_clear_bit32(was, bit, bit);
                }
                let _ = self.io_mem.write_once(pending_at, was & !(1u32 << bit));
                self.in_service[line] = true;
            }
            let _ = self.io_mem.write_once(offset, 0);
            Some(value)
        }
    }

    /// Complete an interrupt: the line is no longer in service, so the
    /// controller offers it again when the device next raises it. No
    /// register that software reads changes.
    pub fn complete(&mut self, hart_id: usize, is_s_mode: bool, interrupt: u8)
        ensures
            final(self).io_mem == old(self).io_mem,
            final(self).in_service@ == old(self).in_service@.update(interrupt as int, false),
    {
        self.in_service[interrupt as usize] = false;
    }

    /// The context of a hart in machine mode, or, for `is_s_mode`, in
    /// supervisor mode.
    pub fn get_context_id(hart_id: usize, is_s_mode: bool) -> (r: usize)
        requires
            hart_id < usize::MAX,
        ensures
            r == Self::context_id(hart_id as int, is_s_mode),
    {
        if is_s_mode {
            hart_id + 1
        } else {
            hart_id
        }
    }
}

impl PLIC {
    /// Whether the controller hands `interrupt` to `context`: it is
    /// pending, enabled for the context, and its priority lies above the
    /// threshold of the context.
    pub open spec fn delivers(self, context: int, interrupt: int) -> bool {
        self.pending(interrupt) && self.enabled(context, interrupt) && self.priority(interrupt)
            > self.threshold(context)
    }

    /// Priority 0 switches a line off: no context is handed an interrupt
    /// of priority 0, whatever its threshold.
    pub proof fn lemma_priority_zero_disables(self, context: int, interrupt: int)
        requires
            self.priority(interrupt) == 0,
        ensures
            !self.delivers(context, interrupt),
    {
    }

    /// The threshold filters: a context is handed no interrupt whose
    /// priority is at or below its threshold, and of two interrupts the
    /// one of lower priority is filtered first.
    pub proof fn lemma_threshold_filters(self, context: int, low: int, high: int)
        requires
            self.priority(low) <= self.priority(high),
        ensures
            self.priority(low) <= self.threshold(context) ==> !self.delivers(context, low),
            self.delivers(context, low) && self.pending(high) && self.enabled(context, high)
                ==> self.delivers(context, high),
    {
    }
}

} // verus!
