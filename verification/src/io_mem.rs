//! A window of device registers.

use vstd::prelude::*;
use crate::mm::Paddr;

verus! {

/// Why an access to device registers failed.
#[derive(Clone, Copy, Debug, PartialEq, Eq, Structural)]
pub enum IoError {
    /// The access does not lie inside the window, or is not aligned.
    InvalidArgs,
    /// There is no device to talk to.
    IoError,
}

/// A window of 32-bit device registers that starts at a physical address.
#[derive(Debug)]
pub struct IoMem {
    /// The physical address of the first register.
    pub base: Paddr,
    /// The registers, in the order of their addresses.
    pub words: Vec<u32>,
}

impl IoMem {
    /// The size of one register in bytes.
    pub const WORD_BYTES: usize = 4;

    /// The size of the window in bytes.
    pub open spec fn size(self) -> int {
        4 * (self.words@.len() as int)
    }

    /// The size of the window in bytes fits a machine word.
    pub open spec fn wf(self) -> bool {
        self.size() <= usize::MAX
    }

    /// Whether a register lies at `offset`.
    pub open spec fn holds(self, offset: int) -> bool {
        0 <= offset && offset % 4 == 0 && offset + 4 <= self.size()
    }

    /// The register at `offset`.
    pub open spec fn word(self, offset: int) -> u32 {
        self.words@[offset / 4]
    }

    /// A window of `size / 4` registers at `base`, every register zero.
    pub fn new(base: Paddr, size: usize) -> (r: Self)
        ensures
            r.wf(),
            r.base == base,
            r.words@.len() == size / 4,
            forall|i: int| 0 <= i < r.words@.len() ==> r.words@[i] == 0,
    {
        let count: usize = size / Self::WORD_BYTES;
        let mut words: Vec<u32> = Vec::new();
        let mut i: usize = 0;
        while i < count
            invariant
                i <= count,
                words@.len() == i,
                forall|j: int| 0 <= j < i ==> words@[j] == 0,
            decreases count - i,
        {
            words.push(0u32);
            i += 1;
        }
        IoMem { base, words }
    }

    /// The physical address of the first register.
    pub fn paddr(&self) -> (r: Paddr)
        ensures
            r == self.base,
    {
        self.base
    }

    /// Reads the register at `offset`. Fails where no register lies there.
    pub fn read_once(&self, offset: usize) -> (r: Result<u32, IoError>)
        ensures
            r == (if self.holds(offset as int) {
                Ok::<u32, IoError>(self.word(offset as int))
            } else {
                Err::<u32, IoError>(IoError::InvalidArgs)
            }),
    {
        if offset % Self::WORD_BYTES == 0 && offset / Self::WORD_BYTES < self.words.len() {
            Ok(self.words[offset / Self::WORD_BYTES])
        } else {
            Err(IoError::InvalidArgs)
        }
    }

    /// Writes the register at `offset` and no other. Fails, and writes
    /// nothing, where no register lies there.
    pub fn write_once(&mut self, offset: usize, val: u32) -> (r: Result<(), IoError>)
        ensures
            final(self).base == old(self).base,
            final(self).wf() == old(self).wf(),
            old(self).holds(offset as int) ==> r is Ok && final(self).words@ == old(
                self,
            ).words@.update(offset as int / 4, val),
            !old(self).holds(offset as int) ==> r == Err::<(), IoError>(IoError::InvalidArgs)
                && final(self).words@ == old(self).words@,
    {
        if offset % Self::WORD_BYTES == 0 && offset / Self::WORD_BYTES < self.words.len() {
            self.words[offset / Self::WORD_BYTES] = val;
            Ok(())
        } else {
            Err(IoError::InvalidArgs)
        }
    }
}

} // verus!
