//! The architecture-neutral vocabulary of page mappings.

use vstd::prelude::*;
use core::ops::Range;

verus! {

/// A physical address. Page-table entries hold 48-bit physical addresses,
/// so the type is 64 bits wide on every target.
pub type Paddr = u64;

/// A virtual address.
pub type Vaddr = usize;

/// A level of the page table; level 1 is the lowest.
pub type PagingLevel = u8;

/// The size of a base page in bytes.
pub const PAGE_SIZE: usize = 4096;

/// The first address above those that user programs may use.
pub const MAX_USERSPACE_VADDR: u64 = 0x0000_7FFF_FFFF_F000;

/// How the memory behind a mapping is cached.
#[derive(Clone, Copy, Debug, PartialEq, Eq, Structural)]
pub enum CachePolicy {
    /// Reads and writes bypass the cache.
    Uncacheable,
    /// Writes may be combined before they reach memory.
    WriteCombining,
    /// Writes update memory and invalidate the cache line.
    WriteProtected,
    /// Writes update memory and the cache line.
    Writethrough,
    /// Ordinary cached memory.
    Writeback,
}

/// Permissions and access status of a page, one bit each.
#[derive(Clone, Copy, Debug, PartialEq, Eq, Structural)]
pub struct PageFlags {
    pub bits: u8,
}

impl PageFlags {
    /// Readable.
    pub const R: u8 = 0b0000_0001;

    /// Writable.
    pub const W: u8 = 0b0000_0010;

    /// Executable.
    pub const X: u8 = 0b0000_0100;

    /// The page has been read or written.
    pub const ACCESSED: u8 = 0b0000_1000;

    /// The page has been written.
    pub const DIRTY: u8 = 0b0001_0000;

    /// Every bit that has a meaning.
    pub const ALL: u8 = 0b0001_1111;

    /// No bit outside the vocabulary is set.
    pub open spec fn wf(self) -> bool {
        self.bits <= Self::ALL
    }

    /// Whether every bit of `mask` is set.
    pub open spec fn has(self, mask: u8) -> bool {
        self.bits & mask == mask
    }

    /// The flags with no bit set.
    pub fn empty() -> (r: Self)
        ensures
            r.bits == 0,
            r.wf(),
    {
        PageFlags { bits: 0 }
    }

    /// The flags that `bits` spells, if `bits` names known flags only.
    pub fn from_bits(bits: u8) -> (r: Option<Self>)
        ensures
            r == (if bits <= Self::ALL {
                Some(PageFlags { bits })
            } else {
                None
            }),
    {
        if bits <= Self::ALL {
            Some(PageFlags { bits })
        } else {
            None
        }
    }

    /// The flags that `bits` spells, unknown bits dropped.
    pub fn from_bits_truncate(bits: u8) -> (r: Self)
        ensures
            r.bits == bits & Self::ALL,
            r.wf(),
    {
        assert(bits & 0b0001_1111u8 <= 0b0001_1111u8) by (bit_vector);
        PageFlags { bits: bits & Self::ALL }
    }

    /// The raw bits.
    pub fn bits(&self) -> (r: u8)
        ensures
            r == self.bits,
    {
        self.bits
    }

    /// Whether every bit of `mask` is set.
    pub fn contains(&self, mask: u8) -> (r: bool)
        ensures
            r == self.has(mask),
    {
        self.bits & mask == mask
    }

    /// The flags set in either operand.
    pub fn union(self, other: Self) -> (r: Self)
        ensures
            r.bits == self.bits | other.bits,
            self.wf() && other.wf() ==> r.wf(),
    {
        let a: u8 = self.bits;
        let b: u8 = other.bits;
        assert(a <= 0b0001_1111u8 && b <= 0b0001_1111u8 ==> (a | b) <= 0b0001_1111u8)
            by (bit_vector);
        PageFlags { bits: a | b }
    }
}

/// Flags of a mapping that only privileged code may set.
#[derive(Clone, Copy, Debug, PartialEq, Eq, Structural)]
pub struct PrivilegedPageFlags {
    pub bits: u8,
}

impl PrivilegedPageFlags {
    /// Accessible from user mode.
    pub const USER: u8 = 0b0000_0001;

    /// Shared by all address spaces.
    pub const GLOBAL: u8 = 0b0000_0010;

    /// Every bit that has a meaning.
    pub const ALL: u8 = 0b0000_0011;

    /// No bit outside the vocabulary is set.
    pub open spec fn wf(self) -> bool {
        self.bits <= Self::ALL
    }

    /// Whether every bit of `mask` is set.
    pub open spec fn has(self, mask: u8) -> bool {
        self.bits & mask == mask
    }

    /// The flags with no bit set.
    pub fn empty() -> (r: Self)
        ensures
            r.bits == 0,
            r.wf(),
    {
        PrivilegedPageFlags { bits: 0 }
    }

    /// The flags that `bits` spells, if `bits` names known flags only.
    pub fn from_bits(bits: u8) -> (r: Option<Self>)
        ensures
            r == (if bits <= Self::ALL {
                Some(PrivilegedPageFlags { bits })
            } else {
                None
            }),
    {
        if bits <= Self::ALL {
            Some(PrivilegedPageFlags { bits })
        } else {
            None
        }
    }

    /// The raw bits.
    pub fn bits(&self) -> (r: u8)
        ensures
            r == self.bits,
    {
        self.bits
    }

    /// Whether every bit of `mask` is set.
    pub fn contains(&self, mask: u8) -> (r: bool)
        ensures
            r == self.has(mask),
    {
        self.bits & mask == mask
    }
}

/// Everything a mapping says about its page besides the frame.
#[derive(Clone, Copy, Debug, PartialEq, Eq, Structural)]
pub struct PageProperty {
    /// Permissions and access status.
    pub flags: PageFlags,
    /// The cache policy.
    pub cache: CachePolicy,
    /// The privileged flags.
    pub priv_flags: PrivilegedPageFlags,
}

impl PageProperty {
    /// Both flag sets hold known bits only.
    pub open spec fn wf(self) -> bool {
        self.flags.wf() && self.priv_flags.wf()
    }

    /// A property for a page of a user program.
    pub fn new_user(flags: PageFlags, cache: CachePolicy) -> (r: Self)
        ensures
            r.flags == flags,
            r.cache == cache,
            r.priv_flags.bits == PrivilegedPageFlags::USER,
    {
        PageProperty { flags, cache, priv_flags: PrivilegedPageFlags { bits: PrivilegedPageFlags::USER } }
    }

    /// A property without permissions, for a page that is not mapped.
    pub fn new_absent() -> (r: Self)
        ensures
            r.flags.bits == 0,
            r.cache == CachePolicy::Writeback,
            r.priv_flags.bits == 0,
            r.wf(),
    {
        PageProperty {
            flags: PageFlags::empty(),
            cache: CachePolicy::Writeback,
            priv_flags: PrivilegedPageFlags::empty(),
        }
    }
}

/// The start of the page that holds `addr`.
pub open spec fn page_base(addr: int) -> int {
    addr - addr % (PAGE_SIZE as int)
}

/// Rounds `addr` down to the start of the page that holds it.
pub fn page_floor(addr: Vaddr) -> (r: Vaddr)
    ensures
        r == page_base(addr as int),
        r % PAGE_SIZE == 0,
        r <= addr < r + PAGE_SIZE,
{
    addr - addr % PAGE_SIZE
}

/// One translation held by the translation cache.
#[derive(Clone, Copy, Debug, PartialEq, Eq, Structural)]
pub struct TlbEntry {
    /// An address inside the page that the entry translates.
    pub vaddr: Vaddr,
    /// Whether the entry belongs to every address space.
    pub global: bool,
}

/// The translation cache of one core: a fixed number of slots, each empty
/// or holding one translation.
#[derive(Debug)]
pub struct Tlb {
    pub slots: Vec<Option<TlbEntry>>,
}

/// Whether `slot` holds a translation for the page that starts at `page`.
pub open spec fn slot_maps(slot: Option<TlbEntry>, page: int) -> bool {
    slot is Some && page_base(slot->0.vaddr as int) == page
}

/// Whether `slot` holds a translation for a page that starts in `first..=last`.
pub open spec fn slot_maps_within(slot: Option<TlbEntry>, first: int, last: int) -> bool {
    slot is Some && first <= page_base(slot->0.vaddr as int) <= last
}

/// The start of page number `k`, counted from the page that holds `start`.
pub open spec fn nth_page(start: int, k: int) -> int {
    page_base(start) + k * PAGE_SIZE
}

/// How many pages the half-open range `start..end` touches.
pub open spec fn pages_touched(start: int, end: int) -> int {
    if start < end {
        (page_base(end - 1) - page_base(start)) / (PAGE_SIZE as int) + 1
    } else {
        0
    }
}

impl Tlb {
    /// Whether some slot holds a translation for the page of `vaddr`.
    pub open spec fn caches(self, vaddr: int) -> bool {
        exists|i: int|
            0 <= i < self.slots@.len() && slot_maps(#[trigger] self.slots@[i], page_base(vaddr))
    }

    /// A cache of `capacity` empty slots.
    pub fn new(capacity: usize) -> (r: Self)
        ensures
            r.slots@.len() == capacity,
            forall|i: int| 0 <= i < capacity ==> r.slots@[i] is None,
    {
        let mut slots: Vec<Option<TlbEntry>> = Vec::new();
        let mut i: usize = 0;
        while i < capacity
            invariant
                i <= capacity,
                slots@.len() == i,
                forall|j: int| 0 <= j < i ==> slots@[j] is None,
            decreases capacity - i,
        {
            slots.push(None);
            i += 1;
        }
        Tlb { slots }
    }

    /// Puts `entry` into slot `index`, as the hardware does when it refills
    /// the cache.
    pub fn fill(&mut self, index: usize, entry: TlbEntry)
        requires
            index < old(self).slots@.len(),
        ensures
            final(self).slots@ == old(self).slots@.update(index as int, Some(entry)),
    {
        self.slots[index] = Some(entry);
    }

    /// Whether some slot holds a translation for the page of `vaddr`.
    pub fn lookup(&self, vaddr: Vaddr) -> (r: bool)
        ensures
            r == self.caches(vaddr as int),
    {
        let page: usize = page_floor(vaddr);
        let mut i: usize = 0;
        while i < self.slots.len()
            invariant
                i <= self.slots@.len(),
                page == page_base(vaddr as int),
                forall|j: int| 0 <= j < i ==> !slot_maps(#[trigger] self.slots@[j], page as int),
            decreases self.slots@.len() - i,
        {
            match self.slots[i] {
                Some(e) => {
                    if page_floor(e.vaddr) == page {
                        return true;
                    }
                },
                None => {},
            }
            i += 1;
        }
        false
    }
}

/// Drops every translation for the page that holds `vaddr`, global or not.
/// All other slots stay as they are.
pub fn tlb_flush_addr(tlb: &mut Tlb, vaddr: Vaddr)
    ensures
        final(tlb).slots@.len() == old(tlb).slots@.len(),
        forall|i: int|
            0 <= i < old(tlb).slots@.len() ==> #[trigger] final(tlb).slots@[i] == (if slot_maps(
                old(tlb).slots@[i],
                page_base(vaddr as int),
            ) {
                None
            } else {
                old(tlb).slots@[i]
            }),
        !final(tlb).caches(vaddr as int),
{
    let page: usize = page_floor(vaddr);
    let mut i: usize = 0;
    while i < tlb.slots.len()
        invariant
            i <= tlb.slots@.len(),
            tlb.slots@.len() == old(tlb).slots@.len(),
            page == page_base(vaddr as int),
            forall|j: int|
                0 <= j < i ==> #[trigger] tlb.slots@[j] == (if slot_maps(
                    old(tlb).slots@[j],
                    page as int,
                ) {
                    None
                } else {
                    old(tlb).slots@[j]
                }),
            forall|j: int| i <= j < tlb.slots@.len() ==> tlb.slots@[j] == old(tlb).slots@[j],
        decreases tlb.slots@.len() - i,
    {
        let hit = match tlb.slots[i] {
            Some(e) => page_floor(e.vaddr) == page,
            None => false,
        };
        if hit {
            tlb.slots[i] = None;
        }
        i += 1;
    }
}

/// Drops every translation for a page that the half-open range touches, one
/// single-address invalidation per page, lowest page first, and returns the
/// page addresses in the order in which they were invalidated. A page that
/// the range covers only in part, at either end, is invalidated too.
#[verifier::rlimit(40)]
pub fn tlb_flush_addr_range(tlb: &mut Tlb, range: &Range<Vaddr>) -> (pages: Vec<Vaddr>)
    ensures
        pages@.len() == pages_touched(range.start as int, range.end as int),
        forall|k: int|
            0 <= k < pages@.len() ==> #[trigger] pages@[k] == nth_page(range.start as int, k),
        final(tlb).slots@.len() == old(tlb).slots@.len(),
        forall|i: int|
            0 <= i < old(tlb).slots@.len() ==> #[trigger] final(tlb).slots@[i] == (if range.start
                < range.end && slot_maps_within(
                old(tlb).slots@[i],
                page_base(range.start as int),
                page_base(range.end - 1),
            ) {
                None
            } else {
                old(tlb).slots@[i]
            }),
        forall|vaddr: int| range.start <= vaddr < range.end ==> !final(tlb).caches(vaddr),
{
    let mut pages: Vec<Vaddr> = Vec::new();
    if range.start >= range.end {
        return pages;
    }
    let first: usize = page_floor(range.start);
    let last: usize = page_floor(range.end - 1);
    let count: usize = (last - first) / PAGE_SIZE + 1;
    let mut k: usize = 0;
    while k < count
        invariant
            k <= count,
            first == page_base(range.start as int),
            last == page_base(range.end - 1),
            first <= last,
            first % PAGE_SIZE == 0,
            last % PAGE_SIZE == 0,
            count == (last - first) / (PAGE_SIZE as int) + 1,
            pages@.len() == k,
            forall|j: int| 0 <= j < k ==> #[trigger] pages@[j] == first + j * PAGE_SIZE,
            tlb.slots@.len() == old(tlb).slots@.len(),
            forall|i: int|
                0 <= i < old(tlb).slots@.len() ==> #[trigger] tlb.slots@[i] == (if k > 0
                    && slot_maps_within(
                    old(tlb).slots@[i],
                    first as int,
                    first + (k - 1) * PAGE_SIZE,
                ) {
                    None
                } else {
                    old(tlb).slots@[i]
                }),
        decreases count - k,
    {
        let page: usize = first + k * PAGE_SIZE;
        tlb_flush_addr(tlb, page);
        pages.push(page);
        proof {
            assert(page_base(page as int) == page);
            assert forall|i: int| 0 <= i < old(tlb).slots@.len() implies #[trigger] tlb.slots@[i]
                == (if slot_maps_within(old(tlb).slots@[i], first as int, first + k * PAGE_SIZE) {
                None
            } else {
                old(tlb).slots@[i]
            }) by {
                let s = old(tlb).slots@[i];
                if s is Some {
                    let b = page_base(s->0.vaddr as int);
                    assert(b % (PAGE_SIZE as int) == 0);
                    if first <= b <= first + k * PAGE_SIZE && b != page {
                        assert(b <= first + (k - 1) * PAGE_SIZE);
                    }
                }
            }
        }
        k += 1;
    }
    proof {
        assert forall|vaddr: int| range.start <= vaddr < range.end implies !tlb.caches(vaddr) by {
            let page = page_base(vaddr);
            assert(first <= page <= last);
            assert forall|i: int| 0 <= i < tlb.slots@.len() implies !slot_maps(
                #[trigger] tlb.slots@[i],
                page,
            ) by {
                if slot_maps(old(tlb).slots@[i], page) {
                    assert(slot_maps_within(old(tlb).slots@[i], first as int, last as int));
                }
            }
        }
    }
    pages
}

/// Drops every translation that is not global.
pub fn tlb_flush_all_excluding_global(tlb: &mut Tlb)
    ensures
        final(tlb).slots@.len() == old(tlb).slots@.len(),
        forall|i: int|
            0 <= i < old(tlb).slots@.len()
                ==> #[trigger] final(tlb).slots@[i] == (if old(tlb).slots@[i] is Some && !old(tlb).slots@[i]->0.global {
                None
            } else {
                old(tlb).slots@[i]
            }),
{
    let mut i: usize = 0;
    while i < tlb.slots.len()
        invariant
            i <= tlb.slots@.len(),
            tlb.slots@.len() == old(tlb).slots@.len(),
            forall|j: int|
                0 <= j < i ==> #[trigger] tlb.slots@[j] == (if old(tlb).slots@[j] is Some
                    && !old(tlb).slots@[j]->0.global {
                    None
                } else {
                    old(tlb).slots@[j]
                }),
            forall|j: int| i <= j < tlb.slots@.len() ==> tlb.slots@[j] == old(tlb).slots@[j],
        decreases tlb.slots@.len() - i,
    {
        let keep = match tlb.slots[i] {
            Some(e) => e.global,
            None => true,
        };
        if !keep {
            tlb.slots[i] = None;
        }
        i += 1;
    }
}

/// Drops every translation, the global ones too.
pub fn tlb_flush_all_including_global(tlb: &mut Tlb)
    ensures
        final(tlb).slots@.len() == old(tlb).slots@.len(),
        forall|i: int| 0 <= i < old(tlb).slots@.len() ==> final(tlb).slots@[i] is None,
{
    let mut i: usize = 0;
    while i < tlb.slots.len()
        invariant
            i <= tlb.slots@.len(),
            tlb.slots@.len() == old(tlb).slots@.len(),
            forall|j: int| 0 <= j < i ==> tlb.slots@[j] is None,
        decreases tlb.slots@.len() - i,
    {
        tlb.slots[i] = None;
        i += 1;
    }
}

/// A range flush invalidates the pages from the one that holds `start` to
/// the one that holds `end - 1`, each once: the page addresses rise by one
/// page size from the first to the last.
pub proof fn lemma_flush_range_covers(start: int, end: int)
    requires
        0 <= start < end,
    ensures
        pages_touched(start, end) >= 1,
        nth_page(start, 0) == page_base(start),
        nth_page(start, pages_touched(start, end) - 1) == page_base(end - 1),
        forall|j: int, k: int|
            0 <= j < k < pages_touched(start, end) ==> #[trigger] nth_page(start, j)
                < #[trigger] nth_page(start, k),
{
}

/// A range flush invalidates `ceil((end - start) / PAGE_SIZE)` pages where
/// the offset of `start` in its page and the offset of the last byte in its
/// run of whole pages do not add up to a page: in particular for every
/// page-aligned `start`. Otherwise the range straddles one page more.
pub proof fn lemma_flush_range_page_count(start: int, end: int)
    requires
        0 <= start < end,
    ensures
        start % (PAGE_SIZE as int) + (end - start - 1) % (PAGE_SIZE as int) < PAGE_SIZE
            ==> pages_touched(start, end) == (end - start + PAGE_SIZE - 1) / (PAGE_SIZE as int),
        start % (PAGE_SIZE as int) + (end - start - 1) % (PAGE_SIZE as int) >= PAGE_SIZE
            ==> pages_touched(start, end) == (end - start + PAGE_SIZE - 1) / (PAGE_SIZE as int)
            + 1,
        start % (PAGE_SIZE as int) == 0 ==> pages_touched(start, end) == (end - start + PAGE_SIZE
            - 1) / (PAGE_SIZE as int),
{
}

} // verus!
