//! Page-table entries and translation-cache invalidation on LoongArch.

use vstd::prelude::*;
use crate::mm::{CachePolicy, PageFlags, PageProperty, Paddr, PagingLevel, PrivilegedPageFlags};
pub use crate::mm::{
    tlb_flush_addr, tlb_flush_addr_range, tlb_flush_all_excluding_global,
    tlb_flush_all_including_global,
};

verus! {

/// The constants of four-level paging with 48-bit addresses.
#[derive(Clone, Copy, Debug)]
pub struct PagingConsts {}

impl PagingConsts {
    /// The size of a base page in bytes.
    pub const BASE_PAGE_SIZE: usize = 4096;

    /// The number of levels of the page table.
    pub const NR_LEVELS: PagingLevel = 4;

    /// The width of an address in bits.
    pub const ADDRESS_WIDTH: usize = 48;

    /// The highest level at which an entry may map a frame.
    pub const HIGHEST_TRANSLATION_LEVEL: PagingLevel = 4;

    /// The size of one entry in bytes.
    pub const PTE_SIZE: usize = 8;

    /// Whether virtual addresses are sign-extended.
    pub const VA_SIGN_EXT: bool = true;
}

/// The hardware bits of a page-table entry.
pub struct PageTableFlags {}

impl PageTableFlags {
    /// The entry is valid.
    pub const VALID: u64 = 0x1;

    /// The page has been written.
    pub const DIRTY: u64 = 0x2;

    /// Low bit of the privilege level that may use the entry.
    pub const PLVL: u64 = 0x4;

    /// High bit of the privilege level that may use the entry.
    pub const PLVH: u64 = 0x8;

    /// Low bit of the memory access type.
    pub const MATL: u64 = 0x10;

    /// High bit of the memory access type.
    pub const MATH: u64 = 0x20;

    /// The mapping is shared by all address spaces. In an entry that points
    /// to a table the same bit marks a huge page.
    pub const GLOBAL_HUGE: u64 = 0x40;

    /// The page is present in memory.
    pub const PRESENT: u64 = 0x80;

    /// Writes are allowed.
    pub const WRITABLE: u64 = 0x100;

    /// Global in the entry of a huge page, whose frame leaves bit 12 free.
    /// The codec maps base pages and does not use the bit.
    pub const GLOBAL: u64 = 0x1000;

    /// Reads are not allowed.
    pub const NOT_READABLE: u64 = 0x2000_0000_0000_0000;

    /// Instruction fetches are not allowed.
    pub const NOT_EXECUTABLE: u64 = 0x4000_0000_0000_0000;

    /// Only the privilege level of the entry itself may use it.
    pub const RPLV: u64 = 0x8000_0000_0000_0000;
}

/// One packed page-table entry.
///
/// Bits 12 to 47 hold the physical frame. Every flag bit that the codec
/// writes lies outside that field, so the frame and the flags never
/// disturb each other.
#[derive(Clone, Copy, Debug, PartialEq, Eq, Structural)]
pub struct PageTableEntry(pub u64);

/// The hardware bits that stand for `prop`.
pub open spec fn flag_bits(prop: PageProperty) -> u64 {
    PageTableFlags::VALID | (if prop.flags.has(PageFlags::R) {
        0
    } else {
        PageTableFlags::NOT_READABLE
    }) | (if prop.flags.has(PageFlags::W) {
        PageTableFlags::WRITABLE
    } else {
        0
    }) | (if prop.flags.has(PageFlags::X) {
        0
    } else {
        PageTableFlags::NOT_EXECUTABLE
    }) | (if prop.flags.has(PageFlags::ACCESSED) {
        PageTableFlags::PRESENT
    } else {
        0
    }) | (if prop.flags.has(PageFlags::DIRTY) {
        PageTableFlags::DIRTY
    } else {
        0
    }) | (if prop.priv_flags.has(PrivilegedPageFlags::USER) {
        PageTableFlags::PLVL
    } else {
        0
    }) | (if prop.priv_flags.has(PrivilegedPageFlags::GLOBAL) {
        PageTableFlags::GLOBAL_HUGE
    } else {
        0
    }) | (if prop.cache == CachePolicy::Uncacheable {
        PageTableFlags::MATL
    } else {
        0
    })
}

/// Whether `paddr` is the address of a page: aligned to the page size and
/// no wider than 48 bits.
pub open spec fn page_aligned(paddr: Paddr) -> bool {
    paddr % 4096 == 0 && paddr < 0x1_0000_0000_0000
}

/// Whether the codec can store `cache`: one bit tells write-back from
/// uncacheable, and no other policy has an encoding.
pub open spec fn cache_encodable(cache: CachePolicy) -> bool {
    cache == CachePolicy::Writeback || cache == CachePolicy::Uncacheable
}

impl PageTableEntry {
    /// The bits of an entry that hold the physical frame.
    pub const PHYS_ADDR_MASK: u64 = 0x0000_FFFF_FFFF_F000;

    /// The permission bits whose presence marks a leaf above level 1.
    pub const LEAF_MASK: u64 = 0x6000_0000_0000_0100;

    /// The entry that maps the frame at `paddr` with `prop`.
    pub open spec fn page(paddr: Paddr, prop: PageProperty) -> PageTableEntry {
        PageTableEntry((paddr & Self::PHYS_ADDR_MASK) | flag_bits(prop))
    }

    /// Whether the valid bit is set.
    pub open spec fn present(self) -> bool {
        self.0 & PageTableFlags::VALID != 0
    }

    /// The physical address in the frame field.
    pub open spec fn frame(self) -> Paddr {
        self.0 & Self::PHYS_ADDR_MASK
    }

    /// The property that the flag bits stand for.
    pub open spec fn property(self) -> PageProperty {
        PageProperty {
            flags: PageFlags {
                bits: (if self.0 & PageTableFlags::NOT_READABLE == 0 {
                    PageFlags::R
                } else {
                    0
                }) | (if self.0 & PageTableFlags::WRITABLE != 0 {
                    PageFlags::W
                } else {
                    0
                }) | (if self.0 & PageTableFlags::NOT_EXECUTABLE == 0 {
                    PageFlags::X
                } else {
                    0
                }) | (if self.0 & PageTableFlags::PRESENT != 0 {
                    PageFlags::ACCESSED
                } else {
                    0
                }) | (if self.0 & PageTableFlags::DIRTY != 0 {
                    PageFlags::DIRTY
                } else {
                    0
                }),
            },
            cache: if self.0 & PageTableFlags::MATL != 0 {
                CachePolicy::Uncacheable
            } else {
                CachePolicy::Writeback
            },
            priv_flags: PrivilegedPageFlags {
                bits: (if self.0 & PageTableFlags::PLVL != 0 {
                    PrivilegedPageFlags::USER
                } else {
                    0
                }) | (if self.0 & PageTableFlags::GLOBAL_HUGE != 0 {
                    PrivilegedPageFlags::GLOBAL
                } else {
                    0
                }),
            },
        }
    }

    /// Whether the entry ends translation at `level`.
    pub open spec fn leaf(self, level: PagingLevel) -> bool {
        level == 1 || self.0 & Self::LEAF_MASK != 0
    }

    /// Whether the entry is valid.
    pub fn is_present(&self) -> (r: bool)
        ensures
            r == self.present(),
    {
        self.0 & PageTableFlags::VALID != 0
    }

    /// Makes the valid entry that maps the frame at `paddr` with `prop`.
    ///
    /// Bits of `paddr` outside the frame field are dropped. The entry reads
    /// back as present, with that frame and, for a property of known flags,
    /// with that property.
    pub fn new_page(paddr: Paddr, _level: PagingLevel, prop: PageProperty) -> (r: Self)
        requires
            cache_encodable(prop.cache),
        ensures
            r == Self::page(paddr, prop),
            r.present(),
            r.frame() == paddr & Self::PHYS_ADDR_MASK,
            page_aligned(paddr) ==> r.frame() == paddr,
            prop.wf() ==> r.property() == prop,
    {
        proof {
            lemma_aligned_is_masked(paddr);
            lemma_page_reads_back(paddr, prop);
            if prop.wf() {
                lemma_round_trip(paddr, prop);
            }
        }
        let mut pte = PageTableEntry(paddr & Self::PHYS_ADDR_MASK);
        pte.set_prop(prop);
        assert((paddr & 0x0000_FFFF_FFFF_F000u64) & 0x0000_FFFF_FFFF_F000u64 == paddr
            & 0x0000_FFFF_FFFF_F000u64) by (bit_vector);
        pte
    }

    /// Makes the entry that points to the next-level table at `paddr`: the
    /// frame field alone, with no flag set.
    pub fn new_pt(paddr: Paddr) -> (r: Self)
        ensures
            r.0 == paddr & Self::PHYS_ADDR_MASK,
    {
        PageTableEntry(paddr & Self::PHYS_ADDR_MASK)
    }

    /// The physical address that the entry holds.
    pub fn paddr(&self) -> (r: Paddr)
        ensures
            r == self.frame(),
    {
        self.0 & Self::PHYS_ADDR_MASK
    }

    /// The property that the entry holds.
    pub fn prop(&self) -> (r: PageProperty)
        ensures
            r == self.property(),
    {
        let raw: u64 = self.0;
        let r: u8 = if raw & PageTableFlags::NOT_READABLE == 0 {
            PageFlags::R
        } else {
            0
        };
        let w: u8 = if raw & PageTableFlags::WRITABLE != 0 {
            PageFlags::W
        } else {
            0
        };
        let x: u8 = if raw & PageTableFlags::NOT_EXECUTABLE == 0 {
            PageFlags::X
        } else {
            0
        };
        let a: u8 = if raw & PageTableFlags::PRESENT != 0 {
            PageFlags::ACCESSED
        } else {
            0
        };
        let d: u8 = if raw & PageTableFlags::DIRTY != 0 {
            PageFlags::DIRTY
        } else {
            0
        };
        let u: u8 = if raw & PageTableFlags::PLVL != 0 {
            PrivilegedPageFlags::USER
        } else {
            0
        };
        let g: u8 = if raw & PageTableFlags::GLOBAL_HUGE != 0 {
            PrivilegedPageFlags::GLOBAL
        } else {
            0
        };
        let cache = if raw & PageTableFlags::MATL != 0 {
            CachePolicy::Uncacheable
        } else {
            CachePolicy::Writeback
        };
        PageProperty {
            flags: PageFlags { bits: r | w | x | a | d },
            cache,
            priv_flags: PrivilegedPageFlags { bits: u | g },
        }
    }

    /// Replaces the flag bits by those of `prop` and keeps the frame field:
    /// the entry is present afterwards, its frame is what it was, and it
    /// reads back as `prop`. Nothing of the flags that it held survives.
    pub fn set_prop(&mut self, prop: PageProperty)
        requires
            cache_encodable(prop.cache),
        ensures
            final(self).0 == (old(self).0 & Self::PHYS_ADDR_MASK) | flag_bits(prop),
            *final(self) == Self::page(old(self).0, prop),
            final(self).present(),
            final(self).frame() == old(self).frame(),
            prop.wf() ==> final(self).property() == prop,
    {
        proof {
            lemma_page_reads_back(old(self).0, prop);
            if prop.wf() {
                lemma_round_trip(old(self).0, prop);
            }
        }
        let r: u64 = if prop.flags.contains(PageFlags::R) {
            0
        } else {
            PageTableFlags::NOT_READABLE
        };
        let w: u64 = if prop.flags.contains(PageFlags::W) {
            PageTableFlags::WRITABLE
        } else {
            0
        };
        let x: u64 = if prop.flags.contains(PageFlags::X) {
            0
        } else {
            PageTableFlags::NOT_EXECUTABLE
        };
        let a: u64 = if prop.flags.contains(PageFlags::ACCESSED) {
            PageTableFlags::PRESENT
        } else {
            0
        };
        let d: u64 = if prop.flags.contains(PageFlags::DIRTY) {
            PageTableFlags::DIRTY
        } else {
            0
        };
        let u: u64 = if prop.priv_flags.contains(PrivilegedPageFlags::USER) {
            PageTableFlags::PLVL
        } else {
            0
        };
        let g: u64 = if prop.priv_flags.contains(PrivilegedPageFlags::GLOBAL) {
            PageTableFlags::GLOBAL_HUGE
        } else {
            0
        };
        let c: u64 = match prop.cache {
            CachePolicy::Uncacheable => PageTableFlags::MATL,
            _ => 0,
        };
        let flags: u64 = PageTableFlags::VALID | r | w | x | a | d | u | g | c;
        self.0 = (self.0 & Self::PHYS_ADDR_MASK) | flags;
    }

    /// Whether the entry ends translation at `level`: always at level 1,
    /// and above it where a permission bit is set.
    pub fn is_last(&self, level: PagingLevel) -> (r: bool)
        ensures
            r == self.leaf(level),
    {
        level == 1 || (self.0 & Self::LEAF_MASK) != 0
    }
}

proof fn lemma_flag_bits_read_back(
    p: u64,
    r: bool,
    w: bool,
    x: bool,
    a: bool,
    d: bool,
    u: bool,
    g: bool,
    c: bool,
)
    by (bit_vector)
    ensures
        ({
            let raw: u64 = (p & 0x0000_FFFF_FFFF_F000u64) | (0x1u64 | (if r {
                0u64
            } else {
                0x2000_0000_0000_0000u64
            }) | (if w {
                0x100u64
            } else {
                0u64
            }) | (if x {
                0u64
            } else {
                0x4000_0000_0000_0000u64
            }) | (if a {
                0x80u64
            } else {
                0u64
            }) | (if d {
                0x2u64
            } else {
                0u64
            }) | (if u {
                0x4u64
            } else {
                0u64
            }) | (if g {
                0x40u64
            } else {
                0u64
            }) | (if c {
                0x10u64
            } else {
                0u64
            }));
            &&& raw & 0x1u64 != 0
            &&& (raw & 0x2000_0000_0000_0000u64 == 0) == r
            &&& (raw & 0x100u64 != 0) == w
            &&& (raw & 0x4000_0000_0000_0000u64 == 0) == x
            &&& (raw & 0x80u64 != 0) == a
            &&& (raw & 0x2u64 != 0) == d
            &&& (raw & 0x4u64 != 0) == u
            &&& (raw & 0x40u64 != 0) == g
            &&& (raw & 0x10u64 != 0) == c
            &&& raw & 0x0000_FFFF_FFFF_F000u64 == p & 0x0000_FFFF_FFFF_F000u64
            &&& (raw & 0x6000_0000_0000_0100u64 != 0) == (!r || w || !x)
        }),
{
}

proof fn lemma_page_flags_rebuild(b: u8)
    by (bit_vector)
    requires
        b <= 0b0001_1111u8,
    ensures
        (if b & 1u8 == 1u8 {
            1u8
        } else {
            0u8
        }) | (if b & 2u8 == 2u8 {
            2u8
        } else {
            0u8
        }) | (if b & 4u8 == 4u8 {
            4u8
        } else {
            0u8
        }) | (if b & 8u8 == 8u8 {
            8u8
        } else {
            0u8
        }) | (if b & 16u8 == 16u8 {
            16u8
        } else {
            0u8
        }) == b,
{
}

proof fn lemma_priv_flags_rebuild(b: u8)
    by (bit_vector)
    requires
        b <= 0b0000_0011u8,
    ensures
        (if b & 1u8 == 1u8 {
            1u8
        } else {
            0u8
        }) | (if b & 2u8 == 2u8 {
            2u8
        } else {
            0u8
        }) == b,
{
}

/// What an entry made by the codec reads back as, whatever the address and
/// the property: it is present, its frame is the masked address, its cache
/// policy is that of the property, and each flag of the vocabulary reads
/// back as it was given.
pub proof fn lemma_page_reads_back(paddr: Paddr, prop: PageProperty)
    requires
        cache_encodable(prop.cache),
    ensures
        PageTableEntry::page(paddr, prop).present(),
        PageTableEntry::page(paddr, prop).frame() == paddr & PageTableEntry::PHYS_ADDR_MASK,
        PageTableEntry::page(paddr, prop).property().cache == prop.cache,
        PageTableEntry::page(paddr, prop).property().wf(),
        forall|flag: u8|
            flag == PageFlags::R || flag == PageFlags::W || flag == PageFlags::X || flag
                == PageFlags::ACCESSED || flag == PageFlags::DIRTY ==> #[trigger] PageTableEntry::page(
                paddr,
                prop,
            ).property().flags.has(flag) == prop.flags.has(flag),
        forall|flag: u8|
            flag == PrivilegedPageFlags::USER || flag == PrivilegedPageFlags::GLOBAL
                ==> #[trigger] PageTableEntry::page(paddr, prop).property().priv_flags.has(flag)
                == prop.priv_flags.has(flag),
{
    let r = prop.flags.has(PageFlags::R);
    let w = prop.flags.has(PageFlags::W);
    let x = prop.flags.has(PageFlags::X);
    let a = prop.flags.has(PageFlags::ACCESSED);
    let d = prop.flags.has(PageFlags::DIRTY);
    let u = prop.priv_flags.has(PrivilegedPageFlags::USER);
    let g = prop.priv_flags.has(PrivilegedPageFlags::GLOBAL);
    let c = prop.cache == CachePolicy::Uncacheable;
    lemma_flag_bits_read_back(paddr, r, w, x, a, d, u, g, c);
    let q = PageTableEntry::page(paddr, prop).property();
    assert(q.flags.bits == (if r {
        1u8
    } else {
        0u8
    }) | (if w {
        2u8
    } else {
        0u8
    }) | (if x {
        4u8
    } else {
        0u8
    }) | (if a {
        8u8
    } else {
        0u8
    }) | (if d {
        16u8
    } else {
        0u8
    }));
    assert(q.priv_flags.bits == (if u {
        1u8
    } else {
        0u8
    }) | (if g {
        2u8
    } else {
        0u8
    }));
    lemma_flags_of_bools(r, w, x, a, d);
    lemma_priv_flags_of_bools(u, g);
}

proof fn lemma_flags_of_bools(r: bool, w: bool, x: bool, a: bool, d: bool)
    by (bit_vector)
    ensures
        ({
            let b: u8 = (if r {
                1u8
            } else {
                0u8
            }) | (if w {
                2u8
            } else {
                0u8
            }) | (if x {
                4u8
            } else {
                0u8
            }) | (if a {
                8u8
            } else {
                0u8
            }) | (if d {
                16u8
            } else {
                0u8
            });
            &&& b <= 0b0001_1111u8
            &&& (b & 1u8 == 1u8) == r
            &&& (b & 2u8 == 2u8) == w
            &&& (b & 4u8 == 4u8) == x
            &&& (b & 8u8 == 8u8) == a
            &&& (b & 16u8 == 16u8) == d
        }),
{
}

proof fn lemma_priv_flags_of_bools(u: bool, g: bool)
    by (bit_vector)
    ensures
        ({
            let b: u8 = (if u {
                1u8
            } else {
                0u8
            }) | (if g {
                2u8
            } else {
                0u8
            });
            &&& b <= 0b0000_0011u8
            &&& (b & 1u8 == 1u8) == u
            &&& (b & 2u8 == 2u8) == g
        }),
{
}

/// The frame field holds the address of a page whole: masking leaves it as
/// it is.
pub proof fn lemma_aligned_is_masked(paddr: Paddr)
    ensures
        page_aligned(paddr) <==> paddr & PageTableEntry::PHYS_ADDR_MASK == paddr,
{
    assert((paddr % 4096 == 0 && paddr < 0x1_0000_0000_0000u64) <==> (paddr
        & 0x0000_FFFF_FFFF_F000u64 == paddr)) by (bit_vector);
}

/// Decoding undoes encoding: an entry made from any address and any
/// property of the generic vocabulary is present, holds the masked address
/// as its frame and gives back that property. For a page-aligned address
/// of at most 48 bits the frame is the address itself.
pub proof fn lemma_round_trip(paddr: Paddr, prop: PageProperty)
    requires
        prop.wf(),
        cache_encodable(prop.cache),
    ensures
        PageTableEntry::page(paddr, prop).present(),
        PageTableEntry::page(paddr, prop).frame() == paddr & PageTableEntry::PHYS_ADDR_MASK,
        page_aligned(paddr) ==> PageTableEntry::page(paddr, prop).frame() == paddr,
        PageTableEntry::page(paddr, prop).property() == prop,
{
    lemma_aligned_is_masked(paddr);
    lemma_page_reads_back(paddr, prop);
    lemma_page_flags_rebuild(prop.flags.bits);
    lemma_priv_flags_rebuild(prop.priv_flags.bits);
    let q = PageTableEntry::page(paddr, prop).property();
    let r = prop.flags.has(PageFlags::R);
    let w = prop.flags.has(PageFlags::W);
    let x = prop.flags.has(PageFlags::X);
    let a = prop.flags.has(PageFlags::ACCESSED);
    let d = prop.flags.has(PageFlags::DIRTY);
    let u = prop.priv_flags.has(PrivilegedPageFlags::USER);
    let g = prop.priv_flags.has(PrivilegedPageFlags::GLOBAL);
    lemma_flag_bits_read_back(paddr, r, w, x, a, d, u, g, prop.cache == CachePolicy::Uncacheable);
    assert(q.flags.bits == prop.flags.bits);
    assert(q.priv_flags.bits == prop.priv_flags.bits);
}

/// Setting a second property leaves nothing of the first: the entry reads
/// back as the second property, at the frame that it had.
pub proof fn lemma_set_prop_replaces(paddr: Paddr, first: PageProperty, second: PageProperty)
    requires
        first.wf(),
        second.wf(),
        cache_encodable(first.cache),
        cache_encodable(second.cache),
    ensures
        PageTableEntry::page(PageTableEntry::page(paddr, first).0, second) == PageTableEntry::page(
            paddr,
            second,
        ),
        PageTableEntry::page(PageTableEntry::page(paddr, first).0, second).property() == second,
        PageTableEntry::page(PageTableEntry::page(paddr, first).0, second).frame() == paddr
            & PageTableEntry::PHYS_ADDR_MASK,
{
    lemma_page_reads_back(paddr, first);
    lemma_round_trip(paddr, second);
    let e = PageTableEntry::page(paddr, first);
    assert(e.0 & PageTableEntry::PHYS_ADDR_MASK == paddr & PageTableEntry::PHYS_ADDR_MASK);
}

/// Encoding masks the address: the bits of `paddr` below bit 12 and above
/// bit 47 do not reach the entry, so an unaligned address encodes as the
/// start of its page.
pub proof fn lemma_encoding_masks_address(paddr: Paddr, prop: PageProperty)
    ensures
        PageTableEntry::page(paddr, prop) == PageTableEntry::page(
            paddr & PageTableEntry::PHYS_ADDR_MASK,
            prop,
        ),
        (paddr & PageTableEntry::PHYS_ADDR_MASK) & 0xFFFu64 == 0,
{
    assert((paddr & 0x0000_FFFF_FFFF_F000u64) & 0x0000_FFFF_FFFF_F000u64 == paddr
        & 0x0000_FFFF_FFFF_F000u64) by (bit_vector);
    assert((paddr & 0x0000_FFFF_FFFF_F000u64) & 0xFFFu64 == 0) by (bit_vector);
}

/// The flag bits and the frame field are disjoint: no flag bit that the
/// codec writes lies in bits 12 to 47, and storing a property leaves the
/// frame bits of the address as they are.
pub proof fn lemma_flags_spare_frame(paddr: Paddr, prop: PageProperty)
    ensures
        flag_bits(prop) & PageTableEntry::PHYS_ADDR_MASK == 0,
        PageTableEntry::page(paddr, prop).0 & PageTableEntry::PHYS_ADDR_MASK == paddr
            & PageTableEntry::PHYS_ADDR_MASK,
{
    let r = prop.flags.has(PageFlags::R);
    let w = prop.flags.has(PageFlags::W);
    let x = prop.flags.has(PageFlags::X);
    let a = prop.flags.has(PageFlags::ACCESSED);
    let d = prop.flags.has(PageFlags::DIRTY);
    let u = prop.priv_flags.has(PrivilegedPageFlags::USER);
    let g = prop.priv_flags.has(PrivilegedPageFlags::GLOBAL);
    let c = prop.cache == CachePolicy::Uncacheable;
    lemma_flag_bits_read_back(paddr, r, w, x, a, d, u, g, c);
    lemma_flag_bits_read_back(0, r, w, x, a, d, u, g, c);
    let f = flag_bits(prop);
    assert((0u64 & 0x0000_FFFF_FFFF_F000u64) | f == f) by (bit_vector);
    assert(0u64 & 0x0000_FFFF_FFFF_F000u64 == 0) by (bit_vector);
}

/// An entry made for a page is a leaf at every level above 1 unless the
/// page is readable and executable and not writable; a pointer to a table
/// is a leaf at level 1 only.
pub proof fn lemma_leaf_policy(paddr: Paddr, prop: PageProperty, level: PagingLevel)
    requires
        level != 1,
    ensures
        PageTableEntry::page(paddr, prop).leaf(level) == (!prop.flags.has(PageFlags::R)
            || prop.flags.has(PageFlags::W) || !prop.flags.has(PageFlags::X)),
        !PageTableEntry(paddr & PageTableEntry::PHYS_ADDR_MASK).leaf(level),
{
    lemma_flag_bits_read_back(
        paddr,
        prop.flags.has(PageFlags::R),
        prop.flags.has(PageFlags::W),
        prop.flags.has(PageFlags::X),
        prop.flags.has(PageFlags::ACCESSED),
        prop.flags.has(PageFlags::DIRTY),
        prop.priv_flags.has(PrivilegedPageFlags::USER),
        prop.priv_flags.has(PrivilegedPageFlags::GLOBAL),
        prop.cache == CachePolicy::Uncacheable,
    );
    assert((paddr & 0x0000_FFFF_FFFF_F000u64) & 0x6000_0000_0000_0100u64 == 0)
        by (bit_vector);
}

/// The physical address of the page table that the core walks, from the
/// two root registers. The kernel shares one table between the user half
/// and the kernel half, so the two registers have to agree.
pub fn current_page_table_paddr(pgdl: u64, pgdh: u64) -> (r: Paddr)
    requires
        pgdl == pgdh,
    ensures
        r == pgdl & PageTableEntry::PHYS_ADDR_MASK,
{
    pgdl & 0x0000_FFFF_FFFF_F000
}

/// Whether `root_paddr` can be the root of a page table: it is aligned to
/// a page.
pub fn is_valid_root(root_paddr: Paddr) -> (r: bool)
    ensures
        r == (root_paddr % (PagingConsts::BASE_PAGE_SIZE as u64) == 0),
{
    root_paddr % (PagingConsts::BASE_PAGE_SIZE as u64) == 0
}

} // verus!
