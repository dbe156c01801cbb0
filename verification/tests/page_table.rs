use hal_core::arch::loongarch::mm::{PageTableEntry, PageTableFlags};
use hal_core::mm::{CachePolicy, PageFlags, PageProperty, PrivilegedPageFlags};

fn prop(flags: u8, cache: CachePolicy, priv_flags: u8) -> PageProperty {
    PageProperty {
        flags: PageFlags::from_bits(flags).unwrap(),
        cache,
        priv_flags: PrivilegedPageFlags::from_bits(priv_flags).unwrap(),
    }
}

#[test]
fn encode_places_each_flag_in_its_bit() {
    let p = prop(PageFlags::R | PageFlags::W, CachePolicy::Writeback, PrivilegedPageFlags::USER);
    let pte = PageTableEntry::new_page(0x8000_2000, 1, p);
    // valid, writable, user level, not executable, frame.
    assert_eq!(pte.0, 0x4000_0000_8000_2105);
    assert!(pte.is_present());
    assert_eq!(pte.paddr(), 0x8000_2000);
    assert_eq!(pte.prop(), p);
}

#[test]
fn read_and_execute_are_stored_inverted() {
    let none = PageTableEntry::new_page(0, 1, prop(0, CachePolicy::Writeback, 0));
    assert_eq!(none.0, PageTableFlags::VALID | PageTableFlags::NOT_READABLE | PageTableFlags::NOT_EXECUTABLE);
    let rx = PageTableEntry::new_page(0, 1, prop(PageFlags::R | PageFlags::X, CachePolicy::Writeback, 0));
    assert_eq!(rx.0, PageTableFlags::VALID);
}

#[test]
fn uncacheable_sets_the_access_type_bit() {
    let pte = PageTableEntry::new_page(0x4000, 1, prop(PageFlags::R | PageFlags::X, CachePolicy::Uncacheable, 0));
    assert_eq!(pte.0, 0x4000 | PageTableFlags::VALID | PageTableFlags::MATL);
    assert_eq!(pte.prop().cache, CachePolicy::Uncacheable);
}

#[test]
fn accessed_and_dirty_round_trip() {
    let p = prop(
        PageFlags::R | PageFlags::X | PageFlags::ACCESSED | PageFlags::DIRTY,
        CachePolicy::Writeback,
        0,
    );
    let pte = PageTableEntry::new_page(0x6000, 1, p);
    assert_eq!(pte.0, 0x6000 | PageTableFlags::VALID | PageTableFlags::PRESENT | PageTableFlags::DIRTY);
    assert_eq!(pte.prop(), p);
}

#[test]
fn round_trip_over_every_property() {
    let addrs: [u64; 5] =
        [0, 0x1000, 0x2000, 0x0000_1234_5678_3000, 0x0000_ffff_ffff_f000];
    for flags in 0u8..32 {
        for priv_flags in 0u8..4 {
            for cache in [CachePolicy::Writeback, CachePolicy::Uncacheable] {
                for level in 1u8..=4 {
                    for addr in addrs {
                        let p = prop(flags, cache, priv_flags);
                        let pte = PageTableEntry::new_page(addr, level, p);
                        assert!(pte.is_present());
                        assert_eq!(pte.paddr(), addr);
                        assert_eq!(pte.prop(), p);
                    }
                }
            }
        }
    }
}

#[test]
fn global_lies_outside_the_frame() {
    let p = prop(PageFlags::R | PageFlags::X, CachePolicy::Writeback, PrivilegedPageFlags::GLOBAL);
    let pte = PageTableEntry::new_page(0x2000, 1, p);
    assert_eq!(pte.0, 0x2000 | PageTableFlags::VALID | PageTableFlags::GLOBAL_HUGE);
    assert_eq!(pte.paddr(), 0x2000);
    assert_eq!(pte.prop(), p);
    let q = prop(PageFlags::R | PageFlags::W, CachePolicy::Uncacheable, 0);
    let pte = PageTableEntry::new_page(0x1000, 1, q);
    assert_eq!(pte.paddr(), 0x1000);
    assert_eq!(pte.prop(), q);
    assert!(!pte.prop().priv_flags.contains(PrivilegedPageFlags::GLOBAL));
}

#[test]
fn set_prop_leaves_nothing_of_the_old_property() {
    let all = prop(0x1f, CachePolicy::Uncacheable, PrivilegedPageFlags::ALL);
    for addr in [0x2000u64, 0x3000, 0x0000_ffff_ffff_f000] {
        for flags in 0u8..32 {
            for priv_flags in 0u8..4 {
                let q = prop(flags, CachePolicy::Writeback, priv_flags);
                let mut pte = PageTableEntry::new_page(addr, 1, all);
                pte.set_prop(q);
                assert_eq!(pte.prop(), q);
                assert_eq!(pte.paddr(), addr);
                assert!(pte.is_present());
                assert_eq!(pte, PageTableEntry::new_page(addr, 1, q));
            }
        }
    }
}

#[test]
fn unaligned_address_is_masked() {
    let p = prop(PageFlags::R | PageFlags::X, CachePolicy::Writeback, 0);
    let aligned = PageTableEntry::new_page(0x8000_2000, 1, p);
    let unaligned = PageTableEntry::new_page(0x8000_2abc, 1, p);
    assert_eq!(aligned, unaligned);
    assert_eq!(unaligned.paddr(), 0x8000_2000);
    let high = PageTableEntry::new_page(0xffff_0000_8000_2000, 1, p);
    assert_eq!(high, aligned);
}

#[test]
fn table_pointer_holds_the_frame_alone() {
    let pte = PageTableEntry::new_pt(0x9000_0fff);
    assert_eq!(pte.0, 0x9000_0000);
    assert!(!pte.is_present());
    assert!(pte.is_last(1));
    assert!(!pte.is_last(2));
}

#[test]
fn leaf_above_level_one_needs_a_permission_bit() {
    let rx = PageTableEntry::new_page(0x20_0000, 2, prop(PageFlags::R | PageFlags::X, CachePolicy::Writeback, 0));
    assert!(!rx.is_last(2));
    let rw = PageTableEntry::new_page(0x20_0000, 2, prop(PageFlags::R | PageFlags::W, CachePolicy::Writeback, 0));
    assert!(rw.is_last(2));
    assert!(rw.is_last(3));
}

#[test]
fn set_prop_keeps_the_frame() {
    let mut pte = PageTableEntry::new_page(0x8000_4000, 1, prop(PageFlags::R, CachePolicy::Writeback, 0));
    pte.set_prop(prop(PageFlags::R | PageFlags::W | PageFlags::X, CachePolicy::Uncacheable, PrivilegedPageFlags::USER));
    assert_eq!(pte.paddr(), 0x8000_4000);
    assert_eq!(pte.0, 0x8000_4000 | 0x1 | 0x100 | 0x4 | 0x10);
}

#[test]
fn flags_reject_unknown_bits() {
    assert!(PageFlags::from_bits(0x20).is_none());
    assert!(PageFlags::from_bits(0x1f).is_some());
    assert_eq!(PageFlags::from_bits_truncate(0xff).bits(), 0x1f);
    assert!(PrivilegedPageFlags::from_bits(0x4).is_none());
    assert_eq!(PageFlags::empty().bits(), 0);
    let rw = PageFlags::from_bits(PageFlags::R).unwrap().union(PageFlags::from_bits(PageFlags::W).unwrap());
    assert!(rw.contains(PageFlags::R | PageFlags::W));
    assert!(!rw.contains(PageFlags::X));
}
