use hal_core::mm::{
    page_floor, tlb_flush_addr, tlb_flush_addr_range, tlb_flush_all_excluding_global,
    tlb_flush_all_including_global, Tlb, TlbEntry, PAGE_SIZE,
};

fn filled() -> Tlb {
    let mut tlb = Tlb::new(6);
    tlb.fill(0, TlbEntry { vaddr: 0x1000, global: false });
    tlb.fill(1, TlbEntry { vaddr: 0x2000, global: true });
    tlb.fill(2, TlbEntry { vaddr: 0x3000, global: false });
    tlb.fill(3, TlbEntry { vaddr: 0x4000, global: true });
    tlb.fill(5, TlbEntry { vaddr: 0x2abc, global: false });
    tlb
}

#[test]
fn new_cache_is_empty() {
    let tlb = Tlb::new(4);
    assert_eq!(tlb.slots.len(), 4);
    assert!(tlb.slots.iter().all(|s| s.is_none()));
    assert!(!tlb.lookup(0x1000));
}

#[test]
fn page_floor_rounds_down() {
    assert_eq!(page_floor(0), 0);
    assert_eq!(page_floor(0x1fff), 0x1000);
    assert_eq!(page_floor(0x2000), 0x2000);
    assert_eq!(PAGE_SIZE, 4096);
}

#[test]
fn flush_addr_drops_the_page_global_or_not() {
    let mut tlb = filled();
    assert!(tlb.lookup(0x2fff));
    tlb_flush_addr(&mut tlb, 0x2010);
    assert!(!tlb.lookup(0x2000));
    assert!(tlb.slots[1].is_none());
    assert!(tlb.slots[5].is_none());
    assert_eq!(tlb.slots[0], Some(TlbEntry { vaddr: 0x1000, global: false }));
    assert_eq!(tlb.slots[2], Some(TlbEntry { vaddr: 0x3000, global: false }));
    assert_eq!(tlb.slots[3], Some(TlbEntry { vaddr: 0x4000, global: true }));
    assert!(tlb.slots[4].is_none());
}

#[test]
fn flush_range_counts_pages_of_an_aligned_range() {
    let mut tlb = filled();
    let pages = tlb_flush_addr_range(&mut tlb, &(0x1000..0x3000));
    assert_eq!(pages, vec![0x1000, 0x2000]);
    assert!(!tlb.lookup(0x1000));
    assert!(!tlb.lookup(0x2000));
    assert!(tlb.lookup(0x3000));
    assert!(tlb.lookup(0x4000));
}

#[test]
fn flush_range_rounds_the_count_up() {
    let mut tlb = filled();
    // 0x2001 bytes from an aligned start: three pages.
    let pages = tlb_flush_addr_range(&mut tlb, &(0x1000..0x3001));
    assert_eq!(pages, vec![0x1000, 0x2000, 0x3000]);
    assert!(tlb.lookup(0x4000));
    assert!(!tlb.lookup(0x3000));
}

#[test]
fn flush_range_covers_partial_pages_at_both_ends() {
    let mut tlb = filled();
    let pages = tlb_flush_addr_range(&mut tlb, &(0x1800..0x2800));
    assert_eq!(pages, vec![0x1000, 0x2000]);
    assert!(!tlb.lookup(0x1000));
    assert!(!tlb.lookup(0x2000));
    assert!(tlb.lookup(0x3000));
}

#[test]
fn flush_range_within_one_page() {
    let mut tlb = filled();
    let pages = tlb_flush_addr_range(&mut tlb, &(0x3010..0x3020));
    assert_eq!(pages, vec![0x3000]);
    assert!(!tlb.lookup(0x3000));
    assert!(tlb.lookup(0x1000));
}

#[test]
fn flush_of_an_empty_range_does_nothing() {
    let mut tlb = filled();
    let pages = tlb_flush_addr_range(&mut tlb, &(0x3000..0x3000));
    assert!(pages.is_empty());
    let pages = tlb_flush_addr_range(&mut tlb, &(0x4000..0x1000));
    assert!(pages.is_empty());
    assert!(tlb.lookup(0x1000) && tlb.lookup(0x2000) && tlb.lookup(0x3000) && tlb.lookup(0x4000));
}

#[test]
fn flush_range_at_the_top_of_the_address_space() {
    let mut tlb = Tlb::new(1);
    let top = usize::MAX - 0xfff;
    tlb.fill(0, TlbEntry { vaddr: top, global: false });
    let pages = tlb_flush_addr_range(&mut tlb, &(top - 1..usize::MAX));
    assert_eq!(pages, vec![top - PAGE_SIZE, top]);
    assert!(!tlb.lookup(top));
}

#[test]
fn flush_all_excluding_global_keeps_global_entries() {
    let mut tlb = filled();
    tlb_flush_all_excluding_global(&mut tlb);
    assert!(!tlb.lookup(0x1000));
    assert!(tlb.lookup(0x2000));
    assert!(!tlb.lookup(0x3000));
    assert!(tlb.lookup(0x4000));
    assert!(tlb.slots[5].is_none());
}

#[test]
fn flush_all_including_global_empties_the_cache() {
    let mut tlb = filled();
    tlb_flush_all_including_global(&mut tlb);
    assert!(tlb.slots.iter().all(|s| s.is_none()));
    assert_eq!(tlb.slots.len(), 6);
}
