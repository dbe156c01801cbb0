use hal_core::arch::riscv::trap::plic::PLIC;
use hal_core::io_mem::{IoError, IoMem};

fn plic() -> PLIC {
    PLIC::new(0x0c00_0000, 0x21_0000)
}

#[test]
fn new_plic_is_zeroed() {
    let p = plic();
    assert_eq!(p.address(), 0x0c00_0000);
    assert_eq!(p.io_mem().words.len(), 0x21_0000 / 4);
    assert!(p.io_mem().words.iter().all(|&w| w == 0));
    assert_eq!(p.io_mem().paddr(), 0x0c00_0000);
}

#[test]
fn priority_is_one_word_per_source() {
    let mut p = plic();
    p.set_priority(37, 1);
    p.set_priority(255, 7);
    assert_eq!(p.get_priority(37), 1);
    assert_eq!(p.get_priority(255), 7);
    assert_eq!(p.get_priority(36), 0);
    assert_eq!(p.io_mem().read_once(37 * 4), Ok(1));
    assert_eq!(p.io_mem().read_once(255 * 4), Ok(7));
    p.set_priority(37, 0);
    assert_eq!(p.get_priority(37), 0);
}

#[test]
fn pending_bits_start_at_0x1000() {
    let mut p = plic();
    assert!(!p.is_pending(37));
    p.io_mem.write_once(0x1000 + 4, 1 << 5).unwrap();
    assert!(p.is_pending(37));
    assert!(!p.is_pending(36));
    assert!(!p.is_pending(5));
}

#[test]
fn enable_bits_are_per_context() {
    let mut p = plic();
    // Hart 0 in supervisor mode is context 1.
    p.enable(0, true, 37);
    assert!(p.is_enabled(0, true, 37));
    assert!(!p.is_enabled(0, false, 37));
    assert!(!p.is_enabled(1, false, 36));
    assert!(p.is_enabled(1, false, 37));
    // Context 1 starts 1024 bits after context 0.
    assert_eq!(p.io_mem().read_once(0x2000 + 128 + 4), Ok(1 << 5));
    p.enable(0, true, 32);
    assert_eq!(p.io_mem().read_once(0x2000 + 128 + 4), Ok((1 << 5) | 1));
    p.disable(0, true, 37);
    assert!(!p.is_enabled(0, true, 37));
    assert!(p.is_enabled(0, true, 32));
    assert_eq!(p.io_mem().read_once(0x2000 + 128 + 4), Ok(1));
    p.enable(0, false, 0);
    assert_eq!(p.io_mem().read_once(0x2000), Ok(1));
}

#[test]
fn threshold_is_per_context() {
    let mut p = plic();
    p.set_threshold(0, true, 3);
    assert_eq!(p.get_threshold(0, true), 3);
    assert_eq!(p.get_threshold(0, false), 0);
    assert_eq!(p.io_mem().read_once(0x20_0000 + 4096), Ok(3));
    p.set_threshold(0, false, 7);
    assert_eq!(p.io_mem().read_once(0x20_0000), Ok(7));
    p.set_threshold(0, true, 0);
    assert_eq!(p.get_threshold(0, true), 0);
}

fn sixty_four_lines() -> PLIC {
    let mut p = plic();
    for irq in 0..64u8 {
        p.set_priority(irq, 1);
        p.enable(0, true, irq);
    }
    p.set_threshold(0, true, 0);
    p
}

#[test]
fn scenario_sixty_four_lines_at_priority_one() {
    let mut p = sixty_four_lines();
    assert_eq!(p.chaim(0, true), None);
    p.raise(0, true, 37);
    assert!(p.is_pending(37));
    assert_eq!(p.chaim(0, true), Some(37));
    assert!(!p.is_pending(37));
    assert!(p.in_service[37]);
    // Another context has nothing to claim.
    assert_eq!(p.chaim(0, false), None);
    p.complete(0, true, 37);
    assert!(!p.in_service[37]);
    assert_eq!(p.chaim(0, true), None);
    // The line is armed again.
    p.raise(0, true, 37);
    assert_eq!(p.chaim(0, true), Some(37));
}

#[test]
fn claim_without_completion_holds_the_line_back() {
    let mut p = sixty_four_lines();
    p.raise(0, true, 5);
    assert_eq!(p.chaim(0, true), Some(5));
    p.raise(0, true, 5);
    assert!(p.is_pending(5));
    assert_eq!(p.chaim(0, true), None);
    p.complete(0, true, 5);
    p.raise(0, true, 5);
    assert_eq!(p.chaim(0, true), Some(5));
}

#[test]
fn priority_zero_disables_a_line() {
    let mut p = sixty_four_lines();
    p.set_priority(9, 0);
    p.raise(0, true, 9);
    assert!(p.is_pending(9));
    assert_eq!(p.chaim(0, true), None);
    p.set_priority(9, 1);
    p.raise(0, true, 9);
    assert_eq!(p.chaim(0, true), Some(9));
}

#[test]
fn threshold_filters_lines_at_or_below_it() {
    let mut p = sixty_four_lines();
    p.set_threshold(0, true, 3);
    p.set_priority(10, 3);
    p.set_priority(11, 4);
    p.raise(0, true, 10);
    assert_eq!(p.chaim(0, true), None);
    p.raise(0, true, 11);
    assert_eq!(p.chaim(0, true), Some(11));
    p.set_threshold(0, true, 7);
    p.set_priority(12, 7);
    p.raise(0, true, 12);
    assert_eq!(p.chaim(0, true), None);
}

#[test]
fn a_line_that_is_not_enabled_is_not_offered() {
    let mut p = sixty_four_lines();
    p.disable(0, true, 20);
    p.raise(0, true, 20);
    assert_eq!(p.chaim(0, true), None);
    // Enabled for another context only.
    p.enable(0, false, 20);
    p.set_threshold(0, false, 0);
    p.raise(0, false, 20);
    assert_eq!(p.chaim(0, true), None);
    assert_eq!(p.chaim(0, false), Some(20));
}

#[test]
fn a_second_line_waits_for_the_first_to_be_claimed() {
    let mut p = sixty_four_lines();
    p.raise(0, true, 3);
    p.raise(0, true, 4);
    assert_eq!(p.io_mem().read_once(0x20_0004 + 4096), Ok(3));
    assert_eq!(p.chaim(0, true), Some(3));
    assert_eq!(p.io_mem().read_once(0x20_0004 + 4096), Ok(0));
    assert!(p.is_pending(4));
    p.raise(0, true, 4);
    assert_eq!(p.chaim(0, true), Some(4));
}

#[test]
fn claim_returns_what_the_register_holds() {
    let mut p = plic();
    p.io_mem.write_once(0x20_0004 + 4096, 700).unwrap();
    let before = p.io_mem.words.clone();
    assert_eq!(p.chaim(0, true), Some(700));
    assert_eq!(p.io_mem().read_once(0x20_0004 + 4096), Ok(0));
    let mut want = before;
    want[(0x20_0004 + 4096) / 4] = 0;
    assert_eq!(p.io_mem.words, want);
    assert!(p.in_service.iter().all(|&b| !b));
}

#[test]
fn context_of_a_hart() {
    assert_eq!(PLIC::get_context_id(0, false), 0);
    assert_eq!(PLIC::get_context_id(0, true), 1);
    assert_eq!(PLIC::get_context_id(7, true), 8);
    assert_eq!(PLIC::SOURCE_CONUT, 1024);
    assert_eq!(PLIC::CONTEXT_COUNT, 15872);
}

#[test]
fn io_mem_rejects_what_lies_outside() {
    let mut m = IoMem::new(0x1000, 16);
    assert_eq!(m.words.len(), 4);
    assert_eq!(m.write_once(12, 9), Ok(()));
    assert_eq!(m.read_once(12), Ok(9));
    assert_eq!(m.read_once(16), Err(IoError::InvalidArgs));
    assert_eq!(m.read_once(13), Err(IoError::InvalidArgs));
    assert_eq!(m.write_once(16, 1), Err(IoError::InvalidArgs));
    assert_eq!(m.write_once(2, 1), Err(IoError::InvalidArgs));
    assert_eq!(m.words, vec![0, 0, 0, 9]);
    assert_eq!(m.read_once(usize::MAX), Err(IoError::InvalidArgs));
    let odd = IoMem::new(0, 7);
    assert_eq!(odd.words.len(), 1);
}
