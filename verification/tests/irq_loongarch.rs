use hal_core::arch::loongarch::interrupts_ack;
use hal_core::arch::loongarch::kernel::eiointc::Eiointc;
use hal_core::arch::loongarch::kernel::irq_ctrl::{
    claim_interrupt, complete_interrupt, init, IrqCtrl, IrqCtrlCell,
};
use hal_core::arch::loongarch::kernel::platic::Platic;

#[test]
fn scenario_sixty_four_lines_claim_and_complete() {
    let mut cell = IrqCtrlCell::new();
    init(&mut cell);
    {
        let ctrl = cell.ctrl.as_ref().unwrap();
        assert_eq!(ctrl.eiointc.enable, [u64::MAX, 0, 0, 0]);
    }
    assert_eq!(claim_interrupt(&cell), None);
    cell.ctrl.as_mut().unwrap().eiointc.raise_irq(37);
    assert_eq!(claim_interrupt(&cell), Some(37));
    complete_interrupt(&mut cell, 37);
    assert_eq!(claim_interrupt(&cell), None);
    // The line is armed again.
    assert_eq!(cell.ctrl.as_ref().unwrap().eiointc.enable[0] & (1 << 37), 1 << 37);
    cell.ctrl.as_mut().unwrap().eiointc.raise_irq(37);
    assert_eq!(claim_interrupt(&cell), Some(37));
    interrupts_ack(&mut cell, 37);
    assert_eq!(claim_interrupt(&cell), None);
}

#[test]
fn empty_cell_claims_nothing() {
    let mut cell = IrqCtrlCell::new();
    assert_eq!(claim_interrupt(&cell), None);
    complete_interrupt(&mut cell, 3);
    assert!(cell.ctrl.is_none());
}

#[test]
fn init_twice_keeps_what_is_pending() {
    let mut cell = IrqCtrlCell::new();
    init(&mut cell);
    cell.ctrl.as_mut().unwrap().eiointc.raise_irq(5);
    cell.ctrl.as_mut().unwrap().eiointc.enable_irq(100);
    cell.ctrl.as_mut().unwrap().platic.write_w(Platic::INTEDGE, 0x55);
    let once = cell.ctrl.as_ref().unwrap().platic.regs.clone();
    init(&mut cell);
    assert_eq!(cell.ctrl.as_ref().unwrap().platic.regs, once);
    let ctrl = cell.ctrl.as_ref().unwrap();
    assert_eq!(ctrl.eiointc.status, [1 << 5, 0, 0, 0]);
    assert_eq!(ctrl.eiointc.enable, [u64::MAX, 1 << 36, 0, 0]);
    assert_eq!(ctrl.claim_irq(), Some(5));
}

#[test]
fn word_three_wins_over_lower_words() {
    let mut e = Eiointc::new();
    for no in [3usize, 70, 130, 200, 192 + 41] {
        e.enable_irq(no);
        e.raise_irq(no);
    }
    assert_eq!(e.claim_irq(), Some(192 + 41));
    e.complete_irq(192 + 41);
    assert_eq!(e.claim_irq(), Some(200));
    e.complete_irq(200);
    assert_eq!(e.claim_irq(), Some(130));
    e.complete_irq(130);
    assert_eq!(e.claim_irq(), Some(70));
    e.complete_irq(70);
    assert_eq!(e.claim_irq(), Some(3));
    e.complete_irq(3);
    assert_eq!(e.claim_irq(), None);
}

#[test]
fn claim_takes_the_highest_bit_of_every_word() {
    for word in 0..4usize {
        for k in [0usize, 1, 31, 32, 62, 63] {
            let mut e = Eiointc::new();
            e.enable[word] = u64::MAX;
            e.status[word] = (1u64 << k) | 1;
            assert_eq!(e.claim_irq(), Some(64 * word + k));
        }
    }
}

#[test]
fn a_line_that_is_not_enabled_is_not_claimed() {
    let mut e = Eiointc::new();
    e.raise_irq(9);
    assert_eq!(e.claim_irq(), None);
    e.enable_irq(9);
    assert_eq!(e.claim_irq(), Some(9));
    e.disable_irq(9);
    assert_eq!(e.claim_irq(), None);
    assert_eq!(e.status[0], 1 << 9);
}

#[test]
fn enable_sets_enable_and_rotation_bits() {
    let mut e = Eiointc::new();
    e.enable_irq(0);
    e.enable_irq(65);
    e.enable_irq(255);
    assert_eq!(e.enable, [1, 2, 0, 1 << 63]);
    assert_eq!(e.bounce, [1, 2, 0, 1 << 63]);
    e.disable_irq(65);
    assert_eq!(e.enable, [1, 0, 0, 1 << 63]);
    assert_eq!(e.bounce, [1, 2, 0, 1 << 63]);
    assert_eq!(e.status, [0; 4]);
}

#[test]
fn init_routes_the_lines() {
    let mut e = Eiointc::new();
    e.init(1);
    assert_eq!(e.misc, 1 << 49);
    assert_eq!(e.pin_map, [0, 1, 2, 3, 4, 5, 6, 7]);
    assert!(e.core_map.iter().all(|&m| m == 1));
    assert_eq!(e.node_type, 1);
    let mut four = Eiointc::new();
    four.init(4);
    assert!(four.core_map.iter().all(|&m| m == 0x0f));
    let mut none = Eiointc::new();
    none.init(0);
    assert!(none.core_map.iter().all(|&m| m == 0));
    assert_eq!(Eiointc::MISC_EXT_IOI_EN, 1 << 49);
}

#[test]
fn create_sets_up_both_chips() {
    let ctrl = IrqCtrl::create().unwrap();
    assert_eq!(ctrl.platic.mmio_vbase, 0x8000_0000_1000_0000);
    assert_eq!(ctrl.platic.regs.len(), 0x400);
    assert!(ctrl.platic.regs.iter().all(|&b| b == 0));
    assert_eq!(ctrl.eiointc.misc, 1 << 49);
    assert_eq!(ctrl.eiointc.enable, [0; 4]);
}

#[test]
fn enable_below_thirty_two_unmasks_and_sets_the_vector() {
    let mut ctrl = IrqCtrl::create().unwrap();
    ctrl.platic.write_w(Platic::INT_MASK, 0xffff_ffff);
    ctrl.enable_irq(5);
    assert_eq!(ctrl.platic.read_w(Platic::INT_MASK), 0xffff_ffdf);
    assert_eq!(ctrl.platic.read_b(Platic::HTMSI_VECTOR0 + 5), 5);
    assert_eq!(ctrl.eiointc.enable[0], 1 << 5);
    ctrl.disable_irq(5);
    assert_eq!(ctrl.platic.read_w(Platic::INT_MASK), 0xffff_ffff);
    assert_eq!(ctrl.eiointc.enable[0], 0);
}

#[test]
fn enable_from_thirty_two_uses_the_high_mask_word() {
    let mut ctrl = IrqCtrl::create().unwrap();
    ctrl.platic.write_w(Platic::INT_MASK, 0xffff_ffff);
    ctrl.platic.write_w(Platic::INT_MASK + 4, 0xffff_ffff);
    ctrl.enable_irq(40);
    assert_eq!(ctrl.platic.read_w(Platic::INT_MASK), 0xffff_ffff);
    assert_eq!(ctrl.platic.read_w(Platic::INT_MASK + 4), 0xffff_feff);
    assert_eq!(ctrl.platic.read_b(Platic::HTMSI_VECTOR0 + 40), 40);
    assert_eq!(ctrl.platic.read_b(Platic::HTMSI_VECTOR40), 40);
    assert_eq!(ctrl.eiointc.enable[0], 1 << 40);
    ctrl.enable_irq(32);
    assert_eq!(ctrl.platic.read_w(Platic::INT_MASK + 4), 0xffff_fefe);
    assert_eq!(ctrl.platic.read_b(Platic::HTMSI_VECTOR32), 32);
    ctrl.enable_irq(63);
    assert_eq!(ctrl.platic.read_w(Platic::INT_MASK + 4), 0x7fff_fefe);
    assert_eq!(ctrl.platic.read_b(0x23f), 63);
    // Nothing lands behind the vector table.
    assert!(ctrl.platic.regs[0x240..0x300].iter().all(|&b| b == 0));
    ctrl.disable_irq(40);
    assert_eq!(ctrl.platic.read_w(Platic::INT_MASK + 4), 0x7fff_fffe);
    assert_eq!(ctrl.platic.read_w(Platic::INT_MASK), 0xffff_ffff);
    assert_eq!(ctrl.eiointc.enable[0], (1 << 32) | (1 << 63));
}

#[test]
fn a_number_from_sixty_four_on_names_no_line() {
    let mut ctrl = IrqCtrl::create().unwrap();
    ctrl.platic.write_w(Platic::INT_MASK, 0x1234_5678);
    ctrl.enable_irq(3);
    let platic = ctrl.platic.regs.clone();
    let eiointc = ctrl.eiointc;
    for no in [64usize, 65, 200, 255, 256, 1000, usize::MAX] {
        ctrl.enable_irq(no);
        assert_eq!(ctrl.platic.regs, platic);
        assert_eq!(ctrl.eiointc.enable, eiointc.enable);
        assert_eq!(ctrl.eiointc.bounce, eiointc.bounce);
        assert_eq!(ctrl.eiointc.status, eiointc.status);
        ctrl.disable_irq(no);
        assert_eq!(ctrl.platic.regs, platic);
        assert_eq!(ctrl.eiointc.enable, eiointc.enable);
    }
    assert_eq!(IrqCtrl::LINES, 64);
}

#[test]
fn init_unmasks_every_line_and_sets_its_vector() {
    let mut cell = IrqCtrlCell::new();
    init(&mut cell);
    let ctrl = cell.ctrl.as_ref().unwrap();
    assert_eq!(ctrl.platic.read_w(Platic::INT_MASK), 0);
    assert_eq!(ctrl.platic.read_w(Platic::INT_MASK + 4), 0);
    for no in 0..64usize {
        assert_eq!(ctrl.platic.read_b(Platic::HTMSI_VECTOR0 + no), no as u8);
    }
    assert_eq!(ctrl.platic.read_w(Platic::INT_POLARITY), 0);
    assert_eq!(ctrl.platic.read_w(Platic::INTEDGE), 0);
    assert_eq!(ctrl.eiointc.misc, 1 << 49);
    assert_eq!(ctrl.eiointc.pin_map, [0, 1, 2, 3, 4, 5, 6, 7]);
    assert!(ctrl.eiointc.core_map.iter().all(|&m| m == 1));
    assert_eq!(ctrl.eiointc.node_type, 1);
    assert_eq!(ctrl.eiointc.bounce, [u64::MAX, 0, 0, 0]);
    // A masked line is unmasked again by the next call.
    cell.ctrl.as_mut().unwrap().disable_irq(7);
    assert_eq!(cell.ctrl.as_ref().unwrap().platic.read_w(Platic::INT_MASK), 1 << 7);
    init(&mut cell);
    assert_eq!(cell.ctrl.as_ref().unwrap().platic.read_w(Platic::INT_MASK), 0);
    assert_eq!(cell.ctrl.as_ref().unwrap().eiointc.enable[0], u64::MAX);
}

#[test]
fn completing_on_an_empty_cell_takes_any_number() {
    let mut cell = IrqCtrlCell::new();
    complete_interrupt(&mut cell, 100_000);
    interrupts_ack(&mut cell, usize::MAX);
    assert!(cell.ctrl.is_none());
}

#[test]
fn platic_registers_are_little_endian() {
    let mut p = Platic::new(0x1000);
    p.write_w(0x20, 0xdead_beef);
    assert_eq!(&p.regs[0x20..0x24], &[0xef, 0xbe, 0xad, 0xde]);
    assert_eq!(p.read_w(0x20), 0xdead_beef);
    assert_eq!(p.read_h(0x20), 0xbeef);
    assert_eq!(p.read_h(0x22), 0xdead);
    assert_eq!(p.read_b(0x23), 0xde);
    p.write_h(0x40, 0x1234);
    assert_eq!(p.read_b(0x40), 0x34);
    assert_eq!(p.read_b(0x41), 0x12);
    assert_eq!(p.read_h(0x40), 0x1234);
    p.write_b(0x3ff, 0x7f);
    assert_eq!(p.read_b(0x3ff), 0x7f);
    assert_eq!(p.read_w(0x3fc), 0x7f00_0000);
}

#[test]
fn init_of_a_routed_controller_changes_nothing() {
    let mut e = Eiointc::new();
    e.init(2);
    e.enable_irq(7);
    e.raise_irq(9);
    let once = e;
    e.init(2);
    assert_eq!(e.misc, once.misc);
    assert_eq!(e.pin_map, once.pin_map);
    assert_eq!(e.core_map, once.core_map);
    assert_eq!(e.node_type, once.node_type);
    assert_eq!(e.enable, once.enable);
    assert_eq!(e.bounce, once.bounce);
    assert_eq!(e.status, once.status);
    assert!(e.core_map.iter().all(|&m| m == 3));
}
