use rust_kernel::gdt::init_gdt;
use rust_kernel::idt::init_idt;
use rust_kernel::paging::vmm_init;
use rust_kernel::pic::pic_new;
use rust_kernel::isr::new_isr_table;
use rust_kernel::isr::Handler;
use rust_kernel::timer::init_timer;
use rust_kernel::timer::new_timer;
use rust_kernel::timer::ticks;

#[test]
fn gdt_holds_the_five_flat_descriptors() {
    let gdt = init_gdt();
    assert_eq!(gdt.entries.len(), 5);
    let null = gdt.entries[0];
    assert_eq!(null.limit_low, 0);
    assert_eq!(null.access, 0);
    assert_eq!(null.granularity, 0);
    let code0 = gdt.entries[1];
    assert_eq!(code0.limit_low, 0xFFFF);
    assert_eq!(code0.base_low, 0);
    assert_eq!(code0.base_mid, 0);
    assert_eq!(code0.base_high, 0);
    assert_eq!(code0.access, 0x9A);
    assert_eq!(code0.granularity, 0xCF);
    assert_eq!(gdt.entries[2].access, 0x92);
    assert_eq!(gdt.entries[3].access, 0xFA);
    assert_eq!(gdt.entries[4].access, 0xF2);
    assert_eq!(gdt.descriptor_limit(), 39);
}

#[test]
fn idt_starts_zeroed_and_gates_carry_the_present_bit() {
    let mut idt = init_idt();
    assert_eq!(idt.entries.len(), 256);
    assert_eq!(idt.entries[77].type_attr, 0);
    assert_eq!(idt.descriptor_limit(), 2047);
    idt.idt_set_gate(32, 0xDEAD_BEEF, 0x08, 0x0E);
    let gate = idt.entries[32];
    assert_eq!(gate.offset_low, 0xBEEF);
    assert_eq!(gate.offset_high, 0xDEAD);
    assert_eq!(gate.selector, 0x08);
    assert_eq!(gate.zero, 0);
    assert_eq!(gate.type_attr, 0x8E);
}

#[test]
fn pic_remap_issues_the_init_sequence_and_restores_masks() {
    let mut pic = pic_new(0xAB, 0xCD);
    let writes = pic.pic_remap();
    assert_eq!(
        writes,
        vec![
            (0x20, 0x11),
            (0xA0, 0x11),
            (0x21, 0x20),
            (0xA1, 0x28),
            (0x21, 0x04),
            (0xA1, 0x02),
            (0x21, 0x01),
            (0xA1, 0x01),
            (0x21, 0xAB),
            (0xA1, 0xCD),
        ]
    );
    assert_eq!(pic.imr_master, 0xAB);
    assert_eq!(pic.imr_slave, 0xCD);
}

#[test]
fn unmasking_clears_exactly_one_mask_bit() {
    let mut pic = pic_new(0xFF, 0xFF);
    pic.pic_unmask_irq(0);
    assert_eq!(pic.imr_master, 0xFE);
    assert_eq!(pic.imr_slave, 0xFF);
    pic.pic_unmask_irq(9);
    assert_eq!(pic.imr_master, 0xFE);
    assert_eq!(pic.imr_slave, 0xFD);
}

#[test]
fn eoi_signals_are_logged_in_order() {
    let mut pic = pic_new(0xFF, 0xFF);
    pic.pic_send_eoi(0);
    pic.pic_send_eoi(8);
    pic.pic_send_eoi(1);
    assert_eq!(pic.eoi_log, vec![0, 8, 1]);
}

#[test]
fn the_timer_divisor_and_port_bytes_follow_the_frequency() {
    let mut t = new_timer();
    let mut isr = new_isr_table();
    let mut pic = pic_new(0xFF, 0xFF);
    let writes = init_timer(&mut t, &mut isr, &mut pic, 1000);
    assert_eq!(t.divisor, 1193);
    assert_eq!(writes, vec![(0x43, 0x36), (0x40, 0xA9), (0x40, 0x04)]);
    assert_eq!(isr.handlers[32], Some(Handler::Timer));
    assert_eq!(pic.imr_master, 0xFE);
    assert_eq!(ticks(&t), 0);
}

#[test]
fn the_boot_mapping_is_an_identity_map_of_the_low_sixteen_mebibytes() {
    let bases = vec![0x0010_0000, 0x0010_1000, 0x0010_2000, 0x0010_3000];
    let mut vmm = vmm_init(&bases);
    assert_eq!(vmm.tables[0][0], 0x0000_0003);
    assert_eq!(vmm.tables[0][1], 0x0000_1003);
    assert_eq!(vmm.tables[3][1023], 0x00FF_F003);
    assert_eq!(vmm.directory[0], 0x0010_0003);
    assert_eq!(vmm.directory[3], 0x0010_3003);
    assert_eq!(vmm.directory[4], 0);
    assert!(!vmm.enabled);
    vmm.vmm_enable();
    assert!(vmm.enabled);
    // remap one page read-only at a different physical address
    vmm.vmm_map(0x0040_2000, 0x0080_0000, false);
    assert_eq!(vmm.tables[1][2], 0x0080_0001);
    assert_eq!(vmm.tables[1][3], 0x0040_3003);
}
