use zcore::page_table::{
    init_qemu_boot_page_table, init_raspi4_boot_page_table, DescriptorAttr, MemFlags, MemType,
    PageTableEntry, ATTR_AF, ATTR_ALL, ATTR_AP_EL0, ATTR_AP_RO, ATTR_NON_BLOCK, ATTR_PXN,
    ATTR_UXN, ATTR_VALID, MEM_DEVICE, MEM_EXECUTE, MEM_READ, MEM_USER, MEM_WRITE,
    PHYS_ADDR_MASK, TABLE_ENTRIES,
};

#[test]
fn attributes_of_flags() {
    let kernel_data = DescriptorAttr::from_flags(MemFlags { bits: MEM_READ | MEM_WRITE });
    assert_eq!(kernel_data.bits, 0x0060_0000_0000_0305);
    let user_code = DescriptorAttr::from_flags(MemFlags { bits: MEM_READ | MEM_EXECUTE | MEM_USER });
    assert_eq!(user_code.bits, 0x0020_0000_0000_03c5);
    let device = DescriptorAttr::from_flags(MemFlags { bits: MEM_DEVICE | MEM_READ | MEM_WRITE });
    assert_eq!(device.bits, 0x0060_0000_0000_0001);
    let kernel_code = DescriptorAttr::from_flags(MemFlags { bits: MEM_READ | MEM_EXECUTE });
    assert_eq!(kernel_code.bits, ATTR_UXN | ATTR_AP_RO | ATTR_VALID | 0x304);
    let nothing = DescriptorAttr::from_flags(MemFlags { bits: 0 });
    assert_eq!(nothing.bits, ATTR_UXN | ATTR_PXN | ATTR_AP_RO | 0x304);
}

#[test]
fn flags_of_attributes() {
    let flags = MemFlags::from_attr(DescriptorAttr { bits: ATTR_VALID | ATTR_AP_EL0 | 0x4 });
    assert_eq!(flags.bits, MEM_READ | MEM_WRITE | MEM_USER | MEM_EXECUTE);
    let flags = MemFlags::from_attr(DescriptorAttr { bits: ATTR_AP_RO | ATTR_PXN });
    assert_eq!(flags.bits, MEM_DEVICE);
    let flags = MemFlags::from_attr(DescriptorAttr { bits: ATTR_AP_EL0 | ATTR_UXN | 0x4 });
    assert_eq!(flags.bits, MEM_WRITE | MEM_USER);
}

#[test]
fn flags_round_trip() {
    for bits in 0..0x20usize {
        let flags = MemFlags { bits };
        assert_eq!(MemFlags::from_attr(DescriptorAttr::from_flags(flags)), flags);
    }
}

#[test]
fn memory_types() {
    assert_eq!(DescriptorAttr::from_mem_type(MemType::Device).bits, 0);
    assert_eq!(DescriptorAttr::from_mem_type(MemType::Normal).bits, 0x304);
    assert_eq!(DescriptorAttr { bits: 0x304 }.mem_type(), MemType::Normal);
    assert_eq!(DescriptorAttr { bits: ATTR_VALID }.mem_type(), MemType::Device);
}

#[test]
fn truncation_and_tests() {
    assert_eq!(MemFlags::from_bits_truncate(0xff).bits, 0x1f);
    assert_eq!(DescriptorAttr::from_bits_truncate(u64::MAX).bits, ATTR_ALL);
    assert_eq!(ATTR_ALL, 0xf870_0000_0000_0fff);
    let attr = DescriptorAttr { bits: ATTR_VALID | ATTR_AF };
    assert!(attr.contains(ATTR_VALID | ATTR_AF));
    assert!(!attr.contains(ATTR_VALID | ATTR_UXN));
    assert!(attr.intersects(ATTR_VALID | ATTR_UXN));
    assert!(!attr.intersects(ATTR_UXN));
    assert!(MemFlags { bits: MEM_READ | MEM_USER }.contains(MEM_USER));
    assert!(!MemFlags { bits: MEM_READ | MEM_USER }.contains(MEM_USER | MEM_WRITE));
}

#[test]
fn entries() {
    assert_eq!(PageTableEntry::empty().0, 0);
    let flags = MemFlags { bits: MEM_READ | MEM_WRITE };
    let page = PageTableEntry::new_page(0x4000_1234, flags, false);
    assert_eq!(page.0, 0x0060_0000_4000_1707);
    let block = PageTableEntry::new_page(0x4000_1234, flags, true);
    assert_eq!(block.0, page.0 & !ATTR_NON_BLOCK);
    let table = PageTableEntry::new_table(0x8000_2fff);
    assert_eq!(table.0, 0x8000_2003);
    let high = PageTableEntry::new_table(u64::MAX);
    assert_eq!(high.0, PHYS_ADDR_MASK | 3);
    let mut entry = page;
    entry.clear();
    assert_eq!(entry, PageTableEntry::empty());
}

#[test]
fn qemu_boot_tables() {
    let mut pt0 = [PageTableEntry::empty(); TABLE_ENTRIES];
    let mut pt1 = [PageTableEntry::empty(); TABLE_ENTRIES];
    pt1[4] = PageTableEntry(77);
    init_qemu_boot_page_table(&mut pt0, &mut pt1, 0x4008_3000);
    assert_eq!(pt0[0].0, 0x4008_3003);
    assert!(pt0[1..].iter().all(|entry| entry.0 == 0));
    assert_eq!(pt1[0].0, 0x0060_0000_0000_0401);
    assert_eq!(pt1[1].0, 0x0040_0000_4000_0705);
    assert_eq!(pt1[2].0, 0x0040_0000_8000_0705);
    assert_eq!(pt1[3].0, 0x0040_0000_b000_0705);
    assert_eq!(pt1[4].0, 77);
    assert!(pt1[5..].iter().all(|entry| entry.0 == 0));
}

#[test]
fn raspi4_boot_tables() {
    let mut pt0 = [PageTableEntry::empty(); TABLE_ENTRIES];
    let mut pt1 = [PageTableEntry::empty(); TABLE_ENTRIES];
    init_raspi4_boot_page_table(&mut pt0, &mut pt1, 0x8_1000);
    assert_eq!(pt0[0].0, 0x8_1003);
    assert_eq!(pt1[0].0, 0x0040_0000_0000_0705);
    assert_eq!(pt1[1].0, 0x0040_0000_4000_0705);
    assert_eq!(pt1[2].0, 0x0040_0000_8000_0705);
    assert_eq!(pt1[3].0, 0x0040_0000_c000_0401);
    assert!(pt1[4..].iter().all(|entry| entry.0 == 0));
}
