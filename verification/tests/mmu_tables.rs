use lib::hal::info::MemoryBlock;
use lib::mmu::descriptors::{
    AddressingMode, BitFieldError, BlockDescriptor, BlockLevel, Cacheability, DeviceAttribute,
    PageDescriptor, Shareability, Stage2MemoryAttr, TableDescriptor,
};
use lib::mmu::{mmu_init, BlockOrTableDescriptor, MMUInitError, TranslationTable4KB, RANGE_1_LEVEL_0};
use lib::peripherals::bcm2837;
use lib::registers::mair_el1::{
    AllocatePolicy, CacheTransistence, CacheWritePolicy, DeviceMemoryType, MairEl1,
    MemoryAttributeDescriptor, NormalMemoryType,
};

const ADDRESS_MASK: u64 = 0x0000_FFFF_FFFF_F000;

fn word_at(t: &TranslationTable4KB, a: u64) -> Option<u64> {
    if a < t.base || (a - t.base) % 8 != 0 {
        return None;
    }
    let w = ((a - t.base) / 8) as usize;
    let tables: [(&dyn Fn(usize) -> u64, usize); 8] = [
        (&|i| t.range_0_level_0[i].0, 512),
        (&|i| t.range_1_level_0[i].0, 512),
        (&|i| t.range_0_level_1[i].0, 512),
        (&|i| t.range_1_level_1[i].0, 512),
        (&|i| t.range_0_level_2[i].0, 4096),
        (&|i| t.range_1_level_2[i].0, 4096),
        (&|i| t.range_0_level_3[i].0, 512),
        (&|i| t.range_1_level_3[i].0, 512),
    ];
    let mut start = 0;
    for (get, len) in tables.iter() {
        if w < start + len {
            return Some(get(w - start));
        }
        start += len;
    }
    None
}

fn index(ia: u64, shift: u64) -> u64 {
    (ia >> shift) & 0x1ff
}

/// A four level walk with the 4KB granule, as the MMU performs it.
fn walk(t: &TranslationTable4KB, root: u64, ia: u64) -> Option<u64> {
    let d0 = word_at(t, root + index(ia, 39) * 8)?;
    if d0 & 3 != 3 {
        return None;
    }
    let d1 = word_at(t, (d0 & ADDRESS_MASK) + index(ia, 30) * 8)?;
    match d1 & 3 {
        1 => return Some((d1 & 0x0000_FFFF_C000_0000) | (ia & 0x3FFF_FFFF)),
        3 => {},
        _ => return None,
    }
    let d2 = word_at(t, (d1 & ADDRESS_MASK) + index(ia, 21) * 8)?;
    match d2 & 3 {
        1 => return Some((d2 & 0x0000_FFFF_FFE0_0000) | (ia & 0x1F_FFFF)),
        3 => {},
        _ => return None,
    }
    let d3 = word_at(t, (d2 & ADDRESS_MASK) + index(ia, 12) * 8)?;
    if d3 & 3 != 3 {
        return None;
    }
    Some((d3 & ADDRESS_MASK) | (ia & 0xFFF))
}

#[test]
fn mmu_init_checks_features() {
    let t = TranslationTable4KB::init(0x20_0000, MemoryBlock(0x1000, 0x8_0000), bcm2837());
    // PARange 0: 32 bits only
    assert!(mmu_init(0x0000_0000, 0, &t) == Err(MMUInitError::PhysicalAddressRangeAtLeast36bitNotSupported));
    // TGran4 0xF: no 4KB granule
    assert!(mmu_init(0xF000_0001, 0, &t) == Err(MMUInitError::TranslationGranule4kbNotSupported));
}

#[test]
fn mmu_init_register_values() {
    let t = TranslationTable4KB::init(0x20_0000, MemoryBlock(0x1000, 0x8_0000), bcm2837());
    // a Cortex-A53: 40 bit physical addresses, 16 bit ASIDs, 4KB granule
    let m = mmu_init(0x0000_1122, 0x30D0_0800, &t).ok().unwrap();
    assert_eq!(m.mair, 0x0044_04FF);
    assert_eq!(m.ttbr0, 0x20_0000);
    assert_eq!(m.ttbr1, 0x20_0000 + RANGE_1_LEVEL_0);
    assert_eq!(m.tcr & 0x3F, 16);
    assert_eq!((m.tcr >> 16) & 0x3F, 24);
    assert_eq!((m.tcr >> 14) & 3, 2);
    assert_eq!((m.tcr >> 30) & 3, 2);
    assert_eq!((m.tcr >> 32) & 7, 2);
    assert_eq!((m.tcr >> 36) & 1, 1);
    assert_eq!(m.tcr, 0x12_B518_B510);
    // M, C, I set; the reset value's other bits kept
    assert_eq!(m.sctlr, 0x30D0_1805);
    // 8 bit ASIDs leave AS clear; alignment checks and big-endian tables are cleared
    let m = mmu_init(0x0000_0001, 0x0308_001A, &t).ok().unwrap();
    assert_eq!(m.tcr, 0x1_B518_B510);
    assert_eq!(m.sctlr, 0x1005);
}

#[test]
fn tables_map_the_first_eight_gigabytes_onto_themselves() {
    let t = TranslationTable4KB::init(0x10_0000, MemoryBlock(0x1000, 0x8_0000), bcm2837());
    let root0 = t.base_address_rg0();
    let root1 = t.base_address_rg1();
    assert_eq!(root0, 0x10_0000);
    assert_eq!(root1, 0x10_0000 + RANGE_1_LEVEL_0);
    for ia in [0u64, 0x1234, 0x7_FFFF, 0x8_0000, 0x20_0000, 0x3F20_1000, 0x4000_0000, 0x1_2345_6789, 0x1_FFFF_FFFF] {
        assert_eq!(walk(&t, root0, ia), Some(ia), "range 0, address {ia:#x}");
        assert_eq!(walk(&t, root1, ia), Some(ia), "range 1, address {ia:#x}");
    }
}

#[test]
fn tables_attributes() {
    let t = TranslationTable4KB::init(0x10_0000, MemoryBlock(0x1000, 0x8_0000), bcm2837());
    // 2MB block 505 holds the peripherals at 0x3F20_0000: device memory, outer shareable
    let device = t.range_0_level_2[505].0;
    assert_eq!(device & 3, 1);
    assert_eq!((device >> 2) & 7, 1);
    assert_eq!((device >> 8) & 3, 2);
    assert_eq!((device >> 10) & 1, 1);
    assert_eq!((device >> 52) & 1, 1);
    // an ordinary block: normal memory, inner shareable
    let normal = t.range_0_level_2[1].0;
    assert_eq!((normal >> 2) & 7, 0);
    assert_eq!((normal >> 8) & 3, 3);
    // the first 2MB go through the page table; stack pages are execute-never at EL0
    // and EL1 (UXN and PXN)
    assert_eq!(t.range_0_level_2[0].0 & 3, 3);
    assert_eq!((t.range_0_level_3[1].0 >> 53) & 3, 3);
    assert_eq!((t.range_0_level_3[127].0 >> 53) & 3, 3);
    assert_eq!((t.range_1_level_3[127].0 >> 53) & 3, 3);
    assert_eq!((t.range_0_level_3[0].0 >> 53) & 3, 0);
    assert_eq!((t.range_0_level_3[128].0 >> 53) & 3, 0);
    // the level 1 tables repeat the eight gigabytes
    assert_eq!(t.range_0_level_1[8].0, t.range_0_level_1[0].0);
}

#[test]
fn block_or_table_tags() {
    let table = BlockOrTableDescriptor::from_table(TableDescriptor::new());
    assert!(table.table_descriptor().is_some());
    assert!(table.block_descriptor().is_none());
    let block = BlockOrTableDescriptor::from_block(BlockDescriptor::new());
    assert!(block.block_descriptor().is_some());
    assert!(block.table_descriptor().is_none());
    assert!(BlockOrTableDescriptor::invalid().is_invalid());
    assert!(!block.is_invalid());
}

#[test]
fn descriptor_addresses_read_back() {
    let mode = AddressingMode::Gran4KBAddr48bit;
    let t = TableDescriptor::new().with_next_level_table_at(0x2000, mode);
    assert_eq!(t.0, 0x2003);
    assert_eq!(t.next_level_table_address(mode), 0x2000);
    let b = BlockDescriptor::new().with_output_address(0x4020_0000, mode, BlockLevel::Level2);
    assert_eq!(b.output_address(mode, BlockLevel::Level2), 0x4020_0000);
    let b = BlockDescriptor::new().with_output_address(0x8000_0000, mode, BlockLevel::Level1);
    assert_eq!(b.output_address(mode, BlockLevel::Level1), 0x8000_0000);
    let p = PageDescriptor::new().with_output_address(0x5000, mode);
    assert_eq!(p.output_address(mode), 0x5000);
    assert_eq!(PageDescriptor::new().with_xn_uxn_pxn(2).0 >> 53, 2);
    assert_eq!(BlockDescriptor::new().with_af_set().0, 0x401);
    assert_eq!(BlockDescriptor::new().with_sh(Shareability::InnerShareable).0, 0x301);
    assert_eq!(BlockDescriptor::new().with_stage_1_mem_attr_indx(2).0, 0x9);
    assert_eq!(BlockDescriptor::new().with_contiguous_set().0, (1 << 52) | 1);
}

#[test]
fn stage2_attributes_round_trip() {
    let normal = Stage2MemoryAttr::Normal { outer: Cacheability::WriteBackCacheable, inner: Cacheability::NonCacheable };
    assert_eq!(normal.to_u64(), 13);
    assert!(Stage2MemoryAttr::try_from_u64(13) == Ok(normal));
    assert!(Stage2MemoryAttr::try_from_u64(2) == Ok(Stage2MemoryAttr::Device(DeviceAttribute::NGRE)));
    assert!(Stage2MemoryAttr::try_from_u64(16) == Err(BitFieldError::ValueTooLargeForField));
    for v in 0..16u64 {
        assert_eq!(Stage2MemoryAttr::try_from_u64(v).ok().unwrap().to_u64(), v);
    }
}

#[test]
fn mair_attributes() {
    let mut mair = MairEl1::zero();
    mair.set_attr_n(1, MemoryAttributeDescriptor::device(1));
    assert_eq!(mair.to_u64(), 0x0400);
    assert!(mair.attr_n(1) == MemoryAttributeDescriptor::Device { memory_type: DeviceMemoryType::NGnRE });
    mair.set_attr_n(0, MemoryAttributeDescriptor::normal(0xF, 0xF));
    assert_eq!(mair.to_u64(), 0x04FF);
    mair.set_attr_n(2, MemoryAttributeDescriptor::normal(4, 4));
    assert_eq!(mair.to_u64(), 0x44_04FF);
    mair.set_attr_n(1, MemoryAttributeDescriptor::device(3));
    assert_eq!(mair.to_u64(), 0x44_0CFF);
    assert!(MairEl1::from_u64(0xC00).attr_n(1) == MemoryAttributeDescriptor::Device { memory_type: DeviceMemoryType::GRE });
}

#[test]
fn normal_memory_nibbles() {
    let nc = NormalMemoryType::from_u8(4);
    assert!(nc.caching.is_none());
    assert_eq!(nc.to_u8(), 4);
    let wb = NormalMemoryType::from_u8(0xF);
    let c = wb.caching.unwrap();
    assert!(c.write_policy == CacheWritePolicy::WriteBack);
    assert!(c.transistence == CacheTransistence::NonTransient);
    assert!(c.read_allocate_policy == AllocatePolicy::Allocate);
    assert!(c.write_allocate_policy == AllocatePolicy::Allocate);
    assert_eq!(wb.to_u8(), 0xF);
    // write-through non-transient decodes from 0b10xx but encodes its policy bits the
    // other way round, so such a nibble does not come back unchanged
    assert_eq!(NormalMemoryType::from_u8(0xA).to_u8(), 0x6);
    assert_eq!(NormalMemoryType::from_u8(0x5).to_u8(), 0x9);
    assert_eq!(NormalMemoryType::from_u8(0x3).to_u8(), 0x3);
    assert_eq!(MemoryAttributeDescriptor::device(2).to_u8(), 8);
}
