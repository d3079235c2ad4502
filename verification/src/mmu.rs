pub mod descriptors;

use vstd::prelude::*;
use crate::bits::{field64, with_field64, low_mask64, get_field64};
use crate::registers::mair_el1::{attr_byte, MairEl1, MemoryAttributeDescriptor};
use crate::hal::info::MemoryBlock;
use crate::peripherals::BcmHost;
use self::descriptors::{
    AddressingMode, BlockDescriptor, BlockLevel, PageDescriptor, Shareability, TableDescriptor,
    with_address, address_of,
};

verus! {

/// Why the MMU could not be set up.
#[derive(Clone, Copy, PartialEq, Eq, Structural)]
pub enum MMUInitError {
    PhysicalAddressRangeAtLeast36bitNotSupported,
    TranslationGranule4kbNotSupported,
}

/// Index of the MAIR attribute for normal write-back memory.
pub const MEMORY_ATTR_IDX_NORMAL: u64 = 0;
/// Index of the MAIR attribute for device memory.
pub const MEMORY_ATTR_IDX_DEVICE: u64 = 1;
/// Index of the MAIR attribute for non-cacheable memory.
pub const MEMORY_ATTR_IDX_NON_CACHEABLE: u64 = 2;

/// The system register values that turn the MMU on: memory attributes (MAIR_EL1),
/// translation control (TCR_EL1), the two table bases (TTBR0_EL1, TTBR1_EL1) and the
/// system control register (SCTLR_EL1).
#[derive(Clone, Copy, PartialEq, Eq, Structural)]
pub struct MmuRegisters {
    pub mair: u64,
    pub tcr: u64,
    pub ttbr0: u64,
    pub ttbr1: u64,
    pub sctlr: u64,
}

/// The TCR_EL1 fields that do not depend on the core: T0SZ = 16 (TTBR0 covers
/// addresses below 2^48), IRGN0 = ORGN0 = 0b01 (write-back, read and write allocate),
/// SH0 = 0b11 (inner shareable), TG0 = 0b10 (4KB), T1SZ = 24, IRGN1 = ORGN1 = 0b01,
/// SH1 = 0b11, TG1 = 0b10 (4KB); EPD0, EPD1, A1, TBI0 and TBI1 clear.
pub const TCR_FIXED: u64 = 0xB518_B510;
/// SCTLR_EL1 bits the MMU setup sets: M (0), C (2), I (12).
pub const SCTLR_SET: u64 = 0x1005;
/// SCTLR_EL1 bits the MMU setup clears: A (1), SA (3), SA0 (4), WXN (19), E0E (24),
/// EE (25).
pub const SCTLR_CLEAR: u64 = 0x0308_001A;

/// TCR_EL1 for a core with physical address range encoding `pa_range` (copied into
/// IPS) and 16-bit ASIDs when `asid16` (AS).
pub open spec fn tcr_value(pa_range: u64, asid16: bool) -> u64 {
    (TCR_FIXED + pa_range * 0x1_0000_0000 + if asid16 { 0x10_0000_0000u64 } else { 0u64 }) as u64
}

/// SCTLR_EL1 with the MMU and the caches on, alignment checks, write-implies-XN and
/// big-endian tables off, every other bit of `sctlr` kept.
pub open spec fn sctlr_value(sctlr: u64) -> u64 {
    (sctlr | SCTLR_SET) & !SCTLR_CLEAR
}

/// The inputs `mmu_init` accepts: a physical address range encoding that names a range
/// (0 to 7), and, when the MMU can be set up, an ASID size of 8 (0) or 16 bits (2).
pub open spec fn mmu_features_readable(features: u64) -> bool {
    &&& field64(features, 0, 4) <= 7
    &&& field64(features, 0, 4) >= 1 && field64(features, 28, 4) != 0xF
        ==> field64(features, 4, 4) == 0 || field64(features, 4, 4) == 2
}

/// Whether `mmu_init` accepts `features`.
pub fn mmu_features_accepted(features: u64) -> (r: bool)
    ensures
        r == mmu_features_readable(features),
{
    let pa_range = get_field64(features, 0, 4);
    let asid = get_field64(features, 4, 4);
    pa_range <= 7 && (pa_range < 1 || get_field64(features, 28, 4) == 0xF || asid == 0 || asid == 2)
}

/// The register values that enable the MMU with `tables`, from the memory model
/// features the core reports (ID_AA64MMFR0_EL1) and the current SCTLR_EL1: an error
/// when the physical address range is below 36 bits (PARange 0) or the 4KB granule is
/// not supported (TGran4 0xF). Else MAIR attribute 0 is normal write-back
/// non-transient read/write-allocate memory (0xFF), attribute 1 device nGnRE (0x04),
/// attribute 2 normal non-cacheable (0x44); TTBR0 and TTBR1 hold the two level 0
/// tables; TCR_EL1 as `tcr_value`; SCTLR_EL1 as `sctlr_value`.
pub fn mmu_init(features: u64, sctlr: u64, tables: &TranslationTable4KB) -> (r: Result<MmuRegisters, MMUInitError>)
    requires
        mmu_features_readable(features),
        tables.wf(),
    ensures
        field64(features, 0, 4) < 1
            ==> r == Err::<MmuRegisters, MMUInitError>(MMUInitError::PhysicalAddressRangeAtLeast36bitNotSupported),
        field64(features, 0, 4) >= 1 && field64(features, 28, 4) == 0xF
            ==> r == Err::<MmuRegisters, MMUInitError>(MMUInitError::TranslationGranule4kbNotSupported),
        field64(features, 0, 4) >= 1 && field64(features, 28, 4) != 0xF ==> r is Ok,
        r matches Ok(m) ==> {
            &&& attr_byte(m.mair, 0) == 0xFF
            &&& attr_byte(m.mair, 1) == 0x04
            &&& attr_byte(m.mair, 2) == 0x44
            &&& forall|j: int| 3 <= j < 8 ==> attr_byte(m.mair, j) == 0
            &&& m.ttbr0 == tables.base + RANGE_0_LEVEL_0
            &&& m.ttbr1 == tables.base + RANGE_1_LEVEL_0
            &&& m.tcr == tcr_value(field64(features, 0, 4), field64(features, 4, 4) == 2)
            &&& field64(m.tcr, 0, 6) == 16
            &&& field64(m.tcr, 7, 1) == 0
            &&& field64(m.tcr, 8, 2) == 1
            &&& field64(m.tcr, 10, 2) == 1
            &&& field64(m.tcr, 12, 2) == 3
            &&& field64(m.tcr, 14, 2) == 2
            &&& field64(m.tcr, 16, 6) == 24
            &&& field64(m.tcr, 22, 1) == 0
            &&& field64(m.tcr, 23, 1) == 0
            &&& field64(m.tcr, 24, 2) == 1
            &&& field64(m.tcr, 26, 2) == 1
            &&& field64(m.tcr, 28, 2) == 3
            &&& field64(m.tcr, 30, 2) == 2
            &&& field64(m.tcr, 32, 3) == field64(features, 0, 4)
            &&& field64(m.tcr, 36, 1) == (if field64(features, 4, 4) == 2 { 1u64 } else { 0u64 })
            &&& field64(m.tcr, 37, 2) == 0
            &&& m.sctlr == sctlr_value(sctlr)
            &&& field64(m.sctlr, 0, 1) == 1 && field64(m.sctlr, 2, 1) == 1 && field64(m.sctlr, 12, 1) == 1
            &&& field64(m.sctlr, 1, 1) == 0 && field64(m.sctlr, 3, 1) == 0 && field64(m.sctlr, 4, 1) == 0
            &&& field64(m.sctlr, 19, 1) == 0 && field64(m.sctlr, 24, 1) == 0 && field64(m.sctlr, 25, 1) == 0
            &&& forall|k: u64| k < 64 && k != 0 && k != 1 && k != 2 && k != 3 && k != 4 && k != 12 && k != 19
                && k != 24 && k != 25 ==> #[trigger] field64(m.sctlr, k, 1) == field64(sctlr, k, 1)
        },
{
    let pa_range = get_field64(features, 0, 4);
    if pa_range < 1 {
        return Err(MMUInitError::PhysicalAddressRangeAtLeast36bitNotSupported);
    }
    if get_field64(features, 28, 4) == 0xF {
        return Err(MMUInitError::TranslationGranule4kbNotSupported);
    }
    let asid16 = get_field64(features, 4, 4) == 2;

    let mut mair = MairEl1::zero();
    proof {
        assert(forall|j: u64| j < 64 ==> #[trigger] ((0u64 >> j) & 0xff) == 0) by (bit_vector);
        assert forall|j: int| 0 <= j < 8 implies attr_byte(mair.0, j) == 0 by {
            assert(((0u64 >> ((8 * j) as u64)) & 0xff) == 0);
        }
    }
    mair.set_attr_n(MEMORY_ATTR_IDX_NORMAL as usize, MemoryAttributeDescriptor::normal(0xF, 0xF));
    mair.set_attr_n(MEMORY_ATTR_IDX_DEVICE as usize, MemoryAttributeDescriptor::device(1));
    mair.set_attr_n(MEMORY_ATTR_IDX_NON_CACHEABLE as usize, MemoryAttributeDescriptor::normal(4, 4));

    let as_bit: u64 = if asid16 { 1 } else { 0 };
    let tcr: u64 = TCR_FIXED + pa_range * 0x1_0000_0000 + as_bit * 0x10_0000_0000;
    assert({
        &&& field64(tcr, 0, 6) == 16
        &&& field64(tcr, 7, 1) == 0
        &&& field64(tcr, 8, 2) == 1
        &&& field64(tcr, 10, 2) == 1
        &&& field64(tcr, 12, 2) == 3
        &&& field64(tcr, 14, 2) == 2
        &&& field64(tcr, 16, 6) == 24
        &&& field64(tcr, 22, 1) == 0
        &&& field64(tcr, 23, 1) == 0
        &&& field64(tcr, 24, 2) == 1
        &&& field64(tcr, 26, 2) == 1
        &&& field64(tcr, 28, 2) == 3
        &&& field64(tcr, 30, 2) == 2
        &&& field64(tcr, 32, 3) == pa_range
        &&& field64(tcr, 36, 1) == as_bit
        &&& field64(tcr, 37, 2) == 0
    }) by (bit_vector)
        requires
            pa_range <= 7,
            as_bit <= 1,
            tcr == 0xB518_B510u64 + pa_range * 0x1_0000_0000u64 + as_bit * 0x10_0000_0000u64;

    let new_sctlr: u64 = (sctlr | SCTLR_SET) & !SCTLR_CLEAR;
    assert({
        &&& field64(new_sctlr, 0, 1) == 1 && field64(new_sctlr, 2, 1) == 1 && field64(new_sctlr, 12, 1) == 1
        &&& field64(new_sctlr, 1, 1) == 0 && field64(new_sctlr, 3, 1) == 0 && field64(new_sctlr, 4, 1) == 0
        &&& field64(new_sctlr, 19, 1) == 0 && field64(new_sctlr, 24, 1) == 0 && field64(new_sctlr, 25, 1) == 0
        &&& forall|k: u64| k < 64 && k != 0 && k != 1 && k != 2 && k != 3 && k != 4 && k != 12 && k != 19
            && k != 24 && k != 25 ==> #[trigger] field64(new_sctlr, k, 1) == field64(sctlr, k, 1)
    }) by (bit_vector)
        requires new_sctlr == (sctlr | SCTLR_SET) & !SCTLR_CLEAR, SCTLR_SET == 0x1005u64, SCTLR_CLEAR == 0x0308_001Au64;

    Ok(MmuRegisters {
        mair: mair.to_u64(),
        tcr,
        ttbr0: tables.base_address_rg0(),
        ttbr1: tables.base_address_rg1(),
        sctlr: new_sctlr,
    })
}

/// Bounds of the low one- and two-bit fields.
pub proof fn lemma_low_fields(v: u64)
    ensures
        field64(v, 0, 1) < 2,
        field64(v, 0, 2) < 4,
{
    assert(field64(v, 0, 1) < 2 && field64(v, 0, 2) < 4) by (bit_vector);
}

/// A level 1 or level 2 entry, which is a block or a table descriptor depending on
/// its two low bits.
#[derive(Clone, Copy, PartialEq, Eq, Structural)]
pub struct BlockOrTableDescriptor(pub u64);

impl BlockOrTableDescriptor {
    pub const TAG_TABLE: u8 = 3;
    pub const TAG_BLOCK: u8 = 1;

    pub fn from_table(value: TableDescriptor) -> (r: Self)
        ensures
            r.0 == value.0,
    {
        BlockOrTableDescriptor(value.0)
    }

    pub fn from_block(value: BlockDescriptor) -> (r: Self)
        ensures
            r.0 == value.0,
    {
        BlockOrTableDescriptor(value.0)
    }

    fn valid_bit(self) -> (r: u8)
        ensures
            r as u64 == field64(self.0, 0, 1),
    {
        proof { lemma_low_fields(self.0); }
        get_field64(self.0, 0, 1) as u8
    }

    fn masked_tag(self) -> (r: u8)
        ensures
            r as u64 == field64(self.0, 0, 2),
    {
        proof { lemma_low_fields(self.0); }
        get_field64(self.0, 0, 2) as u8
    }

    pub fn invalid() -> (r: Self)
        ensures
            r.0 == 0,
    {
        BlockOrTableDescriptor(0)
    }

    pub fn is_invalid(self) -> (r: bool)
        ensures
            r == (field64(self.0, 0, 1) == 0),
    {
        self.valid_bit() == 0
    }

    pub fn table_descriptor(self) -> (r: Option<TableDescriptor>)
        ensures
            field64(self.0, 0, 2) == 3 ==> r == Some(TableDescriptor(self.0)),
            field64(self.0, 0, 2) != 3 ==> r is None,
    {
        if self.masked_tag() == Self::TAG_TABLE {
            Some(TableDescriptor(self.0))
        } else {
            None
        }
    }

    pub fn block_descriptor(self) -> (r: Option<BlockDescriptor>)
        ensures
            field64(self.0, 0, 2) == 1 ==> r == Some(BlockDescriptor(self.0)),
            field64(self.0, 0, 2) != 1 ==> r is None,
    {
        if self.masked_tag() == Self::TAG_BLOCK {
            Some(BlockDescriptor(self.0))
        } else {
            None
        }
    }
}

// Layout of the translation tables in memory, as byte offsets from the table base:
// each table holds 512 eight-byte entries (4KB).
pub const RANGE_0_LEVEL_0: u64 = 0;
pub const RANGE_1_LEVEL_0: u64 = 0x1000;
pub const RANGE_0_LEVEL_1: u64 = 0x2000;
pub const RANGE_1_LEVEL_1: u64 = 0x3000;
pub const RANGE_0_LEVEL_2: u64 = 0x4000;
pub const RANGE_1_LEVEL_2: u64 = 0xC000;
pub const RANGE_0_LEVEL_3: u64 = 0x14000;
pub const RANGE_1_LEVEL_3: u64 = 0x15000;
pub const TABLES_SIZE: u64 = 0x16000;

pub const ENTRY_COUNT: u64 = 512;
pub const L2_BLOCK_SIZE: u64 = 0x20_0000;
pub const PAGE_SIZE: u64 = 0x1000;
/// Number of gigabytes mapped by the level 2 tables.
pub const GIGABYTES_SUPPORTED: usize = 8;

/// Contents of a table descriptor pointing at `next`.
pub open spec fn table_entry(next: u64) -> u64 {
    with_address(3, (12, 38), next)
}

/// Contents of the level 2 block descriptor for 2MB block number `block_nr`:
/// identity mapped, accessed, contiguous, and either inner shareable normal memory or
/// outer shareable device memory.
pub open spec fn block_entry(block_nr: u64, device: bool) -> u64 {
    let a = with_address(1, (21, 27), (block_nr * L2_BLOCK_SIZE) as u64);
    let b = with_field64(a, 10, 1, 1);
    let c = with_field64(b, 52, 1, 1);
    let d = with_field64(c, 8, 2, if device { 2 } else { 3 });
    with_field64(d, 2, 3, if device { MEMORY_ATTR_IDX_DEVICE } else { MEMORY_ATTR_IDX_NORMAL })
}

/// Contents of the level 3 page descriptor for 4KB page `page_nr`: identity mapped,
/// outer shareable, accessed, contiguous; when it holds stack, execute-never at EL0 and
/// at EL1 (UXN and PXN both set, 0b11 in bits 54:53).
pub open spec fn page_entry(page_nr: u64, stack: bool) -> u64 {
    let a = with_address(3, (12, 36), (page_nr * PAGE_SIZE) as u64);
    let b = with_field64(a, 8, 2, 2);
    let c = with_field64(b, 10, 1, 1);
    let d = with_field64(c, 52, 1, 1);
    if stack { with_field64(d, 53, 2, 3) } else { d }
}

/// First and last 2MB block of the peripheral range.
pub open spec fn peripheral_blocks(host: BcmHost) -> (u64, u64) {
    (
        (host.peripheral_range_inclusive.0 as u64 / L2_BLOCK_SIZE) as u64,
        (host.peripheral_range_inclusive.1 as u64 / L2_BLOCK_SIZE) as u64,
    )
}

/// Translation tables for two address ranges (TTBR0 and TTBR1), with the 4KB granule:
/// one level 0 and one level 1 table, eight level 2 tables and one level 3 table each.
pub struct TranslationTable4KB {
    /// Physical address at which the tables are laid out.
    pub base: u64,
    pub range_0_level_0: Vec<TableDescriptor>,
    pub range_1_level_0: Vec<TableDescriptor>,
    pub range_0_level_1: Vec<BlockOrTableDescriptor>,
    pub range_1_level_1: Vec<BlockOrTableDescriptor>,
    /// Eight consecutive level 2 tables.
    pub range_0_level_2: Vec<BlockOrTableDescriptor>,
    pub range_1_level_2: Vec<BlockOrTableDescriptor>,
    pub range_0_level_3: Vec<PageDescriptor>,
    pub range_1_level_3: Vec<PageDescriptor>,
}

fn zero_tables(n: usize) -> (r: Vec<TableDescriptor>)
    ensures
        r@.len() == n,
        forall|i: int| 0 <= i < n ==> r@[i].0 == 0,
{
    let mut v: Vec<TableDescriptor> = Vec::new();
    while v.len() < n
        invariant
            v@.len() <= n,
            forall|i: int| 0 <= i < v@.len() ==> v@[i].0 == 0,
        decreases n - v@.len(),
    {
        v.push(TableDescriptor::zero());
    }
    v
}

fn zero_entries(n: usize) -> (r: Vec<BlockOrTableDescriptor>)
    ensures
        r@.len() == n,
        forall|i: int| 0 <= i < n ==> r@[i].0 == 0,
{
    let mut v: Vec<BlockOrTableDescriptor> = Vec::new();
    while v.len() < n
        invariant
            v@.len() <= n,
            forall|i: int| 0 <= i < v@.len() ==> v@[i].0 == 0,
        decreases n - v@.len(),
    {
        v.push(BlockOrTableDescriptor::invalid());
    }
    v
}

fn zero_pages(n: usize) -> (r: Vec<PageDescriptor>)
    ensures
        r@.len() == n,
        forall|i: int| 0 <= i < n ==> r@[i].0 == 0,
{
    let mut v: Vec<PageDescriptor> = Vec::new();
    while v.len() < n
        invariant
            v@.len() <= n,
            forall|i: int| 0 <= i < v@.len() ==> v@[i].0 == 0,
        decreases n - v@.len(),
    {
        v.push(PageDescriptor::zero());
    }
    v
}

impl TranslationTable4KB {
    /// The tables have their sizes, and lie 4KB aligned below 2^48.
    pub open spec fn wf(&self) -> bool {
        &&& self.base % 4096 == 0
        &&& self.base + TABLES_SIZE < 0x1_0000_0000_0000
        &&& self.range_0_level_0@.len() == 512
        &&& self.range_1_level_0@.len() == 512
        &&& self.range_0_level_1@.len() == 512
        &&& self.range_1_level_1@.len() == 512
        &&& self.range_0_level_2@.len() == 4096
        &&& self.range_1_level_2@.len() == 4096
        &&& self.range_0_level_3@.len() == 512
        &&& self.range_1_level_3@.len() == 512
    }

    /// All entries invalid.
    pub fn new(base: u64) -> (r: Self)
        requires
            base % 4096 == 0,
            base + TABLES_SIZE < 0x1_0000_0000_0000,
        ensures
            r.wf(),
            r.base == base,
            forall|i: int| 0 <= i < 512 ==> r.range_0_level_0@[i].0 == 0 && r.range_1_level_0@[i].0 == 0,
            forall|i: int| 0 <= i < 512 ==> r.range_0_level_1@[i].0 == 0 && r.range_1_level_1@[i].0 == 0,
            forall|i: int| 0 <= i < 4096 ==> r.range_0_level_2@[i].0 == 0 && r.range_1_level_2@[i].0 == 0,
            forall|i: int| 0 <= i < 512 ==> r.range_0_level_3@[i].0 == 0 && r.range_1_level_3@[i].0 == 0,
    {
        TranslationTable4KB {
            base,
            range_0_level_0: zero_tables(512),
            range_1_level_0: zero_tables(512),
            range_0_level_1: zero_entries(512),
            range_1_level_1: zero_entries(512),
            range_0_level_2: zero_entries(4096),
            range_1_level_2: zero_entries(4096),
            range_0_level_3: zero_pages(512),
            range_1_level_3: zero_pages(512),
        }
    }

    /// Address of the range 0 level 0 table (for TTBR0).
    pub fn base_address_rg0(&self) -> (r: u64)
        requires
            self.wf(),
        ensures
            r == self.base + RANGE_0_LEVEL_0,
    {
        self.base + RANGE_0_LEVEL_0
    }

    /// Address of the range 1 level 0 table (for TTBR1).
    pub fn base_address_rg1(&self) -> (r: u64)
        requires
            self.wf(),
        ensures
            r == self.base + RANGE_1_LEVEL_0,
    {
        self.base + RANGE_1_LEVEL_0
    }

    pub open spec fn level_0_done(&self) -> bool {
        forall|i: int| 0 <= i < 512 ==> {
            &&& self.range_0_level_0@[i].0 == table_entry((self.base + RANGE_0_LEVEL_1) as u64)
            &&& self.range_1_level_0@[i].0 == table_entry((self.base + RANGE_1_LEVEL_1) as u64)
        }
    }

    /// Every level 0 entry points at the level 1 table of its range.
    pub fn initialize_level_0(&mut self)
        requires
            old(self).wf(),
        ensures
            final(self).wf(),
            final(self).level_0_done(),
            final(self).base == old(self).base,
            final(self).range_0_level_1 == old(self).range_0_level_1,
            final(self).range_1_level_1 == old(self).range_1_level_1,
            final(self).range_0_level_2 == old(self).range_0_level_2,
            final(self).range_1_level_2 == old(self).range_1_level_2,
            final(self).range_0_level_3 == old(self).range_0_level_3,
            final(self).range_1_level_3 == old(self).range_1_level_3,
    {
        let mode = AddressingMode::Gran4KBAddr48bit;
        let next_table_range0 = TableDescriptor::new().with_next_level_table_at(self.base + RANGE_0_LEVEL_1, mode);
        let next_table_range1 = TableDescriptor::new().with_next_level_table_at(self.base + RANGE_1_LEVEL_1, mode);
        let mut i: usize = 0;
        while i < 512
            invariant
                self.wf(),
                i <= 512,
                self.base == old(self).base,
                next_table_range0.0 == table_entry((self.base + RANGE_0_LEVEL_1) as u64),
                next_table_range1.0 == table_entry((self.base + RANGE_1_LEVEL_1) as u64),
                forall|k: int| 0 <= k < i ==> {
                    &&& self.range_0_level_0@[k].0 == table_entry((self.base + RANGE_0_LEVEL_1) as u64)
                    &&& self.range_1_level_0@[k].0 == table_entry((self.base + RANGE_1_LEVEL_1) as u64)
                },
                self.range_0_level_1 == old(self).range_0_level_1,
                self.range_1_level_1 == old(self).range_1_level_1,
                self.range_0_level_2 == old(self).range_0_level_2,
                self.range_1_level_2 == old(self).range_1_level_2,
                self.range_0_level_3 == old(self).range_0_level_3,
                self.range_1_level_3 == old(self).range_1_level_3,
            decreases 512 - i,
        {
            self.range_0_level_0.set(i, next_table_range0);
            self.range_1_level_0.set(i, next_table_range1);
            i += 1;
        }
    }

    pub open spec fn level_1_done(&self, gigabytes_supported: u64) -> bool {
        forall|i: int| 0 <= i < 512 ==> {
            &&& self.range_0_level_1@[i].0
                == table_entry((self.base + RANGE_0_LEVEL_2 + (i % gigabytes_supported as int) * 4096) as u64)
            &&& self.range_1_level_1@[i].0
                == table_entry((self.base + RANGE_1_LEVEL_2 + (i % gigabytes_supported as int) * 4096) as u64)
        }
    }

    /// Level 1 entry `i` points at level 2 table `i % gigabytes_supported`, so the
    /// supported gigabytes repeat over the whole range.
    pub fn initialize_level_1(&mut self, gigabytes_supported: usize)
        requires
            old(self).wf(),
            1 <= gigabytes_supported <= 8,
        ensures
            final(self).wf(),
            final(self).level_1_done(gigabytes_supported as u64),
            final(self).base == old(self).base,
            final(self).range_0_level_0 == old(self).range_0_level_0,
            final(self).range_1_level_0 == old(self).range_1_level_0,
            final(self).range_0_level_2 == old(self).range_0_level_2,
            final(self).range_1_level_2 == old(self).range_1_level_2,
            final(self).range_0_level_3 == old(self).range_0_level_3,
            final(self).range_1_level_3 == old(self).range_1_level_3,
    {
        let mode = AddressingMode::Gran4KBAddr48bit;
        let mut i: usize = 0;
        while i < 512
            invariant
                self.wf(),
                i <= 512,
                1 <= gigabytes_supported <= 8,
                self.base == old(self).base,
                forall|k: int| 0 <= k < i ==> {
                    &&& self.range_0_level_1@[k].0
                        == table_entry((self.base + RANGE_0_LEVEL_2 + (k % gigabytes_supported as int) * 4096) as u64)
                    &&& self.range_1_level_1@[k].0
                        == table_entry((self.base + RANGE_1_LEVEL_2 + (k % gigabytes_supported as int) * 4096) as u64)
                },
                self.range_0_level_0 == old(self).range_0_level_0,
                self.range_1_level_0 == old(self).range_1_level_0,
                self.range_0_level_2 == old(self).range_0_level_2,
                self.range_1_level_2 == old(self).range_1_level_2,
                self.range_0_level_3 == old(self).range_0_level_3,
                self.range_1_level_3 == old(self).range_1_level_3,
            decreases 512 - i,
        {
            let next_level_index = i % gigabytes_supported;
            let offset = next_level_index as u64 * 4096;
            let next_table_range0 = TableDescriptor::new()
                .with_next_level_table_at(self.base + RANGE_0_LEVEL_2 + offset, AddressingMode::Gran4KBAddr48bit);
            self.range_0_level_1.set(i, BlockOrTableDescriptor::from_table(next_table_range0));
            let next_table_range1 = TableDescriptor::new()
                .with_next_level_table_at(self.base + RANGE_1_LEVEL_2 + offset, AddressingMode::Gran4KBAddr48bit);
            self.range_1_level_1.set(i, BlockOrTableDescriptor::from_table(next_table_range1));
            i += 1;
        }
    }

    /// Expected value of level 2 entry `idx` (of the eight consecutive tables).
    pub open spec fn level_2_entry(level_3_address: u64, idx: int, gigabytes_supported: u64, host: BcmHost, previous: u64) -> u64 {
        let (lo, hi) = peripheral_blocks(host);
        if lo <= idx <= hi {
            block_entry(idx as u64, true)
        } else if idx == 0 {
            table_entry(level_3_address)
        } else if idx < gigabytes_supported * 512 {
            block_entry(idx as u64, false)
        } else {
            previous
        }
    }

    pub open spec fn level_2_done(&self, gigabytes_supported: u64, host: BcmHost, before: &Self) -> bool {
        forall|i: int| 0 <= i < 4096 ==> {
            &&& self.range_0_level_2@[i].0 == Self::level_2_entry(
                (self.base + RANGE_0_LEVEL_3) as u64, i, gigabytes_supported, host, before.range_0_level_2@[i].0)
            &&& self.range_1_level_2@[i].0 == Self::level_2_entry(
                (self.base + RANGE_1_LEVEL_3) as u64, i, gigabytes_supported, host, before.range_1_level_2@[i].0)
        }
    }

    /// Maps the supported gigabytes identically with 2MB blocks of normal memory, hands
    /// the first 2MB to the level 3 table, and marks the peripheral range as device memory.
    pub fn initialize_level_2(&mut self, gigabytes_supported: usize, host: BcmHost)
        requires
            old(self).wf(),
            gigabytes_supported <= 8,
            (host.peripheral_range_inclusive.1 as u64 / L2_BLOCK_SIZE) < 4096,
        ensures
            final(self).wf(),
            final(self).level_2_done(gigabytes_supported as u64, host, old(self)),
            final(self).base == old(self).base,
            final(self).range_0_level_0 == old(self).range_0_level_0,
            final(self).range_1_level_0 == old(self).range_1_level_0,
            final(self).range_0_level_1 == old(self).range_0_level_1,
            final(self).range_1_level_1 == old(self).range_1_level_1,
            final(self).range_0_level_3 == old(self).range_0_level_3,
            final(self).range_1_level_3 == old(self).range_1_level_3,
    {
        let mode = AddressingMode::Gran4KBAddr48bit;
        let count: usize = gigabytes_supported * 512;
        let mut idx: usize = 0;
        while idx < count
            invariant
                self.wf(),
                idx <= count,
                count == gigabytes_supported * 512,
                gigabytes_supported <= 8,
                self.base == old(self).base,
                forall|k: int| 0 <= k < 4096 ==> {
                    &&& self.range_0_level_2@[k].0 == if k < idx { block_entry(k as u64, false) } else { old(self).range_0_level_2@[k].0 }
                    &&& self.range_1_level_2@[k].0 == if k < idx { block_entry(k as u64, false) } else { old(self).range_1_level_2@[k].0 }
                },
                self.range_0_level_0 == old(self).range_0_level_0,
                self.range_1_level_0 == old(self).range_1_level_0,
                self.range_0_level_1 == old(self).range_0_level_1,
                self.range_1_level_1 == old(self).range_1_level_1,
                self.range_0_level_3 == old(self).range_0_level_3,
                self.range_1_level_3 == old(self).range_1_level_3,
            decreases count - idx,
        {
            let output_address = idx as u64 * L2_BLOCK_SIZE;
            let default_block = BlockDescriptor::new()
                .with_output_address(output_address, AddressingMode::Gran4KBAddr48bit, BlockLevel::Level2)
                .with_af_set()
                .with_contiguous_set()
                .with_sh(Shareability::InnerShareable)
                .with_stage_1_mem_attr_indx(MEMORY_ATTR_IDX_NORMAL);
            self.range_0_level_2.set(idx, BlockOrTableDescriptor::from_block(default_block));
            self.range_1_level_2.set(idx, BlockOrTableDescriptor::from_block(default_block));
            idx += 1;
        }

        let first_range0 = TableDescriptor::new().with_next_level_table_at(self.base + RANGE_0_LEVEL_3, mode);
        self.range_0_level_2.set(0, BlockOrTableDescriptor::from_table(first_range0));
        let first_range1 = TableDescriptor::new().with_next_level_table_at(self.base + RANGE_1_LEVEL_3, mode);
        self.range_1_level_2.set(0, BlockOrTableDescriptor::from_table(first_range1));

        let ghost phase2_r0 = self.range_0_level_2@;
        let ghost phase2_r1 = self.range_1_level_2@;
        let lo: u64 = host.peripheral_range_inclusive.0 as u64 / L2_BLOCK_SIZE;
        let hi: u64 = host.peripheral_range_inclusive.1 as u64 / L2_BLOCK_SIZE;
        let mut block_nr: u64 = lo;
        while block_nr <= hi
            invariant
                self.wf(),
                hi < 4096,
                lo <= block_nr,
                block_nr <= hi + 1 || block_nr == lo,
                lo == peripheral_blocks(host).0,
                hi == peripheral_blocks(host).1,
                self.base == old(self).base,
                phase2_r0.len() == 4096,
                phase2_r1.len() == 4096,
                forall|k: int| 0 <= k < 4096 ==> {
                    &&& self.range_0_level_2@[k].0 == if lo <= k < block_nr { block_entry(k as u64, true) } else { phase2_r0[k].0 }
                    &&& self.range_1_level_2@[k].0 == if lo <= k < block_nr { block_entry(k as u64, true) } else { phase2_r1[k].0 }
                },
                self.range_0_level_0 == old(self).range_0_level_0,
                self.range_1_level_0 == old(self).range_1_level_0,
                self.range_0_level_1 == old(self).range_0_level_1,
                self.range_1_level_1 == old(self).range_1_level_1,
                self.range_0_level_3 == old(self).range_0_level_3,
                self.range_1_level_3 == old(self).range_1_level_3,
            decreases hi + 1 - block_nr,
        {
            let index = block_nr as usize;
            let output_address = block_nr * L2_BLOCK_SIZE;
            let device_block = BlockDescriptor::new()
                .with_output_address(output_address, AddressingMode::Gran4KBAddr48bit, BlockLevel::Level2)
                .with_af_set()
                .with_contiguous_set()
                .with_sh(Shareability::OuterShareable)
                .with_stage_1_mem_attr_indx(MEMORY_ATTR_IDX_DEVICE);
            self.range_0_level_2.set(index, BlockOrTableDescriptor::from_block(device_block));
            self.range_1_level_2.set(index, BlockOrTableDescriptor::from_block(device_block));
            block_nr += 1;
        }
    }

    pub open spec fn level_3_done(&self, stack_pages: (u64, u64)) -> bool {
        forall|i: int| 0 <= i < 512 ==> {
            &&& self.range_0_level_3@[i].0 == page_entry(i as u64, stack_pages.0 <= i < stack_pages.1)
            &&& self.range_1_level_3@[i].0 == page_entry(i as u64, stack_pages.0 <= i < stack_pages.1)
        }
    }

    /// Maps the first 2MB identically with 4KB pages; the pages of the main stack are
    /// execute-never for the kernel (EL1) and for EL0.
    pub fn initialize_level_3(&mut self, main_stack: MemoryBlock)
        requires
            old(self).wf(),
            main_stack.0 / 4096 >= main_stack.1 / 4096 || main_stack.1 / 4096 <= 512,
        ensures
            final(self).wf(),
            final(self).level_3_done(((main_stack.0 / 4096) as u64, (main_stack.1 / 4096) as u64)),
            final(self).base == old(self).base,
            final(self).range_0_level_0 == old(self).range_0_level_0,
            final(self).range_1_level_0 == old(self).range_1_level_0,
            final(self).range_0_level_1 == old(self).range_0_level_1,
            final(self).range_1_level_1 == old(self).range_1_level_1,
            final(self).range_0_level_2 == old(self).range_0_level_2,
            final(self).range_1_level_2 == old(self).range_1_level_2,
    {
        let mode = AddressingMode::Gran4KBAddr48bit;
        let stack_pages_begin: u64 = main_stack.bottom() as u64 / PAGE_SIZE;
        let stack_pages_end: u64 = main_stack.top() as u64 / PAGE_SIZE;
        let mut i: u64 = 0;
        while i < 512
            invariant
                self.wf(),
                i <= 512,
                self.base == old(self).base,
                forall|k: int| 0 <= k < i ==> {
                    &&& self.range_0_level_3@[k].0 == page_entry(k as u64, false)
                    &&& self.range_1_level_3@[k].0 == page_entry(k as u64, false)
                },
                self.range_0_level_0 == old(self).range_0_level_0,
                self.range_1_level_0 == old(self).range_1_level_0,
                self.range_0_level_1 == old(self).range_0_level_1,
                self.range_1_level_1 == old(self).range_1_level_1,
                self.range_0_level_2 == old(self).range_0_level_2,
                self.range_1_level_2 == old(self).range_1_level_2,
            decreases 512 - i,
        {
            let output_address = i * PAGE_SIZE;
            let normal_page = PageDescriptor::new()
                .with_output_address(output_address, AddressingMode::Gran4KBAddr48bit)
                .with_sh(Shareability::OuterShareable)
                .with_af_set()
                .with_contiguous_set();
            self.range_0_level_3.set(i as usize, normal_page);
            self.range_1_level_3.set(i as usize, normal_page);
            i += 1;
        }
        let mut p: u64 = stack_pages_begin;
        while p < stack_pages_end
            invariant
                self.wf(),
                stack_pages_begin <= p,
                p < stack_pages_end ==> stack_pages_end <= 512,
                p <= stack_pages_end || p == stack_pages_begin,
                stack_pages_begin == (main_stack.0 / 4096) as u64,
                stack_pages_end == (main_stack.1 / 4096) as u64,
                self.base == old(self).base,
                forall|k: int| 0 <= k < 512 ==> {
                    &&& self.range_0_level_3@[k].0 == page_entry(k as u64, stack_pages_begin <= k < p)
                    &&& self.range_1_level_3@[k].0 == page_entry(k as u64, stack_pages_begin <= k < p)
                },
                self.range_0_level_0 == old(self).range_0_level_0,
                self.range_1_level_0 == old(self).range_1_level_0,
                self.range_0_level_1 == old(self).range_0_level_1,
                self.range_1_level_1 == old(self).range_1_level_1,
                self.range_0_level_2 == old(self).range_0_level_2,
                self.range_1_level_2 == old(self).range_1_level_2,
            decreases stack_pages_end - p,
        {
            let idx = p as usize;
            let page0 = self.range_0_level_3[idx].with_xn_uxn_pxn(3);
            self.range_0_level_3.set(idx, page0);
            let page1 = self.range_1_level_3[idx].with_xn_uxn_pxn(3);
            self.range_1_level_3.set(idx, page1);
            p += 1;
        }
    }

    pub open spec fn initialized(&self, host: BcmHost, main_stack: MemoryBlock) -> bool {
        &&& self.wf()
        &&& self.level_0_done()
        &&& self.level_1_done(GIGABYTES_SUPPORTED as u64)
        &&& forall|i: int| 0 <= i < 4096 ==> {
            &&& self.range_0_level_2@[i].0 == Self::level_2_entry(
                (self.base + RANGE_0_LEVEL_3) as u64, i, GIGABYTES_SUPPORTED as u64, host, 0)
            &&& self.range_1_level_2@[i].0 == Self::level_2_entry(
                (self.base + RANGE_1_LEVEL_3) as u64, i, GIGABYTES_SUPPORTED as u64, host, 0)
        }
        &&& self.level_3_done(((main_stack.0 / 4096) as u64, (main_stack.1 / 4096) as u64))
    }

    /// Builds the kernel's translation tables at `base`: every level wired up, 8GB of
    /// identity mapping repeated across each range.
    pub fn init(base: u64, main_stack: MemoryBlock, host: BcmHost) -> (r: Self)
        requires
            base % 4096 == 0,
            base + TABLES_SIZE < 0x1_0000_0000_0000,
            main_stack.0 / 4096 >= main_stack.1 / 4096 || main_stack.1 / 4096 <= 512,
            (host.peripheral_range_inclusive.1 as u64 / L2_BLOCK_SIZE) < 4096,
        ensures
            r.base == base,
            r.initialized(host, main_stack),
    {
        let mut t = Self::new(base);
        t.initialize_level_0();
        t.initialize_level_1(GIGABYTES_SUPPORTED);
        let ghost before = t;
        t.initialize_level_2(GIGABYTES_SUPPORTED, host);
        t.initialize_level_3(main_stack);
        t
    }

    /// The 64-bit word at physical address `a`, if `a` is an entry of the tables.
    pub open spec fn word_at(&self, a: u64) -> Option<u64> {
        if a < self.base || a >= self.base + TABLES_SIZE || (a - self.base) % 8 != 0 {
            None
        } else {
            let w = (a - self.base) / 8;
            if w < 512 {
                Some(self.range_0_level_0@[w].0)
            } else if w < 1024 {
                Some(self.range_1_level_0@[w - 512].0)
            } else if w < 1536 {
                Some(self.range_0_level_1@[w - 1024].0)
            } else if w < 2048 {
                Some(self.range_1_level_1@[w - 1536].0)
            } else if w < 6144 {
                Some(self.range_0_level_2@[w - 2048].0)
            } else if w < 10240 {
                Some(self.range_1_level_2@[w - 6144].0)
            } else if w < 10752 {
                Some(self.range_0_level_3@[w - 10240].0)
            } else {
                Some(self.range_1_level_3@[w - 10752].0)
            }
        }
    }
}

/// Index into a 512-entry table of the input address bits starting at `shift`.
pub open spec fn table_index(ia: u64, shift: u64) -> u64 {
    (ia >> shift) & 0x1ff
}

/// The translation of input address `ia` that a 4KB granule, 48 bit, four level table
/// walk starting at the level 0 table `root` finds in memory `mem`; `None` for a
/// translation fault.
pub open spec fn walk(mem: spec_fn(u64) -> Option<u64>, root: u64, ia: u64) -> Option<u64> {
    match mem((root + table_index(ia, 39) * 8) as u64) {
        None => None,
        Some(d0) => if field64(d0, 0, 2) != 3 {
            None
        } else {
            match mem((address_of(d0, (12, 38)) + table_index(ia, 30) * 8) as u64) {
                None => None,
                Some(d1) => if field64(d1, 0, 2) == 1 {
                    Some(address_of(d1, (30, 18)) | (ia & low_mask64(30)))
                } else if field64(d1, 0, 2) != 3 {
                    None
                } else {
                    match mem((address_of(d1, (12, 38)) + table_index(ia, 21) * 8) as u64) {
                        None => None,
                        Some(d2) => if field64(d2, 0, 2) == 1 {
                            Some(address_of(d2, (21, 27)) | (ia & low_mask64(21)))
                        } else if field64(d2, 0, 2) != 3 {
                            None
                        } else {
                            match mem((address_of(d2, (12, 38)) + table_index(ia, 12) * 8) as u64) {
                                None => None,
                                Some(d3) => if field64(d3, 0, 2) == 3 {
                                    Some(address_of(d3, (12, 36)) | (ia & low_mask64(12)))
                                } else {
                                    None
                                },
                            }
                        },
                    }
                },
            }
        },
    }
}

proof fn lemma_format_constants()
    ensures
        field64(3, 0, 2) == 3,
        field64(1, 0, 2) == 1,
{
    assert(field64(3, 0, 2) == 3 && field64(1, 0, 2) == 1) by (bit_vector);
}

proof fn lemma_aligned_table_address(a: u64)
    requires
        a % 4096 == 0,
        a < 0x1_0000_0000_0000,
    ensures
        a & low_mask64(12) == 0,
        a >> 50 == 0,
{
    assert(a & low_mask64(12) == 0 && a >> 50 == 0) by (bit_vector)
        requires a % 4096 == 0, a < 0x1_0000_0000_0000u64;
}

proof fn lemma_block_and_page_addresses(n: u64)
    requires
        n < 4096,
    ensures
        (n * 0x200000) as u64 & low_mask64(21) == 0,
        (n * 0x200000) as u64 >> 48 == 0,
        n < 512 ==> (n * 0x1000) as u64 & low_mask64(12) == 0,
        n < 512 ==> (n * 0x1000) as u64 >> 48 == 0,
{
    assert(
        (n * 0x200000) as u64 & low_mask64(21) == 0 && (n * 0x200000) as u64 >> 48 == 0
        && (n < 512 ==> (n * 0x1000) as u64 & low_mask64(12) == 0 && (n * 0x1000) as u64 >> 48 == 0)
    ) by (bit_vector)
        requires n < 4096;
}

/// How an input address below 8GB splits into table indices.
proof fn lemma_input_address_split(ia: u64)
    requires
        ia < 0x2_0000_0000,
    ensures
        table_index(ia, 39) == 0,
        table_index(ia, 30) < 8,
        table_index(ia, 21) < 512,
        table_index(ia, 12) < 512,
        ((table_index(ia, 30) * 512 + table_index(ia, 21)) * 0x200000) as u64 | (ia & low_mask64(21)) == ia,
        table_index(ia, 30) == 0 && table_index(ia, 21) == 0 ==> (table_index(ia, 12) * 0x1000) as u64 | (ia & low_mask64(12)) == ia,
{
    assert(
        table_index(ia, 39) == 0 && table_index(ia, 30) < 8 && table_index(ia, 21) < 512 && table_index(ia, 12) < 512
        && ((table_index(ia, 30) * 512 + table_index(ia, 21)) * 0x200000) as u64 | (ia & low_mask64(21)) == ia
        && (table_index(ia, 30) == 0 && table_index(ia, 21) == 0 ==> (table_index(ia, 12) * 0x1000) as u64 | (ia & low_mask64(12)) == ia)
    ) by (bit_vector)
        requires ia < 0x2_0000_0000u64;
}

proof fn lemma_table_entry(a: u64)
    requires
        a % 4096 == 0,
        a < 0x1_0000_0000_0000,
    ensures
        field64(table_entry(a), 0, 2) == 3,
        address_of(table_entry(a), (12, 38)) == a,
{
    lemma_format_constants();
    lemma_aligned_table_address(a);
    crate::bits::lemma_field64_disjoint(3, 12, 38, a >> 12, 0, 2);
    self::descriptors::lemma_address_round_trip(3, (12, 38), a);
}

proof fn lemma_block_entry(n: u64, device: bool)
    requires
        n < 4096,
    ensures
        field64(block_entry(n, device), 0, 2) == 1,
        address_of(block_entry(n, device), (21, 27)) == n * 0x200000,
{
    lemma_format_constants();
    lemma_block_and_page_addresses(n);
    let addr = (n * L2_BLOCK_SIZE) as u64;
    let a = with_address(1, (21, 27), addr);
    let b = with_field64(a, 10, 1, 1);
    let c = with_field64(b, 52, 1, 1);
    let d = with_field64(c, 8, 2, if device { 2 } else { 3 });
    let e = with_field64(d, 2, 3, if device { MEMORY_ATTR_IDX_DEVICE } else { MEMORY_ATTR_IDX_NORMAL });
    crate::bits::lemma_field64_disjoint(1, 21, 27, addr >> 21, 0, 2);
    self::descriptors::lemma_address_round_trip(1, (21, 27), addr);
    crate::bits::lemma_field64_disjoint(a, 10, 1, 1, 0, 2);
    crate::bits::lemma_field64_disjoint(a, 10, 1, 1, 21, 27);
    crate::bits::lemma_field64_disjoint(b, 52, 1, 1, 0, 2);
    crate::bits::lemma_field64_disjoint(b, 52, 1, 1, 21, 27);
    crate::bits::lemma_field64_disjoint(c, 8, 2, if device { 2 } else { 3 }, 0, 2);
    crate::bits::lemma_field64_disjoint(c, 8, 2, if device { 2 } else { 3 }, 21, 27);
    crate::bits::lemma_field64_disjoint(d, 2, 3, if device { MEMORY_ATTR_IDX_DEVICE } else { MEMORY_ATTR_IDX_NORMAL }, 0, 2);
    crate::bits::lemma_field64_disjoint(d, 2, 3, if device { MEMORY_ATTR_IDX_DEVICE } else { MEMORY_ATTR_IDX_NORMAL }, 21, 27);
}

proof fn lemma_page_entry(n: u64, stack: bool)
    requires
        n < 512,
    ensures
        field64(page_entry(n, stack), 0, 2) == 3,
        address_of(page_entry(n, stack), (12, 36)) == n * 0x1000,
{
    lemma_format_constants();
    lemma_block_and_page_addresses(n);
    let addr = (n * PAGE_SIZE) as u64;
    let a = with_address(3, (12, 36), addr);
    let b = with_field64(a, 8, 2, 2);
    let c = with_field64(b, 10, 1, 1);
    let d = with_field64(c, 52, 1, 1);
    crate::bits::lemma_field64_disjoint(3, 12, 36, addr >> 12, 0, 2);
    self::descriptors::lemma_address_round_trip(3, (12, 36), addr);
    crate::bits::lemma_field64_disjoint(a, 8, 2, 2, 0, 2);
    crate::bits::lemma_field64_disjoint(a, 8, 2, 2, 12, 36);
    crate::bits::lemma_field64_disjoint(b, 10, 1, 1, 0, 2);
    crate::bits::lemma_field64_disjoint(b, 10, 1, 1, 12, 36);
    crate::bits::lemma_field64_disjoint(c, 52, 1, 1, 0, 2);
    crate::bits::lemma_field64_disjoint(c, 52, 1, 1, 12, 36);
    crate::bits::lemma_field64_disjoint(d, 53, 2, 3, 0, 2);
    crate::bits::lemma_field64_disjoint(d, 53, 2, 3, 12, 36);
}

/// Walks one range of initialized tables; `l0`, `l1`, `l2`, `l3` are the offsets of
/// the range's tables.
proof fn lemma_walk_range(t: TranslationTable4KB, host: BcmHost, main_stack: MemoryBlock, ia: u64, range1: bool)
    requires
        t.initialized(host, main_stack),
        ia < 0x2_0000_0000,
    ensures
        walk(|a: u64| t.word_at(a), (t.base + if range1 { RANGE_1_LEVEL_0 } else { RANGE_0_LEVEL_0 }) as u64, ia) == Some(ia),
{
    let mem = |a: u64| t.word_at(a);
    let l0 = if range1 { RANGE_1_LEVEL_0 } else { RANGE_0_LEVEL_0 };
    let l1 = if range1 { RANGE_1_LEVEL_1 } else { RANGE_0_LEVEL_1 };
    let l2 = if range1 { RANGE_1_LEVEL_2 } else { RANGE_0_LEVEL_2 };
    let l3 = if range1 { RANGE_1_LEVEL_3 } else { RANGE_0_LEVEL_3 };
    lemma_input_address_split(ia);
    lemma_format_constants();
    let i = table_index(ia, 30);
    let k = table_index(ia, 21);
    let p = table_index(ia, 12);
    let idx = (i * 512 + k) as u64;

    // level 0
    let root = (t.base + l0) as u64;
    assert(table_index(ia, 39) == 0);
    let d0 = if range1 { t.range_1_level_0@[0].0 } else { t.range_0_level_0@[0].0 };
    assert(mem((root + table_index(ia, 39) * 8) as u64) == Some(d0));
    assert(d0 == table_entry((t.base + l1) as u64));
    lemma_table_entry((t.base + l1) as u64);

    // level 1
    let a1 = (t.base + l1 + i * 8) as u64;
    assert(a1 == (address_of(d0, (12, 38)) + table_index(ia, 30) * 8) as u64);
    let d1 = if range1 { t.range_1_level_1@[i as int].0 } else { t.range_0_level_1@[i as int].0 };
    assert((a1 - t.base) / 8 == l1 / 8 + i);
    assert(mem(a1) == Some(d1));
    assert(i as int % 8 == i);
    assert(d1 == table_entry((t.base + l2 + i * 4096) as u64));
    lemma_table_entry((t.base + l2 + i * 4096) as u64);

    // level 2
    let a2 = (t.base + l2 + i * 4096 + k * 8) as u64;
    assert(a2 == (address_of(d1, (12, 38)) + table_index(ia, 21) * 8) as u64);
    let d2 = if range1 { t.range_1_level_2@[idx as int].0 } else { t.range_0_level_2@[idx as int].0 };
    assert((a2 - t.base) / 8 == l2 / 8 + idx);
    assert(mem(a2) == Some(d2));
    let (lo, hi) = peripheral_blocks(host);
    if lo <= idx <= hi {
        assert(d2 == block_entry(idx, true));
        lemma_block_entry(idx, true);
    } else if idx == 0 {
        assert(d2 == table_entry((t.base + l3) as u64));
        lemma_table_entry((t.base + l3) as u64);
        // level 3
        let a3 = (t.base + l3 + p * 8) as u64;
        assert(a3 == (address_of(d2, (12, 38)) + table_index(ia, 12) * 8) as u64);
        let d3 = if range1 { t.range_1_level_3@[p as int].0 } else { t.range_0_level_3@[p as int].0 };
        assert((a3 - t.base) / 8 == l3 / 8 + p);
        assert(mem(a3) == Some(d3));
        let stack_pages = ((main_stack.0 / 4096) as u64, (main_stack.1 / 4096) as u64);
        assert(d3 == page_entry(p, stack_pages.0 <= p < stack_pages.1));
        lemma_page_entry(p, stack_pages.0 <= p < stack_pages.1);
    } else {
        assert(d2 == block_entry(idx, false));
        lemma_block_entry(idx, false);
    }
}

/// The kernel's translation tables map every input address below 8GB to itself, through
/// both TTBR0 and TTBR1.
pub proof fn lemma_identity_mapping(t: TranslationTable4KB, host: BcmHost, main_stack: MemoryBlock, ia: u64)
    requires
        t.initialized(host, main_stack),
        ia < 0x2_0000_0000,
    ensures
        walk(|a: u64| t.word_at(a), (t.base + RANGE_0_LEVEL_0) as u64, ia) == Some(ia),
        walk(|a: u64| t.word_at(a), (t.base + RANGE_1_LEVEL_0) as u64, ia) == Some(ia),
{
    lemma_walk_range(t, host, main_stack, ia, false);
    lemma_walk_range(t, host, main_stack, ia, true);
}

} // verus!
