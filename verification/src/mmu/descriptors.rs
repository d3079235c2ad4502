use vstd::prelude::*;
use crate::bits::{field64, with_field64, low_mask64, valid_field64, get_field64, set_field64, lemma_field64_read_write, lemma_field64_address_round_trip};

verus! {

/// Granule size and address width used to place addresses inside descriptors.
#[derive(Clone, Copy, PartialEq, Eq, Structural)]
pub enum AddressingMode {
    Gran4KBAddr48bit,
    Gran16KBAddr48bit,
    Gran64KBPAddr48BitVAddr48Bit,
}

/// Translation level at which a block descriptor sits.
#[derive(Clone, Copy, PartialEq, Eq, Structural)]
pub enum BlockLevel {
    Level0,
    Level1,
    Level2,
}

/// Error of a value that does not fit the field it is meant for.
#[derive(Clone, Copy, PartialEq, Eq, Structural)]
pub enum BitFieldError {
    ValueTooLargeForField,
}

/// Descriptor format, bits [1:0] of table and block descriptors.
#[derive(Clone, Copy, PartialEq, Eq, Structural)]
pub enum TableOrBlockDescriptorFormat {
    Invalid00,
    Invalid10,
    Block,
    Table,
}

impl TableOrBlockDescriptorFormat {
    pub open spec fn spec_bits(self) -> u64 {
        match self {
            TableOrBlockDescriptorFormat::Invalid00 => 0,
            TableOrBlockDescriptorFormat::Invalid10 => 2,
            TableOrBlockDescriptorFormat::Block => 1,
            TableOrBlockDescriptorFormat::Table => 3,
        }
    }

    pub open spec fn spec_from_bits(v: u64) -> Self {
        if v & 3 == 0 {
            TableOrBlockDescriptorFormat::Invalid00
        } else if v & 3 == 2 {
            TableOrBlockDescriptorFormat::Invalid10
        } else if v & 3 == 1 {
            TableOrBlockDescriptorFormat::Block
        } else {
            TableOrBlockDescriptorFormat::Table
        }
    }
}

/// Shareability field SH[1:0], bits [9:8] of block and page descriptors.
#[derive(Clone, Copy, PartialEq, Eq, Structural)]
pub enum Shareability {
    NonShareable,
    Reserved,
    OuterShareable,
    InnerShareable,
}

impl Shareability {
    pub open spec fn spec_bits(self) -> u64 {
        match self {
            Shareability::NonShareable => 0,
            Shareability::Reserved => 1,
            Shareability::OuterShareable => 2,
            Shareability::InnerShareable => 3,
        }
    }

    pub fn bits(self) -> (r: u64)
        ensures
            r == self.spec_bits(),
    {
        match self {
            Shareability::NonShareable => 0,
            Shareability::Reserved => 1,
            Shareability::OuterShareable => 2,
            Shareability::InnerShareable => 3,
        }
    }

    pub open spec fn spec_from_bits(v: u64) -> Self {
        if v & 3 == 0 {
            Shareability::NonShareable
        } else if v & 3 == 1 {
            Shareability::Reserved
        } else if v & 3 == 2 {
            Shareability::OuterShareable
        } else {
            Shareability::InnerShareable
        }
    }
}

/// Stage 2 device memory attribute.
#[derive(Clone, Copy, PartialEq, Eq, Structural)]
pub enum DeviceAttribute {
    NGnRnE,
    NGnRE,
    NGRE,
    Gre,
}

impl DeviceAttribute {
    pub open spec fn spec_bits(self) -> u64 {
        match self {
            DeviceAttribute::NGnRnE => 0,
            DeviceAttribute::NGnRE => 1,
            DeviceAttribute::NGRE => 2,
            DeviceAttribute::Gre => 3,
        }
    }

    pub open spec fn spec_from_bits(v: u64) -> Self {
        if v == 0 {
            DeviceAttribute::NGnRnE
        } else if v == 1 {
            DeviceAttribute::NGnRE
        } else if v == 2 {
            DeviceAttribute::NGRE
        } else {
            DeviceAttribute::Gre
        }
    }
}

/// Stage 2 cacheability of normal memory.
#[derive(Clone, Copy, PartialEq, Eq, Structural)]
pub enum Cacheability {
    NotApplicable,
    NonCacheable,
    WriteThroughCacheable,
    WriteBackCacheable,
}

impl Cacheability {
    pub open spec fn spec_bits(self) -> u64 {
        match self {
            Cacheability::NotApplicable => 0,
            Cacheability::NonCacheable => 1,
            Cacheability::WriteThroughCacheable => 2,
            Cacheability::WriteBackCacheable => 3,
        }
    }

    pub open spec fn spec_from_bits(v: u64) -> Self {
        if v == 0 {
            Cacheability::NotApplicable
        } else if v == 1 {
            Cacheability::NonCacheable
        } else if v == 2 {
            Cacheability::WriteThroughCacheable
        } else {
            Cacheability::WriteBackCacheable
        }
    }
}

/// Stage 2 memory attributes MemAttr[3:0].
#[derive(Clone, Copy, PartialEq, Eq, Structural)]
pub enum Stage2MemoryAttr {
    Device(DeviceAttribute),
    Normal { outer: Cacheability, inner: Cacheability },
}

impl Stage2MemoryAttr {
    pub open spec fn spec_to_u64(self) -> u64 {
        match self {
            Stage2MemoryAttr::Device(d) => d.spec_bits(),
            Stage2MemoryAttr::Normal { outer, inner } => (outer.spec_bits() * 4 + inner.spec_bits()) as u64,
        }
    }

    /// The four-bit encoding.
    pub fn to_u64(self) -> (r: u64)
        ensures
            r == self.spec_to_u64(),
            r < 16,
    {
        match self {
            Stage2MemoryAttr::Device(d) => match d {
                DeviceAttribute::NGnRnE => 0,
                DeviceAttribute::NGnRE => 1,
                DeviceAttribute::NGRE => 2,
                DeviceAttribute::Gre => 3,
            },
            Stage2MemoryAttr::Normal { outer, inner } => {
                let o: u64 = match outer {
                    Cacheability::NotApplicable => 0,
                    Cacheability::NonCacheable => 1,
                    Cacheability::WriteThroughCacheable => 2,
                    Cacheability::WriteBackCacheable => 3,
                };
                let i: u64 = match inner {
                    Cacheability::NotApplicable => 0,
                    Cacheability::NonCacheable => 1,
                    Cacheability::WriteThroughCacheable => 2,
                    Cacheability::WriteBackCacheable => 3,
                };
                o * 4 + i
            },
        }
    }

    pub open spec fn spec_try_from_u64(value: u64) -> Result<Self, BitFieldError> {
        if value > 15 {
            Err(BitFieldError::ValueTooLargeForField)
        } else if value / 4 == 0 {
            Ok(Stage2MemoryAttr::Device(DeviceAttribute::spec_from_bits(value % 4)))
        } else {
            Ok(Stage2MemoryAttr::Normal {
                outer: Cacheability::spec_from_bits(value / 4),
                inner: Cacheability::spec_from_bits(value % 4),
            })
        }
    }

    /// Decodes a four-bit encoding; an outer part of zero means device memory.
    pub fn try_from_u64(value: u64) -> (r: Result<Self, BitFieldError>)
        ensures
            r == Self::spec_try_from_u64(value),
    {
        if value > 15 {
            return Err(BitFieldError::ValueTooLargeForField);
        }
        let low = value % 4;
        let high = value / 4;
        let inner = if low == 0 {
            Cacheability::NotApplicable
        } else if low == 1 {
            Cacheability::NonCacheable
        } else if low == 2 {
            Cacheability::WriteThroughCacheable
        } else {
            Cacheability::WriteBackCacheable
        };
        if high == 0 {
            let d = if low == 0 {
                DeviceAttribute::NGnRnE
            } else if low == 1 {
                DeviceAttribute::NGnRE
            } else if low == 2 {
                DeviceAttribute::NGRE
            } else {
                DeviceAttribute::Gre
            };
            Ok(Stage2MemoryAttr::Device(d))
        } else {
            let outer = if high == 1 {
                Cacheability::NonCacheable
            } else if high == 2 {
                Cacheability::WriteThroughCacheable
            } else {
                Cacheability::WriteBackCacheable
            };
            Ok(Stage2MemoryAttr::Normal { outer, inner })
        }
    }
}

/// Decoding an encoded attribute gives it back, unless it is normal memory whose
/// outer cacheability is `NotApplicable`: that encoding reads as device memory.
pub proof fn lemma_stage2_attr_round_trip(attr: Stage2MemoryAttr)
    requires
        !(attr matches Stage2MemoryAttr::Normal { outer: Cacheability::NotApplicable, .. }),
    ensures
        Stage2MemoryAttr::spec_try_from_u64(attr.spec_to_u64()) == Ok::<Stage2MemoryAttr, BitFieldError>(attr),
{
}

/// Position (least significant bit) and width of the next-level table address field.
pub open spec fn table_address_field(mode: AddressingMode) -> (u64, u64) {
    match mode {
        AddressingMode::Gran64KBPAddr48BitVAddr48Bit => (16, 34),
        _ => (12, 38),
    }
}

/// Position and width of a block descriptor's output address field.
pub open spec fn block_address_field(mode: AddressingMode, level: BlockLevel) -> (u64, u64) {
    match (mode, level) {
        (AddressingMode::Gran4KBAddr48bit, BlockLevel::Level1) => (30, 18),
        (AddressingMode::Gran4KBAddr48bit, BlockLevel::Level2) => (21, 27),
        _ => (29, 19),
    }
}

/// Position and width of a page descriptor's output address field.
pub open spec fn page_address_field(mode: AddressingMode) -> (u64, u64) {
    match mode {
        AddressingMode::Gran64KBPAddr48BitVAddr48Bit => (16, 32),
        _ => (12, 36),
    }
}

/// Which block levels a granule supports with 48 bit addresses.
pub open spec fn block_level_supported(mode: AddressingMode, level: BlockLevel) -> bool {
    match (mode, level) {
        (AddressingMode::Gran4KBAddr48bit, BlockLevel::Level1) => true,
        (AddressingMode::Gran4KBAddr48bit, BlockLevel::Level2) => true,
        (AddressingMode::Gran64KBPAddr48BitVAddr48Bit, BlockLevel::Level2) => true,
        _ => false,
    }
}

/// Only the 4KB and 64KB granules with 48 bit addresses are handled.
pub open spec fn mode_supported(mode: AddressingMode) -> bool {
    !(mode is Gran16KBAddr48bit)
}

/// Stores `address` in the field (lsb, width): the address shifted down by lsb,
/// truncated to the field's width.
pub open spec fn with_address(value: u64, field: (u64, u64), address: u64) -> u64 {
    with_field64(value, field.0, field.1, address >> field.0)
}

/// Reads the address stored in field (lsb, width).
pub open spec fn address_of(value: u64, field: (u64, u64)) -> u64 {
    (field64(value, field.0, field.1) << field.0) as u64
}

/// An address stored in a field reads back unchanged when it is aligned to the field's
/// least significant bit and fits below its top bit.
pub proof fn lemma_address_round_trip(value: u64, field: (u64, u64), address: u64)
    requires
        valid_field64(field.0, field.1),
        address & low_mask64(field.0) == 0,
        address >> (field.0 + field.1) == 0,
    ensures
        address_of(with_address(value, field, address), field) == address,
{
    lemma_field64_read_write(value, field.0, field.1, address >> field.0);
    lemma_field64_address_round_trip(address, field.0, field.1);
}

/// A stage 1 table descriptor.
#[derive(Clone, Copy, PartialEq, Eq, Structural)]
pub struct TableDescriptor(pub u64);

impl TableDescriptor {
    /// All bits clear: an invalid descriptor.
    pub fn zero() -> (r: Self)
        ensures
            r.0 == 0,
    {
        TableDescriptor(0)
    }

    /// The descriptor with its format set to `Table` and all other bits clear.
    pub fn new() -> (r: Self)
        ensures
            r.0 == 3,
    {
        TableDescriptor(3)
    }

    pub fn invalid() -> (r: Self)
        ensures
            r.0 == 0,
    {
        Self::zero()
    }

    /// Points the descriptor at the next level table at `next_level_address`.
    pub fn with_next_level_table_at(self, next_level_address: u64, mode: AddressingMode) -> (r: Self)
        requires
            mode_supported(mode),
        ensures
            r.0 == with_address(self.0, table_address_field(mode), next_level_address),
    {
        match mode {
            AddressingMode::Gran64KBPAddr48BitVAddr48Bit => {
                TableDescriptor(set_field64(self.0, 16, 34, next_level_address >> 16))
            },
            _ => TableDescriptor(set_field64(self.0, 12, 38, next_level_address >> 12)),
        }
    }

    /// The address of the next level table.
    pub fn next_level_table_address(self, mode: AddressingMode) -> (r: u64)
        requires
            mode_supported(mode),
        ensures
            r == address_of(self.0, table_address_field(mode)),
    {
        match mode {
            AddressingMode::Gran64KBPAddr48BitVAddr48Bit => get_field64(self.0, 16, 34) << 16,
            _ => get_field64(self.0, 12, 38) << 12,
        }
    }
}

/// A stage 1 block descriptor.
#[derive(Clone, Copy, PartialEq, Eq, Structural)]
pub struct BlockDescriptor(pub u64);

impl BlockDescriptor {
    pub fn zero() -> (r: Self)
        ensures
            r.0 == 0,
    {
        BlockDescriptor(0)
    }

    /// The descriptor with its format set to `Block` and all other bits clear.
    pub fn new() -> (r: Self)
        ensures
            r.0 == 1,
    {
        BlockDescriptor(1)
    }

    pub fn invalid() -> (r: Self)
        ensures
            r.0 == 0,
    {
        Self::zero()
    }

    /// Sets the output address of a block at `level`.
    pub fn with_output_address(self, output_address: u64, mode: AddressingMode, level: BlockLevel) -> (r: Self)
        requires
            block_level_supported(mode, level),
        ensures
            r.0 == with_address(self.0, block_address_field(mode, level), output_address),
    {
        match (mode, level) {
            (AddressingMode::Gran4KBAddr48bit, BlockLevel::Level1) => {
                BlockDescriptor(set_field64(self.0, 30, 18, output_address >> 30))
            },
            (AddressingMode::Gran4KBAddr48bit, BlockLevel::Level2) => {
                BlockDescriptor(set_field64(self.0, 21, 27, output_address >> 21))
            },
            _ => BlockDescriptor(set_field64(self.0, 29, 19, output_address >> 29)),
        }
    }

    /// The output address of a block at `level`.
    pub fn output_address(self, mode: AddressingMode, level: BlockLevel) -> (r: u64)
        requires
            block_level_supported(mode, level),
        ensures
            r == address_of(self.0, block_address_field(mode, level)),
    {
        match (mode, level) {
            (AddressingMode::Gran4KBAddr48bit, BlockLevel::Level1) => get_field64(self.0, 30, 18) << 30,
            (AddressingMode::Gran4KBAddr48bit, BlockLevel::Level2) => get_field64(self.0, 21, 27) << 21,
            _ => get_field64(self.0, 29, 19) << 29,
        }
    }

    /// Sets the access flag AF, bit 10.
    pub fn with_af_set(self) -> (r: Self)
        ensures
            r.0 == with_field64(self.0, 10, 1, 1),
    {
        BlockDescriptor(set_field64(self.0, 10, 1, 1))
    }

    /// Sets the contiguous hint, bit 52.
    pub fn with_contiguous_set(self) -> (r: Self)
        ensures
            r.0 == with_field64(self.0, 52, 1, 1),
    {
        BlockDescriptor(set_field64(self.0, 52, 1, 1))
    }

    /// Sets the shareability field SH, bits [9:8].
    pub fn with_sh(self, sh: Shareability) -> (r: Self)
        ensures
            r.0 == with_field64(self.0, 8, 2, sh.spec_bits()),
    {
        BlockDescriptor(set_field64(self.0, 8, 2, sh.bits()))
    }

    /// Sets the stage 1 memory attribute index AttrIndx, bits [4:2].
    pub fn with_stage_1_mem_attr_indx(self, index: u64) -> (r: Self)
        ensures
            r.0 == with_field64(self.0, 2, 3, index),
    {
        BlockDescriptor(set_field64(self.0, 2, 3, index))
    }
}

/// A stage 1 page descriptor (level 3).
#[derive(Clone, Copy, PartialEq, Eq, Structural)]
pub struct PageDescriptor(pub u64);

impl PageDescriptor {
    pub fn zero() -> (r: Self)
        ensures
            r.0 == 0,
    {
        PageDescriptor(0)
    }

    /// The descriptor with its format set to `Page` and all other bits clear.
    pub fn new() -> (r: Self)
        ensures
            r.0 == 3,
    {
        PageDescriptor(3)
    }

    pub fn invalid() -> (r: Self)
        ensures
            r.0 == 0,
    {
        Self::zero()
    }

    pub fn with_output_address(self, output_address: u64, mode: AddressingMode) -> (r: Self)
        requires
            mode_supported(mode),
        ensures
            r.0 == with_address(self.0, page_address_field(mode), output_address),
    {
        match mode {
            AddressingMode::Gran64KBPAddr48BitVAddr48Bit => {
                PageDescriptor(set_field64(self.0, 16, 32, output_address >> 16))
            },
            _ => PageDescriptor(set_field64(self.0, 12, 36, output_address >> 12)),
        }
    }

    pub fn output_address(self, mode: AddressingMode) -> (r: u64)
        requires
            mode_supported(mode),
        ensures
            r == address_of(self.0, page_address_field(mode)),
    {
        match mode {
            AddressingMode::Gran64KBPAddr48BitVAddr48Bit => get_field64(self.0, 16, 32) << 16,
            _ => get_field64(self.0, 12, 36) << 12,
        }
    }

    pub fn with_af_set(self) -> (r: Self)
        ensures
            r.0 == with_field64(self.0, 10, 1, 1),
    {
        PageDescriptor(set_field64(self.0, 10, 1, 1))
    }

    pub fn with_contiguous_set(self) -> (r: Self)
        ensures
            r.0 == with_field64(self.0, 52, 1, 1),
    {
        PageDescriptor(set_field64(self.0, 52, 1, 1))
    }

    pub fn with_sh(self, sh: Shareability) -> (r: Self)
        ensures
            r.0 == with_field64(self.0, 8, 2, sh.spec_bits()),
    {
        PageDescriptor(set_field64(self.0, 8, 2, sh.bits()))
    }

    /// Sets the execute-never bits XN/UXN/PXN, bits [54:53].
    pub fn with_xn_uxn_pxn(self, value: u64) -> (r: Self)
        ensures
            r.0 == with_field64(self.0, 53, 2, value),
    {
        PageDescriptor(set_field64(self.0, 53, 2, value))
    }
}

/// Pointing a table descriptor at an aligned 48 bit address and reading it back gives
/// the address.
pub proof fn lemma_table_address_round_trip(d: TableDescriptor, address: u64, mode: AddressingMode)
    requires
        mode_supported(mode),
        address & low_mask64(table_address_field(mode).0) == 0,
        address >> 50 == 0,
        mode is Gran64KBPAddr48BitVAddr48Bit ==> address >> 50 == 0,
    ensures
        address_of(with_address(d.0, table_address_field(mode), address), table_address_field(mode)) == address,
{
    lemma_address_round_trip(d.0, table_address_field(mode), address);
}

/// The block output address round trip, for levels the granule supports.
pub proof fn lemma_block_address_round_trip(d: BlockDescriptor, address: u64, mode: AddressingMode, level: BlockLevel)
    requires
        block_level_supported(mode, level),
        address & low_mask64(block_address_field(mode, level).0) == 0,
        address >> 48 == 0,
    ensures
        address_of(with_address(d.0, block_address_field(mode, level), address), block_address_field(mode, level)) == address,
{
    lemma_address_round_trip(d.0, block_address_field(mode, level), address);
}

/// The page output address round trip.
pub proof fn lemma_page_address_round_trip(d: PageDescriptor, address: u64, mode: AddressingMode)
    requires
        mode_supported(mode),
        address & low_mask64(page_address_field(mode).0) == 0,
        address >> 48 == 0,
    ensures
        address_of(with_address(d.0, page_address_field(mode), address), page_address_field(mode)) == address,
{
    lemma_address_round_trip(d.0, page_address_field(mode), address);
}

} // verus!
