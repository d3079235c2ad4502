use vstd::prelude::*;
use vstd::utf8::encode_utf8;
use crate::hal::clocks::PropertyRequest;
use crate::peripherals::mailbox::{word_aligned, 
    Mailbox, MailboxError, RequestResponseStatus, ResponseIterator, chain_readable, message_has,
    message_words, response_readable,
};

verus! {

/// Board models, numbered as in the revision code.
#[derive(Clone, Copy, PartialEq, Eq, Structural)]
pub enum Type {
    Pi1A,
    Pi1B,
    Pi1APlus,
    Pi1BPlus,
    Pi2B,
    Alpha,
    CM1,
    Unused7,
    Pi3B,
    Zero,
    CM3,
    UnusedB,
    ZeroW,
    Pi3BPlus,
    Pi3APlus,
    InternalF,
    CM3Plus,
    Pi4B,
    Zero2W,
    Pi400,
    CM4,
    CM4S,
    Internal16,
    Pi5,
}

/// Board manufacturers, numbered as in the revision code.
#[derive(Clone, Copy, PartialEq, Eq, Structural)]
pub enum Manufacturer {
    SonyUK,
    Egoman,
    Embest,
    SonyJapan,
    Embest2,
    Stadium,
    Qisda,
}

/// Memory sizes, numbered as in the revision code.
#[derive(Clone, Copy, PartialEq, Eq, Structural)]
pub enum RamSize {
    Mb256,
    Mb512,
    Gb1,
    Gb2,
    Gb4,
    Gb8,
}

/// SoCs, numbered as in the revision code.
#[derive(Clone, Copy, PartialEq, Eq, Structural)]
pub enum Processor {
    BCM2835,
    BCM2836,
    BCM2837,
    BCM2711,
    BCM2712,
}

impl Type {
    pub open spec fn spec_from_index(i: u32) -> Type {
        if i == 0 { Type::Pi1A }
        else if i == 1 { Type::Pi1B }
        else if i == 2 { Type::Pi1APlus }
        else if i == 3 { Type::Pi1BPlus }
        else if i == 4 { Type::Pi2B }
        else if i == 5 { Type::Alpha }
        else if i == 6 { Type::CM1 }
        else if i == 7 { Type::Unused7 }
        else if i == 8 { Type::Pi3B }
        else if i == 9 { Type::Zero }
        else if i == 10 { Type::CM3 }
        else if i == 11 { Type::UnusedB }
        else if i == 12 { Type::ZeroW }
        else if i == 13 { Type::Pi3BPlus }
        else if i == 14 { Type::Pi3APlus }
        else if i == 15 { Type::InternalF }
        else if i == 16 { Type::CM3Plus }
        else if i == 17 { Type::Pi4B }
        else if i == 18 { Type::Zero2W }
        else if i == 19 { Type::Pi400 }
        else if i == 20 { Type::CM4 }
        else if i == 21 { Type::CM4S }
        else if i == 22 { Type::Internal16 }
        else { Type::Pi5 }
    }

    /// The model with number `i` in the revision code's type field.
    pub fn from_index(i: u32) -> (r: Type)
        requires
            i < 24,
        ensures
            r == Type::spec_from_index(i),
    {
        if i == 0 { Type::Pi1A }
        else if i == 1 { Type::Pi1B }
        else if i == 2 { Type::Pi1APlus }
        else if i == 3 { Type::Pi1BPlus }
        else if i == 4 { Type::Pi2B }
        else if i == 5 { Type::Alpha }
        else if i == 6 { Type::CM1 }
        else if i == 7 { Type::Unused7 }
        else if i == 8 { Type::Pi3B }
        else if i == 9 { Type::Zero }
        else if i == 10 { Type::CM3 }
        else if i == 11 { Type::UnusedB }
        else if i == 12 { Type::ZeroW }
        else if i == 13 { Type::Pi3BPlus }
        else if i == 14 { Type::Pi3APlus }
        else if i == 15 { Type::InternalF }
        else if i == 16 { Type::CM3Plus }
        else if i == 17 { Type::Pi4B }
        else if i == 18 { Type::Zero2W }
        else if i == 19 { Type::Pi400 }
        else if i == 20 { Type::CM4 }
        else if i == 21 { Type::CM4S }
        else if i == 22 { Type::Internal16 }
        else { Type::Pi5 }
    }

    pub open spec fn spec_name(self) -> Seq<char> {
        match self {
            Type::Pi1A => "A"@,
            Type::Pi1B => "B"@,
            Type::Pi1APlus => "A+"@,
            Type::Pi1BPlus => "B+"@,
            Type::Pi2B => "2B"@,
            Type::Alpha => "Alpha"@,
            Type::CM1 => "CM1"@,
            Type::Pi3B => "3B"@,
            Type::Zero => "Zero"@,
            Type::CM3 => "CM3"@,
            Type::ZeroW => "Zero W"@,
            Type::Pi3BPlus => "3B+"@,
            Type::Pi3APlus => "3A+"@,
            Type::CM3Plus => "CM3+"@,
            Type::Pi4B => "4B"@,
            Type::Zero2W => "Zero 2 W"@,
            Type::Pi400 => "400"@,
            Type::CM4 => "CM4"@,
            Type::CM4S => "CM4S"@,
            Type::Pi5 => "5"@,
            _ => "Unknown Model"@,
        }
    }

    /// The model's display name.
    pub fn name(&self) -> (r: &'static str)
        ensures
            r@ == self.spec_name(),
    {
        match self {
            Type::Pi1A => "A",
            Type::Pi1B => "B",
            Type::Pi1APlus => "A+",
            Type::Pi1BPlus => "B+",
            Type::Pi2B => "2B",
            Type::Alpha => "Alpha",
            Type::CM1 => "CM1",
            Type::Pi3B => "3B",
            Type::Zero => "Zero",
            Type::CM3 => "CM3",
            Type::ZeroW => "Zero W",
            Type::Pi3BPlus => "3B+",
            Type::Pi3APlus => "3A+",
            Type::CM3Plus => "CM3+",
            Type::Pi4B => "4B",
            Type::Zero2W => "Zero 2 W",
            Type::Pi400 => "400",
            Type::CM4 => "CM4",
            Type::CM4S => "CM4S",
            Type::Pi5 => "5",
            _ => "Unknown Model",
        }
    }
}

impl Manufacturer {
    pub open spec fn spec_from_index(i: u32) -> Manufacturer {
        if i == 0 { Manufacturer::SonyUK }
        else if i == 1 { Manufacturer::Egoman }
        else if i == 2 { Manufacturer::Embest }
        else if i == 3 { Manufacturer::SonyJapan }
        else if i == 4 { Manufacturer::Embest2 }
        else if i == 5 { Manufacturer::Stadium }
        else { Manufacturer::Qisda }
    }

    /// The manufacturer with number `i` in the revision code.
    pub fn from_index(i: u32) -> (r: Manufacturer)
        requires
            i < 7,
        ensures
            r == Manufacturer::spec_from_index(i),
    {
        if i == 0 { Manufacturer::SonyUK }
        else if i == 1 { Manufacturer::Egoman }
        else if i == 2 { Manufacturer::Embest }
        else if i == 3 { Manufacturer::SonyJapan }
        else if i == 4 { Manufacturer::Embest2 }
        else if i == 5 { Manufacturer::Stadium }
        else { Manufacturer::Qisda }
    }
}

impl RamSize {
    /// The size in megabytes.
    pub open spec fn megabytes(self) -> nat {
        match self {
            RamSize::Mb256 => 256,
            RamSize::Mb512 => 512,
            RamSize::Gb1 => 1024,
            RamSize::Gb2 => 2048,
            RamSize::Gb4 => 4096,
            RamSize::Gb8 => 8192,
        }
    }

    pub open spec fn spec_from_index(i: u32) -> RamSize {
        if i == 0 { RamSize::Mb256 }
        else if i == 1 { RamSize::Mb512 }
        else if i == 2 { RamSize::Gb1 }
        else if i == 3 { RamSize::Gb2 }
        else if i == 4 { RamSize::Gb4 }
        else { RamSize::Gb8 }
    }

    /// The memory size with number `i` in the revision code.
    pub fn from_index(i: u32) -> (r: RamSize)
        requires
            i < 6,
        ensures
            r == RamSize::spec_from_index(i),
    {
        if i == 0 { RamSize::Mb256 }
        else if i == 1 { RamSize::Mb512 }
        else if i == 2 { RamSize::Gb1 }
        else if i == 3 { RamSize::Gb2 }
        else if i == 4 { RamSize::Gb4 }
        else { RamSize::Gb8 }
    }

    pub open spec fn spec_name(self) -> Seq<char> {
        match self {
            RamSize::Mb256 => "256MB"@,
            RamSize::Mb512 => "512MB"@,
            RamSize::Gb1 => "1GB"@,
            RamSize::Gb2 => "2GB"@,
            RamSize::Gb4 => "4GB"@,
            RamSize::Gb8 => "8GB"@,
        }
    }

    /// The size's display name.
    pub fn name(&self) -> (r: &'static str)
        ensures
            r@ == self.spec_name(),
    {
        match self {
            RamSize::Mb256 => "256MB",
            RamSize::Mb512 => "512MB",
            RamSize::Gb1 => "1GB",
            RamSize::Gb2 => "2GB",
            RamSize::Gb4 => "4GB",
            RamSize::Gb8 => "8GB",
        }
    }
}

impl Processor {
    pub open spec fn spec_from_index(i: u32) -> Processor {
        if i == 0 { Processor::BCM2835 }
        else if i == 1 { Processor::BCM2836 }
        else if i == 2 { Processor::BCM2837 }
        else if i == 3 { Processor::BCM2711 }
        else { Processor::BCM2712 }
    }

    /// The SoC with number `i` in the revision code.
    pub fn from_index(i: u32) -> (r: Processor)
        requires
            i < 5,
        ensures
            r == Processor::spec_from_index(i),
    {
        if i == 0 { Processor::BCM2835 }
        else if i == 1 { Processor::BCM2836 }
        else if i == 2 { Processor::BCM2837 }
        else if i == 3 { Processor::BCM2711 }
        else { Processor::BCM2712 }
    }
}


/// A board revision code, decoded.
#[derive(Clone, Copy, PartialEq, Eq, Structural)]
pub enum Revision {
    Unknown(u32),
    OldStyle {
        code: u32,
        model: Type,
        revision_bcd: u8,
        memory_size: RamSize,
        manufacturer: Manufacturer,
    },
    NewStyle {
        code: u32,
        overvoltage_prohibited: bool,
        otp_program_prohibited: bool,
        otp_reading_prohibited: bool,
        warranty_voided: bool,
        memory_size: RamSize,
        manufacturer: Manufacturer,
        processor: Processor,
        model: Type,
        revision: u8,
    },
}

/// The board of an old-style revision code: model, revision (BCD), memory, maker.
pub open spec fn old_style_board(code: u32) -> Option<(Type, u8, RamSize, Manufacturer)> {
    match code {
        0x0002 => Some((Type::Pi1B, 0x10u8, RamSize::Mb256, Manufacturer::Egoman)),
        0x0003 => Some((Type::Pi1B, 0x10u8, RamSize::Mb256, Manufacturer::Egoman)),
        0x0004 => Some((Type::Pi1B, 0x20u8, RamSize::Mb256, Manufacturer::SonyUK)),
        0x0005 => Some((Type::Pi1B, 0x20u8, RamSize::Mb256, Manufacturer::Qisda)),
        0x0006 => Some((Type::Pi1B, 0x20u8, RamSize::Mb256, Manufacturer::Egoman)),
        0x0007 => Some((Type::Pi1A, 0x20u8, RamSize::Mb256, Manufacturer::Egoman)),
        0x0008 => Some((Type::Pi1A, 0x20u8, RamSize::Mb256, Manufacturer::SonyUK)),
        0x0009 => Some((Type::Pi1A, 0x20u8, RamSize::Mb256, Manufacturer::Qisda)),
        0x000d => Some((Type::Pi1B, 0x20u8, RamSize::Mb512, Manufacturer::Egoman)),
        0x000e => Some((Type::Pi1B, 0x20u8, RamSize::Mb512, Manufacturer::SonyUK)),
        0x000f => Some((Type::Pi1B, 0x20u8, RamSize::Mb512, Manufacturer::Egoman)),
        0x0010 => Some((Type::Pi1BPlus, 0x12u8, RamSize::Mb512, Manufacturer::SonyUK)),
        0x0011 => Some((Type::CM1, 0x10u8, RamSize::Mb512, Manufacturer::SonyUK)),
        0x0012 => Some((Type::Pi1APlus, 0x11u8, RamSize::Mb256, Manufacturer::SonyUK)),
        0x0013 => Some((Type::Pi1BPlus, 0x12u8, RamSize::Mb512, Manufacturer::Embest)),
        0x0014 => Some((Type::CM1, 0x10u8, RamSize::Mb512, Manufacturer::Embest)),
        0x0015 => Some((Type::Pi1APlus, 0x11u8, RamSize::Mb256, Manufacturer::Embest)),
        _ => None,
    }
}

fn old_style_lookup(code: u32) -> (r: Option<(Type, u8, RamSize, Manufacturer)>)
    ensures
        r == old_style_board(code),
{
    match code {
        0x0002 => Some((Type::Pi1B, 0x10u8, RamSize::Mb256, Manufacturer::Egoman)),
        0x0003 => Some((Type::Pi1B, 0x10u8, RamSize::Mb256, Manufacturer::Egoman)),
        0x0004 => Some((Type::Pi1B, 0x20u8, RamSize::Mb256, Manufacturer::SonyUK)),
        0x0005 => Some((Type::Pi1B, 0x20u8, RamSize::Mb256, Manufacturer::Qisda)),
        0x0006 => Some((Type::Pi1B, 0x20u8, RamSize::Mb256, Manufacturer::Egoman)),
        0x0007 => Some((Type::Pi1A, 0x20u8, RamSize::Mb256, Manufacturer::Egoman)),
        0x0008 => Some((Type::Pi1A, 0x20u8, RamSize::Mb256, Manufacturer::SonyUK)),
        0x0009 => Some((Type::Pi1A, 0x20u8, RamSize::Mb256, Manufacturer::Qisda)),
        0x000d => Some((Type::Pi1B, 0x20u8, RamSize::Mb512, Manufacturer::Egoman)),
        0x000e => Some((Type::Pi1B, 0x20u8, RamSize::Mb512, Manufacturer::SonyUK)),
        0x000f => Some((Type::Pi1B, 0x20u8, RamSize::Mb512, Manufacturer::Egoman)),
        0x0010 => Some((Type::Pi1BPlus, 0x12u8, RamSize::Mb512, Manufacturer::SonyUK)),
        0x0011 => Some((Type::CM1, 0x10u8, RamSize::Mb512, Manufacturer::SonyUK)),
        0x0012 => Some((Type::Pi1APlus, 0x11u8, RamSize::Mb256, Manufacturer::SonyUK)),
        0x0013 => Some((Type::Pi1BPlus, 0x12u8, RamSize::Mb512, Manufacturer::Embest)),
        0x0014 => Some((Type::CM1, 0x10u8, RamSize::Mb512, Manufacturer::Embest)),
        0x0015 => Some((Type::Pi1APlus, 0x11u8, RamSize::Mb256, Manufacturer::Embest)),
        _ => None,
    }
}

/// The field of `code` that starts at bit `k` (`unit` is 2 to the `k`) and spans
/// `modulus` values.
pub open spec fn code_field(code: u32, unit: int, modulus: int) -> u32 {
    ((code as int / unit) % modulus) as u32
}

/// Whether `code` uses the new-style layout (bit 23 set).
pub open spec fn is_new_style(code: u32) -> bool {
    code_field(code, 0x80_0000, 2) == 1
}

/// Whether the fields of a new-style code all name a known entry.
pub open spec fn new_style_fields_known(code: u32) -> bool {
    &&& code_field(code, 0x10_0000, 8) < 6
    &&& code_field(code, 0x1_0000, 16) < 7
    &&& code_field(code, 0x1000, 16) < 5
    &&& code_field(code, 0x10, 256) < 24
}

impl Revision {
    /// Whether `code` can be decoded: an old-style code, a code with bit 23 clear,
    /// or a new-style code whose fields all name known entries.
    pub open spec fn decodable(code: u32) -> bool {
        old_style_board(code) is Some || !is_new_style(code) || new_style_fields_known(code)
    }

    pub open spec fn spec_from_code(code: u32) -> Revision {
        match old_style_board(code) {
            Some((model, revision_bcd, memory_size, manufacturer)) => Revision::OldStyle {
                code,
                model,
                revision_bcd,
                memory_size,
                manufacturer,
            },
            None => if is_new_style(code) {
                Revision::NewStyle {
                    code,
                    overvoltage_prohibited: code_field(code, 0x8000_0000, 2) == 1,
                    otp_program_prohibited: code_field(code, 0x4000_0000, 2) == 1,
                    otp_reading_prohibited: code_field(code, 0x2000_0000, 2) == 1,
                    warranty_voided: code_field(code, 0x200_0000, 2) == 1,
                    memory_size: RamSize::spec_from_index(code_field(code, 0x10_0000, 8)),
                    manufacturer: Manufacturer::spec_from_index(code_field(code, 0x1_0000, 16)),
                    processor: Processor::spec_from_index(code_field(code, 0x1000, 16)),
                    model: Type::spec_from_index(code_field(code, 0x10, 256)),
                    revision: code_field(code, 1, 16) as u8,
                }
            } else {
                Revision::Unknown(code)
            },
        }
    }

    /// Decodes a board revision code: the table of old-style codes first, then the
    /// new-style bit fields (bit 23 set), else `Unknown`.
    pub fn from_code(code: u32) -> (r: Revision)
        requires
            Revision::decodable(code),
        ensures
            r == Revision::spec_from_code(code),
    {
        match old_style_lookup(code) {
            Some((model, revision_bcd, memory_size, manufacturer)) => Revision::OldStyle {
                code,
                model,
                revision_bcd,
                memory_size,
                manufacturer,
            },
            None => if (code / 0x80_0000) % 2 == 1 {
                Revision::NewStyle {
                    code,
                    overvoltage_prohibited: (code / 0x8000_0000) % 2 == 1,
                    otp_program_prohibited: (code / 0x4000_0000) % 2 == 1,
                    otp_reading_prohibited: (code / 0x2000_0000) % 2 == 1,
                    warranty_voided: (code / 0x200_0000) % 2 == 1,
                    memory_size: RamSize::from_index((code / 0x10_0000) % 8),
                    manufacturer: Manufacturer::from_index((code / 0x1_0000) % 16),
                    processor: Processor::from_index((code / 0x1000) % 16),
                    model: Type::from_index((code / 0x10) % 256),
                    revision: (code % 16) as u8,
                }
            } else {
                Revision::Unknown(code)
            },
        }
    }
}

/// Memory size number `i` of a revision code names 256 MB times 2 to the `i`: number 0
/// is 256 MB and each next number doubles the size, so no two numbers name the same
/// size.
pub proof fn lemma_ram_size_index_doubles()
    ensures
        RamSize::spec_from_index(0).megabytes() == 256,
        forall|i: u32| i < 5 ==>
            #[trigger] RamSize::spec_from_index((i + 1) as u32).megabytes() == 2 * RamSize::spec_from_index(i).megabytes(),
        forall|i: u32, j: u32| i < 6 && j < 6 && i != j ==>
            #[trigger] RamSize::spec_from_index(i) != #[trigger] RamSize::spec_from_index(j),
{
}

/// The fields of a new-style revision code (bit 23 set) sit in its bits: revision in
/// bits 0-3, model in bits 4-11, processor in 12-15, manufacturer in 16-19, memory size
/// in 20-22, and the warranty, OTP read, OTP program and overvoltage flags in bits 25,
/// 29, 30 and 31.
pub proof fn lemma_revision_new_style_bits(code: u32)
    requires
        Revision::decodable(code),
        old_style_board(code) is None,
        (code >> 23u32) & 1 == 1,
    ensures
        Revision::spec_from_code(code) matches Revision::NewStyle {
            memory_size, model, processor, manufacturer, revision, warranty_voided, otp_reading_prohibited,
            otp_program_prohibited, overvoltage_prohibited, .. }
            && memory_size == RamSize::spec_from_index((code >> 20u32) & 7)
            && model == Type::spec_from_index((code >> 4u32) & 0xFF)
            && processor == Processor::spec_from_index((code >> 12u32) & 0xF)
            && manufacturer == Manufacturer::spec_from_index((code >> 16u32) & 0xF)
            && revision == (code & 0xF) as u8
            && warranty_voided == ((code >> 25u32) & 1 == 1)
            && otp_reading_prohibited == ((code >> 29u32) & 1 == 1)
            && otp_program_prohibited == ((code >> 30u32) & 1 == 1)
            && overvoltage_prohibited == ((code >> 31u32) & 1 == 1),
        (code >> 20u32) & 7 < 6,
{
    assert({
        &&& (code >> 23u32) & 1 == (code / 0x80_0000) % 2
        &&& (code >> 20u32) & 7 == (code / 0x10_0000) % 8
        &&& (code >> 4u32) & 0xFF == (code / 0x10) % 256
        &&& (code >> 12u32) & 0xF == (code / 0x1000) % 16
        &&& (code >> 16u32) & 0xF == (code / 0x1_0000) % 16
        &&& code & 0xF == code % 16
        &&& (code >> 25u32) & 1 == (code / 0x200_0000) % 2
        &&& (code >> 29u32) & 1 == (code / 0x2000_0000) % 2
        &&& (code >> 30u32) & 1 == (code / 0x4000_0000) % 2
        &&& (code >> 31u32) & 1 == (code / 0x8000_0000) % 2
    }) by (bit_vector);
}

/// What the firmware reports about the board.
#[derive(Clone, Copy, PartialEq, Eq, Structural)]
pub struct BoardInfo {
    pub model: u32,
    pub revision: Revision,
    pub serial: u64,
}


/// A memory range `[bottom, top)` given by two addresses.
#[derive(Clone, Copy, PartialEq, Eq, Structural)]
pub struct MemoryBlock(pub usize, pub usize);

impl MemoryBlock {
    pub fn bottom(self) -> (r: usize)
        ensures
            r == self.0,
    {
        self.0
    }

    pub fn top(self) -> (r: usize)
        ensures
            r == self.1,
    {
        self.1
    }

    /// The block between two symbols' addresses, whichever comes first.
    pub fn from_symbols(start: usize, end: usize) -> (r: MemoryBlock)
        ensures
            r.0 == if start <= end { start } else { end },
            r.1 == if start <= end { end } else { start },
    {
        if start <= end {
            MemoryBlock(start, end)
        } else {
            MemoryBlock(end, start)
        }
    }

    /// The block from address zero up to a symbol.
    pub fn from_zero_to_symbol(end: usize) -> (r: MemoryBlock)
        ensures
            r.0 == 0,
            r.1 == end,
    {
        MemoryBlock(0, end)
    }

    /// The block taken by one value of `element_size` bytes at `address`.
    pub fn from(address: usize, element_size: usize) -> (r: MemoryBlock)
        ensures
            r.0 == address,
            r.1 == address.wrapping_add(element_size),
    {
        MemoryBlock(address, address.wrapping_add(element_size))
    }

    /// The block of `size` bytes from `address`.
    pub fn from_address_and_size(address: usize, size: usize) -> (r: MemoryBlock)
        requires
            address + size <= usize::MAX,
        ensures
            r.0 == address,
            r.1 == address + size,
    {
        MemoryBlock(address, address + size)
    }

    /// The block of `count` values of `element_size` bytes from `address`; the end
    /// wraps around the address space as pointer arithmetic does.
    pub fn from_start_and_count(address: usize, element_size: usize, count: usize) -> (r: MemoryBlock)
        ensures
            r.0 == address,
            r.1 == address.wrapping_add(count.wrapping_mul(element_size)),
    {
        MemoryBlock(address, address.wrapping_add(count.wrapping_mul(element_size)))
    }

    /// The number of bytes between the two ends.
    pub fn byte_size(&self) -> (r: usize)
        ensures
            r == if self.0 <= self.1 { self.1 - self.0 } else { self.0 - self.1 },
    {
        if self.0 <= self.1 {
            self.1 - self.0
        } else {
            self.0 - self.1
        }
    }
}


/// The tags of the firmware calls that describe the board and its memory.
pub const TAG_BOARD_MODEL: u32 = 0x0001_0001;
pub const TAG_BOARD_REVISION: u32 = 0x0001_0002;
pub const TAG_BOARD_SERIAL: u32 = 0x0001_0004;
pub const TAG_ARM_MEMORY: u32 = 0x0001_0005;
pub const TAG_VC_MEMORY: u32 = 0x0001_0006;

/// The request for the base address and size of the ARM's memory.
pub fn arm_memory_request() -> (r: PropertyRequest)
    ensures
        r.tag == TAG_ARM_MEMORY,
        r.words@ == seq![8u32],
        r.value_words == 2,
{
    let mut words: Vec<u32> = Vec::new();
    words.push(8);
    PropertyRequest { tag: TAG_ARM_MEMORY, words, value_words: 2 }
}

/// The request for the base address and size of the VideoCore's memory.
pub fn vc_memory_request() -> (r: PropertyRequest)
    ensures
        r.tag == TAG_VC_MEMORY,
        r.words@ == Seq::<u32>::empty(),
        r.value_words == 2,
{
    PropertyRequest { tag: TAG_VC_MEMORY, words: Vec::new(), value_words: 2 }
}

/// The block that a memory reply (base address, size) describes, if the reply holds
/// both words and the block fits in the address space.
pub open spec fn memory_block_of_reply(reply: Result<Vec<u32>, MailboxError>) -> Option<MemoryBlock> {
    match reply {
        Ok(v) => if v@.len() >= 2 && v@[0] + v@[1] <= usize::MAX {
            Some(MemoryBlock(v@[0] as usize, (v@[0] + v@[1]) as usize))
        } else {
            None
        },
        Err(_) => None,
    }
}

fn memory_block_from_reply(reply: &Result<Vec<u32>, MailboxError>) -> (r: Option<MemoryBlock>)
    ensures
        r == memory_block_of_reply(*reply),
{
    match reply {
        Ok(v) => {
            if v.len() >= 2 {
                let base = v[0] as usize;
                let size = v[1] as usize;
                if size <= usize::MAX - base {
                    Some(MemoryBlock::from_address_and_size(base, size))
                } else {
                    None
                }
            } else {
                None
            }
        },
        Err(_) => None,
    }
}

/// The ARM's memory, from the reply to `arm_memory_request`.
pub fn get_arm_memory(reply: &Result<Vec<u32>, MailboxError>) -> (r: Option<MemoryBlock>)
    ensures
        r == memory_block_of_reply(*reply),
{
    memory_block_from_reply(reply)
}

/// The VideoCore's memory, from the reply to `vc_memory_request`.
pub fn get_vc_memory(reply: &Result<Vec<u32>, MailboxError>) -> (r: Option<MemoryBlock>)
    ensures
        r == memory_block_of_reply(*reply),
{
    memory_block_from_reply(reply)
}

/// The buffer that asks for the board model, revision and serial number.
pub open spec fn board_info_buffer() -> Seq<u32> {
    Seq::new(256, |i: int|
        if i == 0 { TAG_BOARD_MODEL }
        else if i == 1 { 4u32 }
        else if i == 4 { TAG_BOARD_REVISION }
        else if i == 5 { 4u32 }
        else if i == 8 { TAG_BOARD_SERIAL }
        else if i == 9 { 8u32 }
        else { 0u32 })
}

/// The buffer of three requests: board model (4 bytes), revision (4 bytes) and serial
/// number (8 bytes).
pub fn board_info_request() -> (r: Mailbox)
    ensures
        r.wf(),
        r.size == 64,
        r.req_res_code.0 == RequestResponseStatus::Pending,
        r.buffer@ == board_info_buffer(),
{
    let mut mailbox = Mailbox::new(256);
    let _ = mailbox.push_request_raw(TAG_BOARD_MODEL, 4);
    let _ = mailbox.push_request_raw(TAG_BOARD_REVISION, 4);
    let _ = mailbox.push_request_raw(TAG_BOARD_SERIAL, 8);
    assert(mailbox.buffer@ =~= board_info_buffer());
    mailbox
}

/// The board described by the answer to `board_info_request`, if all three responses
/// are there, the serial number's value starts on an 8-byte boundary (it is read as a
/// 64-bit value) and the revision code can be decoded.
pub open spec fn board_info_of(s: Seq<u32>) -> Option<BoardInfo> {
    let p1 = message_words(s[1]);
    let p2 = p1 + message_words(s[p1 + 1]);
    if message_has(s, 0, 1) && message_has(s, p1, 1) && message_has(s, p2, 2) && word_aligned(p2 + 3, 8)
        && Revision::decodable(s[p1 + 3]) {
        Some(BoardInfo {
            model: s[3],
            revision: Revision::spec_from_code(s[p1 + 3]),
            serial: (s[p2 + 3] + s[p2 + 4] * 0x1_0000_0000int) as u64,
        })
    } else {
        None
    }
}

/// The first `k` value words of the next response, read as a value aligned to `align`
/// bytes.
fn next_value_words(responses: &mut ResponseIterator, k: usize, align: usize, Ghost(n): Ghost<nat>) -> (r: Option<Vec<u32>>)
    requires
        old(responses).position <= old(responses).buffer@.len(),
        align == 4 || align == 8,
        n > 0,
        chain_readable(old(responses).buffer@, old(responses).position as int, n),
    ensures
        final(responses).buffer@ == old(responses).buffer@,
        final(responses).position <= final(responses).buffer@.len(),
        ({
            let s = old(responses).buffer@;
            let p = old(responses).position as int;
            if message_has(s, p, k as int) && word_aligned(p + 3, align as int) {
                &&& r matches Some(v) && v@ == s.subrange(p + 3, p + 3 + k)
                &&& final(responses).position == p + message_words(s[p + 1])
                &&& chain_readable(s, final(responses).position as int, (n - 1) as nat)
            } else {
                r is None
            }
        }),
{
    match responses.next() {
        None => None,
        Some(Err(_)) => None,
        Some(Ok(response)) => response.try_value_as(k, align),
    }
}

impl Revision {
    /// Whether `code` can be decoded by `from_code`.
    pub fn is_decodable(code: u32) -> (r: bool)
        ensures
            r == Revision::decodable(code),
    {
        match old_style_lookup(code) {
            Some(_) => true,
            None => (code / 0x80_0000) % 2 != 1 || (
                (code / 0x10_0000) % 8 < 6
                && (code / 0x1_0000) % 16 < 7
                && (code / 0x1000) % 16 < 5
                && (code / 0x10) % 256 < 24),
        }
    }
}

/// The board model, revision and serial number in the firmware's answer to
/// `board_info_request`; `None` when the exchange failed, a response is missing or
/// short, or the revision code names an unknown entry.
pub fn get_board_info(mailbox: &Mailbox) -> (r: Option<BoardInfo>)
    requires
        chain_readable(mailbox.buffer@, 0, 3),
    ensures
        mailbox.req_res_code.0 != RequestResponseStatus::Success ==> r is None,
        mailbox.req_res_code.0 == RequestResponseStatus::Success ==> r == board_info_of(mailbox.buffer@),
{
    let mut responses = match mailbox.submit_messages() {
        Ok(it) => it,
        Err(_) => { return None; },
    };
    let ghost s = mailbox.buffer@;
    let model_words = match next_value_words(&mut responses, 1, 4, Ghost(3)) {
        Some(v) => v,
        None => { return None; },
    };
    let revision_words = match next_value_words(&mut responses, 1, 4, Ghost(2)) {
        Some(v) => v,
        None => { return None; },
    };
    let serial_words = match next_value_words(&mut responses, 2, 8, Ghost(1)) {
        Some(v) => v,
        None => { return None; },
    };
    let revision = revision_words[0];
    if !Revision::is_decodable(revision) {
        return None;
    }
    let serial: u64 = serial_words[0] as u64 + serial_words[1] as u64 * 0x1_0000_0000u64;
    Some(BoardInfo { model: model_words[0], revision: Revision::from_code(revision), serial })
}


/// The kernel's memory layout, from its linker symbols.
pub struct MemoryMap();

impl MemoryMap {
    /// The main stack: from address zero up to the `__main_stack` symbol.
    pub fn main_stack(main_stack_symbol: usize) -> (r: MemoryBlock)
        ensures
            r == MemoryBlock(0, main_stack_symbol),
    {
        MemoryBlock::from_zero_to_symbol(main_stack_symbol)
    }
}

/// Decimal digits of `v`, most significant first, without leading zeros.
pub open spec fn decimal_text(v: nat) -> Seq<u8>
    decreases v,
{
    if v < 10 {
        seq![(48 + v) as u8]
    } else {
        decimal_text(v / 10).push((48 + v % 10) as u8)
    }
}

/// Lower-case hex digits of `v`, most significant first, without leading zeros.
pub open spec fn lower_hex_text(v: nat) -> Seq<u8>
    decreases v,
{
    let d = v % 16;
    let c = (if d < 10 { 48 + d } else { 87 + d }) as u8;
    if v < 16 {
        seq![c]
    } else {
        lower_hex_text(v / 16).push(c)
    }
}

fn decimal_bytes(v: u32) -> (r: Vec<u8>)
    ensures
        r@ == decimal_text(v as nat),
    decreases v,
{
    if v < 10 {
        let mut r: Vec<u8> = Vec::new();
        r.push((48 + v) as u8);
        r
    } else {
        let mut r = decimal_bytes(v / 10);
        r.push((48 + v % 10) as u8);
        r
    }
}

fn lower_hex_bytes(v: u32) -> (r: Vec<u8>)
    ensures
        r@ == lower_hex_text(v as nat),
    decreases v,
{
    let d = v % 16;
    let c: u8 = if d < 10 { (48 + d) as u8 } else { (87 + d) as u8 };
    if v < 16 {
        let mut r: Vec<u8> = Vec::new();
        r.push(c);
        r
    } else {
        let mut r = lower_hex_bytes(v / 16);
        r.push(c);
        r
    }
}

fn push_bytes(out: &mut Vec<u8>, bytes: &[u8])
    ensures
        final(out)@ == old(out)@ + bytes@,
{
    let mut i: usize = 0;
    while i < bytes.len()
        invariant
            i <= bytes@.len(),
            out@ == old(out)@ + bytes@.subrange(0, i as int),
        decreases bytes@.len() - i,
    {
        out.push(bytes[i]);
        i += 1;
        assert(out@ =~= old(out)@ + bytes@.subrange(0, i as int));
    }
    assert(bytes@.subrange(0, bytes@.len() as int) =~= bytes@);
}

/// "Unknown Model Revision [" in ASCII.
pub open spec fn unknown_revision_prefix() -> Seq<u8> {
    seq![85u8, 110, 107, 110, 111, 119, 110, 32, 77, 111, 100, 101, 108, 32, 82, 101, 118, 105, 115, 105, 111, 110, 32, 91]
}

/// "Model " in ASCII.
pub open spec fn model_prefix() -> Seq<u8> {
    seq![77u8, 111, 100, 101, 108, 32]
}

impl Revision {
    /// The text a revision is shown with: "Unknown Model Revision [0x…]" with the code in
    /// lower-case hex; "Model <model> <memory> <major>.<minor>" with the two BCD digits
    /// of an old-style revision; "Model <model> <memory> 1.<revision>" for a new-style
    /// one. Names are UTF-8 encoded.
    pub open spec fn spec_text(self) -> Seq<u8> {
        match self {
            Revision::Unknown(code) => unknown_revision_prefix() + seq![48u8, 120]
                + lower_hex_text(code as nat) + seq![93u8],
            Revision::OldStyle { model, revision_bcd, memory_size, .. } => model_prefix()
                + encode_utf8(model.spec_name()) + seq![32u8] + encode_utf8(memory_size.spec_name()) + seq![32u8]
                + decimal_text((revision_bcd >> 4) as nat) + seq![46u8] + decimal_text((revision_bcd & 0xf) as nat),
            Revision::NewStyle { model, memory_size, revision, .. } => model_prefix()
                + encode_utf8(model.spec_name()) + seq![32u8] + encode_utf8(memory_size.spec_name()) + seq![32u8]
                + seq![49u8, 46] + decimal_text(revision as nat),
        }
    }

    pub fn text(&self) -> (r: Vec<u8>)
        ensures
            r@ == self.spec_text(),
    {
        let mut out: Vec<u8> = Vec::new();
        match self {
            Revision::Unknown(code) => {
                let prefix: [u8; 24] = [85, 110, 107, 110, 111, 119, 110, 32, 77, 111, 100, 101, 108, 32, 82, 101, 118, 105, 115, 105, 111, 110, 32, 91];
                push_bytes(&mut out, &prefix);
                out.push(48);
                out.push(120);
                let digits = lower_hex_bytes(*code);
                push_bytes(&mut out, digits.as_slice());
                out.push(93);
                assert(prefix@ =~= unknown_revision_prefix());
                assert(out@ =~= self.spec_text());
            },
            Revision::OldStyle { model, revision_bcd, memory_size, .. } => {
                let prefix: [u8; 6] = [77, 111, 100, 101, 108, 32];
                push_bytes(&mut out, &prefix);
                push_bytes(&mut out, model.name().as_bytes());
                out.push(32);
                push_bytes(&mut out, memory_size.name().as_bytes());
                out.push(32);
                let major = decimal_bytes((*revision_bcd >> 4) as u32);
                push_bytes(&mut out, major.as_slice());
                out.push(46);
                let minor = decimal_bytes((*revision_bcd & 0xf) as u32);
                push_bytes(&mut out, minor.as_slice());
                assert(prefix@ =~= model_prefix());
                assert(out@ =~= self.spec_text());
            },
            Revision::NewStyle { model, memory_size, revision, .. } => {
                let prefix: [u8; 6] = [77, 111, 100, 101, 108, 32];
                push_bytes(&mut out, &prefix);
                push_bytes(&mut out, model.name().as_bytes());
                out.push(32);
                push_bytes(&mut out, memory_size.name().as_bytes());
                out.push(32);
                out.push(49);
                out.push(46);
                let minor = decimal_bytes(*revision as u32);
                push_bytes(&mut out, minor.as_slice());
                assert(prefix@ =~= model_prefix());
                assert(out@ =~= self.spec_text());
            },
        }
        out
    }
}

} // verus!
