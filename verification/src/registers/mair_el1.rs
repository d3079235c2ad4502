use vstd::prelude::*;

verus! {

#[derive(Clone, Copy, PartialEq, Eq, Structural)]
pub enum AllocatePolicy {
    NoAllocate,
    Allocate,
}

impl AllocatePolicy {
    pub open spec fn spec_bit(self) -> u8 {
        match self {
            AllocatePolicy::NoAllocate => 0,
            AllocatePolicy::Allocate => 1,
        }
    }

    /// The policy in the lowest bit of `value`.
    pub fn from_u8(value: u8) -> (r: Self)
        ensures
            r.spec_bit() == value % 2,
    {
        if value % 2 == 0 {
            AllocatePolicy::NoAllocate
        } else {
            AllocatePolicy::Allocate
        }
    }
}

#[derive(Clone, Copy, PartialEq, Eq, Structural)]
pub enum CacheWritePolicy {
    WriteThrough,
    WriteBack,
}

impl CacheWritePolicy {
    pub open spec fn spec_bit(self) -> u8 {
        match self {
            CacheWritePolicy::WriteThrough => 0,
            CacheWritePolicy::WriteBack => 1,
        }
    }
}

#[derive(Clone, Copy, PartialEq, Eq, Structural)]
pub enum CacheTransistence {
    Transient,
    NonTransient,
}

impl CacheTransistence {
    pub open spec fn spec_bit(self) -> u8 {
        match self {
            CacheTransistence::Transient => 0,
            CacheTransistence::NonTransient => 1,
        }
    }
}

#[derive(Clone, Copy, PartialEq, Eq, Structural)]
pub struct NormalCacheType {
    pub write_policy: CacheWritePolicy,
    pub transistence: CacheTransistence,
    pub read_allocate_policy: AllocatePolicy,
    pub write_allocate_policy: AllocatePolicy,
}

/// Normal memory: cached with the given policy, or non-cacheable (`None`).
#[derive(Clone, Copy, PartialEq, Eq, Structural)]
pub struct NormalMemoryType {
    pub caching: Option<NormalCacheType>,
}

impl NormalMemoryType {
    /// The four-bit encoding written into a MAIR attribute: write policy in bit 3,
    /// transience in bit 2, read and write allocation in bits 1 and 0; 0b0100 for
    /// non-cacheable memory.
    pub open spec fn spec_to_u8(self) -> u8 {
        match self.caching {
            Some(c) => (c.write_policy.spec_bit() * 8 + c.transistence.spec_bit() * 4
                + c.read_allocate_policy.spec_bit() * 2 + c.write_allocate_policy.spec_bit()) as u8,
            None => 4,
        }
    }

    pub fn to_u8(self) -> (r: u8)
        ensures
            r == self.spec_to_u8(),
            r < 16,
    {
        match self.caching {
            Some(c) => {
                let w: u8 = match c.write_policy {
                    CacheWritePolicy::WriteThrough => 0,
                    CacheWritePolicy::WriteBack => 1,
                };
                let t: u8 = match c.transistence {
                    CacheTransistence::Transient => 0,
                    CacheTransistence::NonTransient => 1,
                };
                let r: u8 = match c.read_allocate_policy {
                    AllocatePolicy::NoAllocate => 0,
                    AllocatePolicy::Allocate => 1,
                };
                let a: u8 = match c.write_allocate_policy {
                    AllocatePolicy::NoAllocate => 0,
                    AllocatePolicy::Allocate => 1,
                };
                w * 8 + t * 4 + r * 2 + a
            },
            None => 4,
        }
    }

    /// Decoding of a non-zero four-bit MAIR nibble 0bCCRW: CC selects write-through
    /// transient (00), write-back transient (01), write-through non-transient (10) or
    /// write-back non-transient (11); 0b0100 is non-cacheable.
    pub open spec fn spec_from_u8(value: u8) -> Self {
        let c = value / 4;
        let r = (value / 2) % 2;
        let w = value % 2;
        if c == 1 && r == 0 && w == 0 {
            NormalMemoryType { caching: None }
        } else {
            NormalMemoryType {
                caching: Some(NormalCacheType {
                    write_policy: if c % 2 == 0 { CacheWritePolicy::WriteThrough } else { CacheWritePolicy::WriteBack },
                    transistence: if c < 2 { CacheTransistence::Transient } else { CacheTransistence::NonTransient },
                    read_allocate_policy: if r == 0 { AllocatePolicy::NoAllocate } else { AllocatePolicy::Allocate },
                    write_allocate_policy: if w == 0 { AllocatePolicy::NoAllocate } else { AllocatePolicy::Allocate },
                }),
            }
        }
    }

    pub fn from_u8(value: u8) -> (r: Self)
        requires
            0 < value < 16,
        ensures
            r == Self::spec_from_u8(value),
    {
        let c = value >> 2;
        let w = value & 1;
        let r = (value >> 1) & 1;
        assert(c == value / 4 && w == value % 2 && r == (value / 2) % 2) by (bit_vector)
            requires c == value >> 2, w == value & 1, r == (value >> 1) & 1;
        if c == 1 && r == 0 && w == 0 {
            NormalMemoryType { caching: None }
        } else {
            let write_policy = if c % 2 == 0 { CacheWritePolicy::WriteThrough } else { CacheWritePolicy::WriteBack };
            let transistence = if c < 2 { CacheTransistence::Transient } else { CacheTransistence::NonTransient };
            NormalMemoryType {
                caching: Some(NormalCacheType {
                    write_policy,
                    transistence,
                    read_allocate_policy: AllocatePolicy::from_u8(r),
                    write_allocate_policy: AllocatePolicy::from_u8(w),
                }),
            }
        }
    }
}

/// Decoding a normal memory type's encoding gives it back when the encoding is not
/// zero and the write policy bit equals the transience bit: the encoding keeps the
/// write policy in bit 3 while the decoding reads it from bit 2.
pub proof fn lemma_normal_memory_type_round_trip(t: NormalMemoryType)
    requires
        t.spec_to_u8() != 0,
        t.caching matches Some(c) ==> c.write_policy.spec_bit() == c.transistence.spec_bit(),
    ensures
        NormalMemoryType::spec_from_u8(t.spec_to_u8()) == t,
{
}

#[derive(Clone, Copy, PartialEq, Eq, Structural)]
pub enum DeviceMemoryType {
    NGnRnE,
    NGnRE,
    NGRE,
    GRE,
}

impl DeviceMemoryType {
    pub open spec fn spec_bits(self) -> u8 {
        match self {
            DeviceMemoryType::NGnRnE => 0,
            DeviceMemoryType::NGnRE => 1,
            DeviceMemoryType::NGRE => 2,
            DeviceMemoryType::GRE => 3,
        }
    }

    /// The device type in the two lowest bits of `value`.
    pub fn from_u8(value: u8) -> (r: Self)
        ensures
            r.spec_bits() == value % 4,
    {
        let v = value % 4;
        if v == 0 {
            DeviceMemoryType::NGnRnE
        } else if v == 1 {
            DeviceMemoryType::NGnRE
        } else if v == 2 {
            DeviceMemoryType::NGRE
        } else {
            DeviceMemoryType::GRE
        }
    }
}

/// One memory attribute of MAIR_EL1.
#[derive(Clone, Copy, PartialEq, Eq, Structural)]
pub enum MemoryAttributeDescriptor {
    Device { memory_type: DeviceMemoryType },
    Normal { outer: NormalMemoryType, inner: NormalMemoryType },
    Unpredictable,
}

impl MemoryAttributeDescriptor {
    pub fn device(device_flags: u8) -> (r: Self)
        ensures
            r matches MemoryAttributeDescriptor::Device { memory_type } && memory_type.spec_bits() == device_flags % 4,
    {
        MemoryAttributeDescriptor::Device { memory_type: DeviceMemoryType::from_u8(device_flags) }
    }

    /// Normal memory from two four-bit encodings; both must be non-zero.
    pub fn normal(outer_flags: u8, inner_flags: u8) -> (r: Self)
        requires
            0 < inner_flags < 16,
            0 < outer_flags < 16,
        ensures
            r == (MemoryAttributeDescriptor::Normal {
                outer: NormalMemoryType::spec_from_u8(outer_flags),
                inner: NormalMemoryType::spec_from_u8(inner_flags),
            }),
    {
        MemoryAttributeDescriptor::Normal {
            outer: NormalMemoryType::from_u8(outer_flags),
            inner: NormalMemoryType::from_u8(inner_flags),
        }
    }

    /// Whether decoding `value` runs into a failed check: a byte with both a non-zero
    /// high nibble and a non-zero low nibble hands the unshifted high nibble to the
    /// four-bit normal memory decoding.
    pub open spec fn spec_decodable(value: u8) -> bool {
        value / 16 == 0 || value % 16 == 0
    }

    pub open spec fn spec_from_u8(value: u8) -> Self {
        let outer = value / 16;
        let inner = value % 16;
        if outer == 0 {
            if inner % 4 == 0 {
                MemoryAttributeDescriptor::Device { memory_type: DeviceMemoryType::spec_from_bits(inner / 4) }
            } else {
                MemoryAttributeDescriptor::Unpredictable
            }
        } else {
            MemoryAttributeDescriptor::Unpredictable
        }
    }

    /// Decodes a MAIR attribute byte.
    pub fn from_u8(value: u8) -> (r: Self)
        requires
            Self::spec_decodable(value),
        ensures
            r == Self::spec_from_u8(value),
    {
        let outer = value & 0xF0;
        let inner = value & 0x0F;
        assert((outer == 0) == (value / 16 == 0) && inner == value % 16) by (bit_vector)
            requires outer == value & 0xF0, inner == value & 0x0F;
        if outer == 0 {
            let device = inner >> 2;
            let xs = inner & 3;
            assert(device == inner / 4 && xs == inner % 4) by (bit_vector)
                requires device == inner >> 2, xs == inner & 3;
            if xs == 0 {
                Self::device(device)
            } else {
                MemoryAttributeDescriptor::Unpredictable
            }
        } else {
            MemoryAttributeDescriptor::Unpredictable
        }
    }

    pub open spec fn spec_to_u8(self) -> u8 {
        match self {
            MemoryAttributeDescriptor::Device { memory_type } => (memory_type.spec_bits() * 4) as u8,
            MemoryAttributeDescriptor::Normal { outer, inner } => (outer.spec_to_u8() * 16 + inner.spec_to_u8()) as u8,
            MemoryAttributeDescriptor::Unpredictable => 0,
        }
    }

    /// Encodes the attribute as a MAIR byte: device type in bits [3:2], or the outer
    /// normal memory nibble above the inner one.
    pub fn to_u8(self) -> (r: u8)
        requires
            !(self is Unpredictable),
        ensures
            r == self.spec_to_u8(),
    {
        match self {
            MemoryAttributeDescriptor::Device { memory_type } => {
                let t: u8 = match memory_type {
                    DeviceMemoryType::NGnRnE => 0,
                    DeviceMemoryType::NGnRE => 1,
                    DeviceMemoryType::NGRE => 2,
                    DeviceMemoryType::GRE => 3,
                };
                t * 4
            },
            MemoryAttributeDescriptor::Normal { outer, inner } => outer.to_u8() * 16 + inner.to_u8(),
            MemoryAttributeDescriptor::Unpredictable => 0,
        }
    }
}

impl DeviceMemoryType {
    pub open spec fn spec_from_bits(v: u8) -> Self {
        if v % 4 == 0 {
            DeviceMemoryType::NGnRnE
        } else if v % 4 == 1 {
            DeviceMemoryType::NGnRE
        } else if v % 4 == 2 {
            DeviceMemoryType::NGRE
        } else {
            DeviceMemoryType::GRE
        }
    }
}

/// A device attribute decodes from its own encoding.
pub proof fn lemma_device_attribute_round_trip(memory_type: DeviceMemoryType)
    ensures
        MemoryAttributeDescriptor::spec_decodable(
            (MemoryAttributeDescriptor::Device { memory_type }).spec_to_u8()),
        MemoryAttributeDescriptor::spec_from_u8((MemoryAttributeDescriptor::Device { memory_type }).spec_to_u8())
            == (MemoryAttributeDescriptor::Device { memory_type }),
{
}

/// The Memory Attribute Indirection Register: eight attribute bytes, attribute `n` in
/// bits [8n+7:8n].
#[derive(Clone, Copy, PartialEq, Eq, Structural)]
pub struct MairEl1(pub u64);

/// Attribute byte `index` of a MAIR value.
pub open spec fn attr_byte(value: u64, index: int) -> u8 {
    ((value >> (8 * index) as u64) & 0xff) as u8
}

impl MairEl1 {
    pub fn zero() -> (r: Self)
        ensures
            r.0 == 0,
    {
        MairEl1(0)
    }

    pub fn from_u64(value: u64) -> (r: Self)
        ensures
            r.0 == value,
    {
        MairEl1(value)
    }

    pub fn to_u64(self) -> (r: u64)
        ensures
            r == self.0,
    {
        self.0
    }

    /// The attribute at `index`.
    pub fn attr_n(&self, index: usize) -> (r: MemoryAttributeDescriptor)
        requires
            index < 8,
            MemoryAttributeDescriptor::spec_decodable(attr_byte(self.0, index as int)),
        ensures
            r == MemoryAttributeDescriptor::spec_from_u8(attr_byte(self.0, index as int)),
    {
        let byte = ((self.0 >> (8 * index as u64)) & 0xff) as u8;
        MemoryAttributeDescriptor::from_u8(byte)
    }

    /// Replaces the attribute at `index`, keeping the others.
    pub fn set_attr_n(&mut self, index: usize, desc: MemoryAttributeDescriptor)
        requires
            index < 8,
            !(desc is Unpredictable),
        ensures
            attr_byte(final(self).0, index as int) == desc.spec_to_u8(),
            forall|j: int| 0 <= j < 8 && j != index ==> attr_byte(final(self).0, j) == attr_byte(old(self).0, j),
    {
        let byte = desc.to_u8() as u64;
        let shift = 8 * index as u64;
        let old_value = self.0;
        let new_value = (old_value & !(0xffu64 << shift)) | (byte << shift);
        proof { lemma_replace_byte(old_value, byte, shift, new_value); }
        self.0 = new_value;
    }
}

proof fn lemma_replace_byte(old_value: u64, byte: u64, shift: u64, new_value: u64)
    requires
        byte < 256,
        shift % 8 == 0,
        shift <= 56,
        new_value == (old_value & !(0xffu64 << shift)) | (byte << shift),
    ensures
        (new_value >> shift) & 0xff == byte,
        forall|j: u64| j < 64 && j % 8 == 0 && j != shift ==> #[trigger] ((new_value >> j) & 0xff) == (old_value >> j) & 0xff,
{
    assert((new_value >> shift) & 0xff == byte) by (bit_vector)
        requires byte < 256, shift <= 56, new_value == (old_value & !(0xffu64 << shift)) | (byte << shift);
    assert forall|j: u64| j < 64 && j % 8 == 0 && j != shift implies #[trigger] ((new_value >> j) & 0xff) == (old_value >> j) & 0xff by {
        assert(((new_value >> j) & 0xff) == (old_value >> j) & 0xff) by (bit_vector)
            requires byte < 256, shift <= 56, shift % 8 == 0, j < 64, j % 8 == 0, j != shift,
                new_value == (old_value & !(0xffu64 << shift)) | (byte << shift);
    }
}

} // verus!
