use vstd::prelude::*;
use crate::peripherals::BcmHost;

verus! {

/// A write of `value` to the 32-bit register at `address`.
#[derive(Clone, Copy, PartialEq, Eq, Structural)]
pub struct RegisterWrite {
    pub address: usize,
    pub value: u32,
}

/// A read of the 32-bit register at `address`.
#[derive(Clone, Copy, PartialEq, Eq, Structural)]
pub struct RegisterRead {
    pub address: usize,
}

/// The value a masked update leaves in a register: the bits of `mask` from `data`,
/// the others from `old_value`.
pub open spec fn masked_update(old_value: u32, mask: u32, data: u32) -> u32 {
    (!mask & old_value) | (mask & data)
}

/// Bit `k` of a masked update comes from `data` where `mask` has it, else from the old
/// value.
pub proof fn lemma_masked_update_bits(old_value: u32, mask: u32, data: u32)
    ensures
        forall|k: u32| #![trigger (masked_update(old_value, mask, data) >> k)] k < 32 ==> ((masked_update(old_value, mask, data) >> k) & 1)
            == if (mask >> k) & 1 == 1 { (data >> k) & 1 } else { (old_value >> k) & 1 },
{
    assert forall|k: u32| k < 32 implies ((masked_update(old_value, mask, data) >> k) & 1)
        == if (mask >> k) & 1 == 1 { (data >> k) & 1 } else { (old_value >> k) & 1 } by {
        assert(k < 32 ==> ((((!mask & old_value) | (mask & data)) >> k) & 1)
            == if (mask >> k) & 1 == 1 { (data >> k) & 1 } else { (old_value >> k) & 1 }) by (bit_vector);
    }
}

/// The address of the register `offset` bytes into the peripheral block at `base`.
pub open spec fn peripheral_register(host: BcmHost, base: usize, offset: usize) -> int {
    host.peripheral_address + base + offset
}

/// A register at `BASE + OFFSET` inside the peripheral window (the older interface).
pub struct MMIO<const BASE: usize, const OFFSET: usize>();

impl<const BASE: usize, const OFFSET: usize> MMIO<BASE, OFFSET> {
    pub fn write(&self, host: &BcmHost, data: u32) -> (r: RegisterWrite)
        requires
            host.wf(),
            BASE + OFFSET < 0x0100_0000,
        ensures
            r.address == peripheral_register(*host, BASE, OFFSET),
            r.value == data,
    {
        RegisterWrite { address: host.peripheral_address + BASE + OFFSET, value: data }
    }

    pub fn read(&self, host: &BcmHost) -> (r: RegisterRead)
        requires
            host.wf(),
            BASE + OFFSET < 0x0100_0000,
        ensures
            r.address == peripheral_register(*host, BASE, OFFSET),
    {
        RegisterRead { address: host.peripheral_address + BASE + OFFSET }
    }

    /// The write that replaces the bits of `mask` by those of `data`, given the value
    /// the register held.
    pub fn update(&self, host: &BcmHost, mask: u32, data: u32, old_value: u32) -> (r: RegisterWrite)
        requires
            host.wf(),
            BASE + OFFSET < 0x0100_0000,
        ensures
            r.address == peripheral_register(*host, BASE, OFFSET),
            r.value == masked_update(old_value, mask, data),
    {
        RegisterWrite { address: host.peripheral_address + BASE + OFFSET, value: (!mask & old_value) | (mask & data) }
    }
}

/// A register at `BASE + OFFSET` inside the peripheral window.
pub struct Mmio<const BASE: usize, const OFFSET: usize>();

impl<const BASE: usize, const OFFSET: usize> Mmio<BASE, OFFSET> {
    pub fn address(&self, host: &BcmHost) -> (r: usize)
        requires
            host.wf(),
            BASE + OFFSET < 0x0100_0000,
        ensures
            r == peripheral_register(*host, BASE, OFFSET),
    {
        host.peripheral_address + BASE + OFFSET
    }

    pub fn write(&self, host: &BcmHost, data: u32) -> (r: RegisterWrite)
        requires
            host.wf(),
            BASE + OFFSET < 0x0100_0000,
        ensures
            r.address == peripheral_register(*host, BASE, OFFSET),
            r.value == data,
    {
        RegisterWrite { address: self.address(host), value: data }
    }

    pub fn read(&self, host: &BcmHost) -> (r: RegisterRead)
        requires
            host.wf(),
            BASE + OFFSET < 0x0100_0000,
        ensures
            r.address == peripheral_register(*host, BASE, OFFSET),
    {
        RegisterRead { address: self.address(host) }
    }

    /// The write that replaces the bits of `mask` by those of `data`, given the value
    /// the register held.
    pub fn update(&self, host: &BcmHost, mask: u32, data: u32, old_value: u32) -> (r: RegisterWrite)
        requires
            host.wf(),
            BASE + OFFSET < 0x0100_0000,
        ensures
            r.address == peripheral_register(*host, BASE, OFFSET),
            r.value == masked_update(old_value, mask, data),
    {
        RegisterWrite { address: self.address(host), value: (!mask & old_value) | (mask & data) }
    }
}

/// A register at `BASE + OFFSET` inside the peripheral window that holds a value of a
/// register type of its own.
pub struct TypedMMIO<const BASE: usize, const OFFSET: usize>();

impl<const BASE: usize, const OFFSET: usize> TypedMMIO<BASE, OFFSET> {
    pub fn write(host: &BcmHost, data: u32) -> (r: RegisterWrite)
        requires
            host.wf(),
            BASE + OFFSET < 0x0100_0000,
        ensures
            r.address == peripheral_register(*host, BASE, OFFSET),
            r.value == data,
    {
        RegisterWrite { address: host.peripheral_address + BASE + OFFSET, value: data }
    }

    pub fn read(host: &BcmHost) -> (r: RegisterRead)
        requires
            host.wf(),
            BASE + OFFSET < 0x0100_0000,
        ensures
            r.address == peripheral_register(*host, BASE, OFFSET),
    {
        RegisterRead { address: host.peripheral_address + BASE + OFFSET }
    }
}

/// A register of a peripheral whose block sits at a run-time address: `BASE + OFFSET`
/// plus the block address held in the value.
#[derive(Clone, Copy)]
pub struct Register<const BASE: usize, const OFFSET: usize>(pub usize);

impl<const BASE: usize, const OFFSET: usize> Register<BASE, OFFSET> {
    pub fn no_offset() -> (r: Self)
        ensures
            r.0 == 0,
    {
        Register(0)
    }

    pub fn at(address: usize) -> (r: Self)
        ensures
            r.0 == address,
    {
        Register(address)
    }

    /// The register's address.
    pub fn as_ptr(&self) -> (r: usize)
        requires
            BASE + OFFSET + self.0 <= usize::MAX,
        ensures
            r == BASE + OFFSET + self.0,
    {
        BASE + OFFSET + self.0
    }

    /// The register's address, for writing.
    pub fn as_mut_ptr(&self) -> (r: usize)
        requires
            BASE + OFFSET + self.0 <= usize::MAX,
        ensures
            r == BASE + OFFSET + self.0,
    {
        BASE + OFFSET + self.0
    }
}

/// A value kept in memory that the firmware may rewrite behind the program's back;
/// each access goes to memory.
pub struct DynamicMmioField<T>(pub T);

impl<T: Copy> DynamicMmioField<T> {
    pub fn init(value: T) -> (r: Self)
        ensures
            r.0 == value,
    {
        DynamicMmioField(value)
    }

    pub fn read(&self) -> (r: T)
        ensures
            r == self.0,
    {
        self.0
    }

    pub fn write(&mut self, value: T)
        ensures
            final(self).0 == value,
    {
        self.0 = value;
    }
}

} // verus!
