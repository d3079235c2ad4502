use vstd::prelude::*;
use crate::bits::{bit32, bit_test32};
use crate::peripherals::BcmHost;
use crate::peripherals::mmio::{Mmio, RegisterRead, RegisterWrite, peripheral_register};

verus! {

/// Offset of the system timer block in the peripheral window.
pub const STIMER_BASE: usize = 0x3000;

/// The free-running 64-bit system timer and its four compare registers.
pub struct SystemTimer {}

/// The match flags of the four compare channels (bits 0 to 3).
#[derive(Clone, Copy, PartialEq, Eq, Structural)]
pub struct ControlAndStatus(pub u32);

impl ControlAndStatus {
    pub fn match_0(&self) -> (r: bool)
        ensures
            r == bit32(self.0, 0),
    {
        bit_test32(self.0, 0)
    }

    pub fn match_1(&self) -> (r: bool)
        ensures
            r == bit32(self.0, 1),
    {
        bit_test32(self.0, 1)
    }

    pub fn match_2(&self) -> (r: bool)
        ensures
            r == bit32(self.0, 2),
    {
        bit_test32(self.0, 2)
    }

    pub fn match_3(&self) -> (r: bool)
        ensures
            r == bit32(self.0, 3),
    {
        bit_test32(self.0, 3)
    }
}

impl SystemTimer {
    pub fn counter_low(host: &BcmHost) -> (r: RegisterRead)
        requires
            host.wf(),
        ensures
            r.address == peripheral_register(*host, STIMER_BASE, 0x4),
    {
        Mmio::<STIMER_BASE, 0x4>().read(host)
    }

    pub fn counter_high(host: &BcmHost) -> (r: RegisterRead)
        requires
            host.wf(),
        ensures
            r.address == peripheral_register(*host, STIMER_BASE, 0x8),
    {
        Mmio::<STIMER_BASE, 0x8>().read(host)
    }

    /// The 64-bit counter from its high and low halves.
    pub fn counter(high: u32, low: u32) -> (r: u64)
        ensures
            r == high * 0x1_0000_0000int + low,
    {
        high as u64 * 0x1_0000_0000u64 + low as u64
    }

    /// The write that clears the given match flags (a flag is cleared by writing 1).
    pub fn clear_matches(host: &BcmHost, cs: ControlAndStatus) -> (r: RegisterWrite)
        requires
            host.wf(),
        ensures
            r.address == peripheral_register(*host, STIMER_BASE, 0x0),
            r.value == cs.0 % 16,
    {
        Mmio::<STIMER_BASE, 0x0>().write(host, cs.0 % 16)
    }

    /// The match flags in a value read from the control/status register.
    pub fn matches(cs_register: u32) -> (r: ControlAndStatus)
        ensures
            r.0 == cs_register % 16,
    {
        ControlAndStatus(cs_register % 16)
    }

    /// The read of the control/status register whose value `matches` decodes.
    pub fn control_and_status(host: &BcmHost) -> (r: RegisterRead)
        requires
            host.wf(),
        ensures
            r.address == peripheral_register(*host, STIMER_BASE, 0x0),
    {
        Mmio::<STIMER_BASE, 0x0>().read(host)
    }

    pub fn set_compare_0(host: &BcmHost, value: u32) -> (r: RegisterWrite)
        requires
            host.wf(),
        ensures
            r.address == peripheral_register(*host, STIMER_BASE, 0xc),
            r.value == value,
    {
        Mmio::<STIMER_BASE, 0xc>().write(host, value)
    }

    pub fn set_compare_1(host: &BcmHost, value: u32) -> (r: RegisterWrite)
        requires
            host.wf(),
        ensures
            r.address == peripheral_register(*host, STIMER_BASE, 0x10),
            r.value == value,
    {
        Mmio::<STIMER_BASE, 0x10>().write(host, value)
    }

    pub fn set_compare_2(host: &BcmHost, value: u32) -> (r: RegisterWrite)
        requires
            host.wf(),
        ensures
            r.address == peripheral_register(*host, STIMER_BASE, 0x14),
            r.value == value,
    {
        Mmio::<STIMER_BASE, 0x14>().write(host, value)
    }

    pub fn set_compare_3(host: &BcmHost, value: u32) -> (r: RegisterWrite)
        requires
            host.wf(),
        ensures
            r.address == peripheral_register(*host, STIMER_BASE, 0x18),
            r.value == value,
    {
        Mmio::<STIMER_BASE, 0x18>().write(host, value)
    }

    pub fn compare_0(host: &BcmHost) -> (r: RegisterRead)
        requires
            host.wf(),
        ensures
            r.address == peripheral_register(*host, STIMER_BASE, 0xc),
    {
        Mmio::<STIMER_BASE, 0xc>().read(host)
    }

    pub fn compare_1(host: &BcmHost) -> (r: RegisterRead)
        requires
            host.wf(),
        ensures
            r.address == peripheral_register(*host, STIMER_BASE, 0x10),
    {
        Mmio::<STIMER_BASE, 0x10>().read(host)
    }

    pub fn compare_2(host: &BcmHost) -> (r: RegisterRead)
        requires
            host.wf(),
        ensures
            r.address == peripheral_register(*host, STIMER_BASE, 0x14),
    {
        Mmio::<STIMER_BASE, 0x14>().read(host)
    }

    pub fn compare_3(host: &BcmHost) -> (r: RegisterRead)
        requires
            host.wf(),
        ensures
            r.address == peripheral_register(*host, STIMER_BASE, 0x18),
    {
        Mmio::<STIMER_BASE, 0x18>().read(host)
    }
}

} // verus!
