use vstd::prelude::*;
use crate::bits::{field64, get_field64};

verus! {

/// Exception levels.
#[derive(Clone, Copy, PartialEq, Eq, Structural)]
pub enum ExceptionLevel {
    EL0,
    EL1,
    EL2,
    EL3,
}

impl ExceptionLevel {
    pub open spec fn spec_from_current_el(value: u64) -> ExceptionLevel {
        let el = field64(value, 2, 2);
        if el == 0 { ExceptionLevel::EL0 } else if el == 1 { ExceptionLevel::EL1 } else if el == 2 { ExceptionLevel::EL2 } else { ExceptionLevel::EL3 }
    }

    /// The level in a value of the CurrentEL register (bits 2 and 3).
    pub fn from_current_el(value: u64) -> (r: ExceptionLevel)
        ensures
            r == ExceptionLevel::spec_from_current_el(value),
    {
        let el = get_field64(value, 2, 2);
        if el == 0 { ExceptionLevel::EL0 } else if el == 1 { ExceptionLevel::EL1 } else if el == 2 { ExceptionLevel::EL2 } else { ExceptionLevel::EL3 }
    }
}

/// The busy-wait hint: calls `std::hint::spin_loop`, which tells the processor that the
/// caller spins; it changes no state the program can see.
#[verifier::external_body]
fn spin_loop_hint() {
    std::hint::spin_loop()
}

/// Spins for `count` rounds of the busy-wait hint.
pub fn wait_cycles(count: usize) {
    let mut remaining = count;
    while remaining > 0
        decreases remaining,
    {
        remaining -= 1;
        spin_loop_hint();
    }
}

/// The reset management register value: bit 1 requests a warm reset, bit 0 selects
/// AArch64 after it.
#[derive(Clone, Copy, PartialEq, Eq, Structural)]
pub struct RmrElx(pub u64);

impl RmrElx {
    pub fn zero() -> (r: Self)
        ensures
            r.0 == 0,
    {
        RmrElx(0)
    }

    /// The request of a reset into AArch64.
    pub fn reset_to_aarch64() -> (r: Self)
        ensures
            r.0 == 3,
            field64(r.0, 1, 1) == 1,
            field64(r.0, 0, 1) == 1,
    {
        let r = RmrElx(3);
        assert(field64(3u64, 1, 1) == 1 && field64(3u64, 0, 1) == 1) by (bit_vector);
        r
    }
}

/// The system registers that hold a value per exception level.
#[derive(Clone, Copy, PartialEq, Eq, Structural)]
pub enum SystemRegister {
    TpidrEl0,
    TpidrEl1,
    TpidrEl2,
    TpidrEl3,
    RmrEl1,
    RmrEl2,
    RmrEl3,
}

/// The write of a reset request to the reset management register of the current
/// level; a core at EL0 cannot reset itself.
pub fn reset(level: ExceptionLevel) -> (r: (SystemRegister, RmrElx))
    requires
        level != ExceptionLevel::EL0,
    ensures
        r.1.0 == 3,
        r.0 == match level {
            ExceptionLevel::EL1 => SystemRegister::RmrEl1,
            ExceptionLevel::EL2 => SystemRegister::RmrEl2,
            _ => SystemRegister::RmrEl3,
        },
{
    let request = RmrElx::reset_to_aarch64();
    match level {
        ExceptionLevel::EL1 => (SystemRegister::RmrEl1, request),
        ExceptionLevel::EL2 => (SystemRegister::RmrEl2, request),
        _ => (SystemRegister::RmrEl3, request),
    }
}

/// The thread id registers, one per exception level.
pub struct TpidrElx {}

impl TpidrElx {
    pub open spec fn spec_register(level: ExceptionLevel) -> SystemRegister {
        match level {
            ExceptionLevel::EL0 => SystemRegister::TpidrEl0,
            ExceptionLevel::EL1 => SystemRegister::TpidrEl1,
            ExceptionLevel::EL2 => SystemRegister::TpidrEl2,
            ExceptionLevel::EL3 => SystemRegister::TpidrEl3,
        }
    }

    /// The register to read at the current level.
    pub fn read_register(level: ExceptionLevel) -> (r: SystemRegister)
        ensures
            r == TpidrElx::spec_register(level),
    {
        match level {
            ExceptionLevel::EL0 => SystemRegister::TpidrEl0,
            ExceptionLevel::EL1 => SystemRegister::TpidrEl1,
            ExceptionLevel::EL2 => SystemRegister::TpidrEl2,
            ExceptionLevel::EL3 => SystemRegister::TpidrEl3,
        }
    }

    /// The register to write `thread_id` to at the current level.
    pub fn write_register(level: ExceptionLevel, thread_id: u64) -> (r: (SystemRegister, u64))
        ensures
            r == (TpidrElx::spec_register(level), thread_id),
    {
        (TpidrElx::read_register(level), thread_id)
    }
}


/// Number of cores that meet at the start-up barrier.
pub const CORE_COUNT: u8 = 4;

/// The barrier count after a core arrives: each core counts down, and the last one to
/// arrive (count 1) sets it back to the number of cores for the next use.
pub fn barrier_arrive(count: u8) -> (r: u8)
    requires
        count >= 1,
    ensures
        count == 1 ==> r == CORE_COUNT,
        count > 1 ==> r == count - 1,
{
    if count == 1 {
        CORE_COUNT
    } else {
        count - 1
    }
}

/// Where a core goes after start-up, by the exception level it starts at.
#[derive(Clone, Copy, PartialEq, Eq, Structural)]
pub enum BootPath {
    /// Drop from EL3 to EL2, then from EL2 to EL1.
    LeaveEl3,
    /// Drop from EL2 to EL1.
    LeaveEl2,
    /// Already at EL1: run the kernel.
    Main,
    /// EL0: nothing can be done; spin.
    Halt,
}

/// The start-up path for a core at `level`.
pub fn boot_path(level: ExceptionLevel) -> (r: BootPath)
    ensures
        r == match level {
            ExceptionLevel::EL3 => BootPath::LeaveEl3,
            ExceptionLevel::EL2 => BootPath::LeaveEl2,
            ExceptionLevel::EL1 => BootPath::Main,
            ExceptionLevel::EL0 => BootPath::Halt,
        },
{
    match level {
        ExceptionLevel::EL3 => BootPath::LeaveEl3,
        ExceptionLevel::EL2 => BootPath::LeaveEl2,
        ExceptionLevel::EL1 => BootPath::Main,
        ExceptionLevel::EL0 => BootPath::Halt,
    }
}

/// The address at which secondary core `core` (1 to 3) waits for its entry point: the
/// core's mailbox 3 on the Raspberry Pi 3, its spin table slot on the Raspberry Pi 4.
pub fn secondary_core_release_address(core: usize, raspi4: bool) -> (r: usize)
    requires
        1 <= core <= 3,
    ensures
        !raspi4 ==> r == 0x4000_008C + core * 0x10,
        raspi4 ==> r == 0xe0 + (core - 1) * 8,
{
    if raspi4 {
        0xe0 + (core - 1) * 8
    } else {
        0x4000_008C + core * 0x10
    }
}

} // verus!
