use vstd::prelude::*;
use crate::bits::{bit32, bit_test32, field32, get_field32, field64, get_field64, with_field64, set_field64};
use crate::peripherals::BcmHost;
use crate::peripherals::mmio::{MMIO, RegisterRead, RegisterWrite, peripheral_register};

verus! {

/// Offset of the interrupt controller in the peripheral window.
pub const IRQ_BASE: usize = 0xB000;

/// Bit of the DAIF register that masks IRQs.
pub const DAIF_IRQ_BIT: u64 = 7;

/// Whether IRQs are unmasked in the given DAIF value.
pub fn irq_enabled(daif: u64) -> (r: bool)
    ensures
        r == (field64(daif, 7, 1) == 0),
{
    get_field64(daif, 7, 1) == 0
}

/// The DAIF value with IRQs unmasked.
pub fn irq_enable(daif: u64) -> (r: u64)
    ensures
        r == with_field64(daif, 7, 1, 0),
{
    set_field64(daif, 7, 1, 0)
}

/// Whether IRQs are masked in the given DAIF value.
pub fn irq_disabled(daif: u64) -> (r: bool)
    ensures
        r == (field64(daif, 7, 1) == 1),
{
    get_field64(daif, 7, 1) == 1
}

/// The DAIF value with IRQs masked.
pub fn irq_disable(daif: u64) -> (r: u64)
    ensures
        r == with_field64(daif, 7, 1, 1),
{
    set_field64(daif, 7, 1, 1)
}

/// The basic pending register: ARM-side sources and a few GPU interrupts.
#[derive(Clone, Copy, PartialEq, Eq, Structural)]
pub struct IrqPendingBase(pub u32);

impl IrqPendingBase {
    pub fn read_register(host: &BcmHost) -> (r: RegisterRead)
        requires
            host.wf(),
        ensures
            r.address == peripheral_register(*host, IRQ_BASE, 0x200),
    {
        MMIO::<IRQ_BASE, 0x200>().read(host)
    }

    /// Bit 8: some interrupt of pending register 1 is not shown here.
    pub fn pend_reg_1(&self) -> (r: bool)
        ensures
            r == bit32(self.0, 8),
    {
        bit_test32(self.0, 8)
    }

    /// Bit 9: some interrupt of pending register 2 is not shown here.
    pub fn pend_reg_2(&self) -> (r: bool)
        ensures
            r == bit32(self.0, 9),
    {
        bit_test32(self.0, 9)
    }

    /// Bit 19: the UART interrupt (GPU IRQ 57).
    pub fn gpu_irq_57_uart(&self) -> (r: bool)
        ensures
            r == bit32(self.0, 19),
    {
        bit_test32(self.0, 19)
    }

    /// Bit 0: the ARM timer interrupt.
    pub fn arm_timer(&self) -> (r: bool)
        ensures
            r == bit32(self.0, 0),
    {
        bit_test32(self.0, 0)
    }
}

/// Interrupts 0 to 31 of the GPU side.
#[derive(Clone, Copy, PartialEq, Eq, Structural)]
pub struct GpuIrqs1(pub u32);

/// Interrupts 32 to 63 of the GPU side.
#[derive(Clone, Copy, PartialEq, Eq, Structural)]
pub struct GpuIrqs2(pub u32);

/// The ARM-side interrupts.
#[derive(Clone, Copy, PartialEq, Eq, Structural)]
pub struct BasicIrqs(pub u32);

impl GpuIrqs1 {
    /// The four system timer match interrupts (bits 0 to 3).
    pub fn system_timers(&self) -> (r: u32)
        ensures
            r == field32(self.0, 0, 4),
    {
        get_field32(self.0, 0, 4)
    }

    /// Bit 29: the auxiliary peripherals' interrupt.
    pub fn aux_int(&self) -> (r: bool)
        ensures
            r == bit32(self.0, 29),
    {
        bit_test32(self.0, 29)
    }
}

impl GpuIrqs2 {
    /// Bit 25: the UART interrupt.
    pub fn uart_int(&self) -> (r: bool)
        ensures
            r == bit32(self.0, 25),
    {
        bit_test32(self.0, 25)
    }
}

impl GpuIrqs1 {
    pub fn read_pending(host: &BcmHost) -> (r: RegisterRead)
        requires
            host.wf(),
        ensures
            r.address == peripheral_register(*host, IRQ_BASE, 0x204),
    {
        MMIO::<IRQ_BASE, 0x204>().read(host)
    }

    pub fn read_enable(host: &BcmHost) -> (r: RegisterRead)
        requires
            host.wf(),
        ensures
            r.address == peripheral_register(*host, IRQ_BASE, 0x210),
    {
        MMIO::<IRQ_BASE, 0x210>().read(host)
    }

    pub fn write_enable(&self, host: &BcmHost) -> (r: RegisterWrite)
        requires
            host.wf(),
        ensures
            r.address == peripheral_register(*host, IRQ_BASE, 0x210),
            r.value == self.0,
    {
        MMIO::<IRQ_BASE, 0x210>().write(host, self.0)
    }

    /// The read for the disable set; like `read_enable`, it reads the enable register.
    pub fn read_disable(host: &BcmHost) -> (r: RegisterRead)
        requires
            host.wf(),
        ensures
            r.address == peripheral_register(*host, IRQ_BASE, 0x210),
    {
        MMIO::<IRQ_BASE, 0x210>().read(host)
    }

    /// The write for the disable set; like `write_enable`, it goes to the enable register.
    pub fn write_disable(&self, host: &BcmHost) -> (r: RegisterWrite)
        requires
            host.wf(),
        ensures
            r.address == peripheral_register(*host, IRQ_BASE, 0x210),
            r.value == self.0,
    {
        MMIO::<IRQ_BASE, 0x210>().write(host, self.0)
    }
}

impl GpuIrqs2 {
    pub fn read_pending(host: &BcmHost) -> (r: RegisterRead)
        requires
            host.wf(),
        ensures
            r.address == peripheral_register(*host, IRQ_BASE, 0x208),
    {
        MMIO::<IRQ_BASE, 0x208>().read(host)
    }

    pub fn read_enable(host: &BcmHost) -> (r: RegisterRead)
        requires
            host.wf(),
        ensures
            r.address == peripheral_register(*host, IRQ_BASE, 0x214),
    {
        MMIO::<IRQ_BASE, 0x214>().read(host)
    }

    pub fn write_enable(&self, host: &BcmHost) -> (r: RegisterWrite)
        requires
            host.wf(),
        ensures
            r.address == peripheral_register(*host, IRQ_BASE, 0x214),
            r.value == self.0,
    {
        MMIO::<IRQ_BASE, 0x214>().write(host, self.0)
    }

    /// The read for the disable set; like `read_enable`, it reads the enable register.
    pub fn read_disable(host: &BcmHost) -> (r: RegisterRead)
        requires
            host.wf(),
        ensures
            r.address == peripheral_register(*host, IRQ_BASE, 0x214),
    {
        MMIO::<IRQ_BASE, 0x214>().read(host)
    }

    /// The write for the disable set; like `write_enable`, it goes to the enable register.
    pub fn write_disable(&self, host: &BcmHost) -> (r: RegisterWrite)
        requires
            host.wf(),
        ensures
            r.address == peripheral_register(*host, IRQ_BASE, 0x214),
            r.value == self.0,
    {
        MMIO::<IRQ_BASE, 0x214>().write(host, self.0)
    }
}

impl BasicIrqs {
    pub fn read_pending(host: &BcmHost) -> (r: RegisterRead)
        requires
            host.wf(),
        ensures
            r.address == peripheral_register(*host, IRQ_BASE, 0x200),
    {
        MMIO::<IRQ_BASE, 0x200>().read(host)
    }

    pub fn read_enable(host: &BcmHost) -> (r: RegisterRead)
        requires
            host.wf(),
        ensures
            r.address == peripheral_register(*host, IRQ_BASE, 0x218),
    {
        MMIO::<IRQ_BASE, 0x218>().read(host)
    }

    pub fn write_enable(&self, host: &BcmHost) -> (r: RegisterWrite)
        requires
            host.wf(),
        ensures
            r.address == peripheral_register(*host, IRQ_BASE, 0x218),
            r.value == self.0,
    {
        MMIO::<IRQ_BASE, 0x218>().write(host, self.0)
    }

    /// The read for the disable set; like `read_enable`, it reads the enable register.
    pub fn read_disable(host: &BcmHost) -> (r: RegisterRead)
        requires
            host.wf(),
        ensures
            r.address == peripheral_register(*host, IRQ_BASE, 0x218),
    {
        MMIO::<IRQ_BASE, 0x218>().read(host)
    }

    /// The write for the disable set; like `write_enable`, it goes to the enable register.
    pub fn write_disable(&self, host: &BcmHost) -> (r: RegisterWrite)
        requires
            host.wf(),
        ensures
            r.address == peripheral_register(*host, IRQ_BASE, 0x218),
            r.value == self.0,
    {
        MMIO::<IRQ_BASE, 0x218>().write(host, self.0)
    }
}

/// Sources that can be routed to the FIQ.
#[derive(Clone, Copy, PartialEq, Eq, Structural)]
pub enum FiqSource {
    GpuAuxInterrupt,
    GpuI2cSpiSlvInterrupt,
    GpuPwa0,
    GpuPwa1,
    GpuSmi,
    GpioInt0,
    GpioInt1,
    GpioInt2,
    GpioInt3,
    I2cInt,
    SpiInt,
    PcmInt,
    UartInt,
    ArmTimerInterrupt,
    ArmMailboxInterrupt,
    ArmDoorbell0Interrupt,
    ArmDoorbell1Interrupt,
    Gpu0HaltedInterruptOrGpu1,
    Gpu1HaltedInterrupt,
    IllegalAccessType1Interrupt,
    IllegalAccessType0Interrupt,
}

impl FiqSource {
    pub open spec fn spec_number(self) -> u32 {
        match self {
            FiqSource::GpuAuxInterrupt => 29,
            FiqSource::GpuI2cSpiSlvInterrupt => 43,
            FiqSource::GpuPwa0 => 45,
            FiqSource::GpuPwa1 => 46,
            FiqSource::GpuSmi => 48,
            FiqSource::GpioInt0 => 49,
            FiqSource::GpioInt1 => 50,
            FiqSource::GpioInt2 => 51,
            FiqSource::GpioInt3 => 52,
            FiqSource::I2cInt => 53,
            FiqSource::SpiInt => 54,
            FiqSource::PcmInt => 55,
            FiqSource::UartInt => 57,
            FiqSource::ArmTimerInterrupt => 64,
            FiqSource::ArmMailboxInterrupt => 65,
            FiqSource::ArmDoorbell0Interrupt => 66,
            FiqSource::ArmDoorbell1Interrupt => 67,
            FiqSource::Gpu0HaltedInterruptOrGpu1 => 68,
            FiqSource::Gpu1HaltedInterrupt => 69,
            FiqSource::IllegalAccessType1Interrupt => 70,
            FiqSource::IllegalAccessType0Interrupt => 71,
        }
    }

    /// The source's number in the FIQ control register.
    pub fn number(&self) -> (r: u32)
        ensures
            r == self.spec_number(),
    {
        match self {
            FiqSource::GpuAuxInterrupt => 29,
            FiqSource::GpuI2cSpiSlvInterrupt => 43,
            FiqSource::GpuPwa0 => 45,
            FiqSource::GpuPwa1 => 46,
            FiqSource::GpuSmi => 48,
            FiqSource::GpioInt0 => 49,
            FiqSource::GpioInt1 => 50,
            FiqSource::GpioInt2 => 51,
            FiqSource::GpioInt3 => 52,
            FiqSource::I2cInt => 53,
            FiqSource::SpiInt => 54,
            FiqSource::PcmInt => 55,
            FiqSource::UartInt => 57,
            FiqSource::ArmTimerInterrupt => 64,
            FiqSource::ArmMailboxInterrupt => 65,
            FiqSource::ArmDoorbell0Interrupt => 66,
            FiqSource::ArmDoorbell1Interrupt => 67,
            FiqSource::Gpu0HaltedInterruptOrGpu1 => 68,
            FiqSource::Gpu1HaltedInterrupt => 69,
            FiqSource::IllegalAccessType1Interrupt => 70,
            FiqSource::IllegalAccessType0Interrupt => 71,
        }
    }
}

/// The FIQ control register: enable bit 7, source in bits 0 to 6.
#[derive(Clone, Copy, PartialEq, Eq, Structural)]
pub struct Fiq(pub u32);

impl Fiq {
    pub fn read_register(host: &BcmHost) -> (r: RegisterRead)
        requires
            host.wf(),
        ensures
            r.address == peripheral_register(*host, IRQ_BASE, 0x20c),
    {
        MMIO::<IRQ_BASE, 0x20c>().read(host)
    }

    pub fn write_register(&self, host: &BcmHost) -> (r: RegisterWrite)
        requires
            host.wf(),
        ensures
            r.address == peripheral_register(*host, IRQ_BASE, 0x20c),
            r.value == self.0,
    {
        MMIO::<IRQ_BASE, 0x20c>().write(host, self.0)
    }

    pub fn fiq_enable(&self) -> (r: bool)
        ensures
            r == bit32(self.0, 7),
    {
        bit_test32(self.0, 7)
    }

    /// The source number, bits 0 to 6.
    pub fn fiq_source(&self) -> (r: u32)
        ensures
            r == field32(self.0, 0, 7),
    {
        get_field32(self.0, 0, 7)
    }
}

} // verus!
