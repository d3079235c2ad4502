use vstd::prelude::*;
use crate::bits::{bit32, bit_test32, field32, get_field32};
use crate::peripherals::BcmHost;
use crate::peripherals::mmio::{TypedMMIO, RegisterRead, RegisterWrite, peripheral_register};

verus! {

/// Offsets of the USB controller's blocks in the peripheral window.
pub const USB_BASE: usize = 0x980000;
pub const USB_CORE_BASE: usize = 0x980000;
pub const USB_HOST_BASE: usize = 0x980400;
pub const USB_POWER_BASE: usize = 0x980e00;

/// AHB configuration register.
#[derive(Clone, Copy, PartialEq, Eq, Structural)]
pub struct DwHciCoreAhbCfg(pub u32);

/// USB configuration register.
#[derive(Clone, Copy, PartialEq, Eq, Structural)]
pub struct DwHciCoreUsbCfg(pub u32);

/// Reset control register.
#[derive(Clone, Copy, PartialEq, Eq, Structural)]
pub struct DwHciCoreReset(pub u32);

/// Hardware configuration registers 1 to 4.
#[derive(Clone, Copy, PartialEq, Eq, Structural)]
pub struct DwHciCoreHwCfg1(pub u32);
#[derive(Clone, Copy, PartialEq, Eq, Structural)]
pub struct DwHciCoreHwCfg2(pub u32);
#[derive(Clone, Copy, PartialEq, Eq, Structural)]
pub struct DwHciCoreHwCfg3(pub u32);
#[derive(Clone, Copy, PartialEq, Eq, Structural)]
pub struct DwHciCoreHwCfg4(pub u32);

/// Core interrupt register.
#[derive(Clone, Copy, PartialEq, Eq, Structural)]
pub struct DwHciCoreInterrupts(pub u32);

/// High-speed PHY interfaces.
#[derive(Clone, Copy, PartialEq, Eq, Structural)]
pub enum HsPhyType {
    NotSupported,
    Utmi,
    Ulpi,
    UtmiAndUlpi,
}

/// Full-speed PHY interfaces.
#[derive(Clone, Copy, PartialEq, Eq, Structural)]
pub enum FsPhyType {
    Unknown0,
    Dedicated,
    Unknown2,
    Unknown3,
}

impl HsPhyType {
    pub open spec fn spec_from(value: u32) -> HsPhyType {
        let v = value % 4;
        if v == 0 { HsPhyType::NotSupported } else if v == 1 { HsPhyType::Utmi } else if v == 2 { HsPhyType::Ulpi } else { HsPhyType::UtmiAndUlpi }
    }

    /// The interface numbered by the two low bits of `value`.
    pub fn from(value: u32) -> (r: HsPhyType)
        ensures
            r == HsPhyType::spec_from(value),
    {
        let v = value % 4;
        if v == 0 { HsPhyType::NotSupported } else if v == 1 { HsPhyType::Utmi } else if v == 2 { HsPhyType::Ulpi } else { HsPhyType::UtmiAndUlpi }
    }
}

impl FsPhyType {
    pub open spec fn spec_from(value: u32) -> FsPhyType {
        let v = value % 4;
        if v == 0 { FsPhyType::Unknown0 } else if v == 1 { FsPhyType::Dedicated } else if v == 2 { FsPhyType::Unknown2 } else { FsPhyType::Unknown3 }
    }

    /// The interface numbered by the two low bits of `value`.
    pub fn from(value: u32) -> (r: FsPhyType)
        ensures
            r == FsPhyType::spec_from(value),
    {
        let v = value % 4;
        if v == 0 { FsPhyType::Unknown0 } else if v == 1 { FsPhyType::Dedicated } else if v == 2 { FsPhyType::Unknown2 } else { FsPhyType::Unknown3 }
    }
}

/// The DesignWare USB host controller core.
#[derive(Clone, Copy)]
pub struct DwHciCore {}

impl DwHciCore {
    /// The read of the vendor id register.
    pub fn vendor_id(host: &BcmHost) -> (r: RegisterRead)
        requires
            host.wf(),
        ensures
            r.address == peripheral_register(*host, USB_CORE_BASE, 0x040),
    {
        TypedMMIO::<USB_CORE_BASE, 0x040>::read(host)
    }

    /// The read of the AHB configuration.
    pub fn ahb_config(host: &BcmHost) -> (r: RegisterRead)
        requires
            host.wf(),
        ensures
            r.address == peripheral_register(*host, USB_CORE_BASE, 0x008),
    {
        TypedMMIO::<USB_CORE_BASE, 0x008>::read(host)
    }

    /// The write of the AHB configuration.
    pub fn set_ahb_config(host: &BcmHost, value: DwHciCoreAhbCfg) -> (r: RegisterWrite)
        requires
            host.wf(),
        ensures
            r.address == peripheral_register(*host, USB_CORE_BASE, 0x008),
            r.value == value.0,
    {
        TypedMMIO::<USB_CORE_BASE, 0x008>::write(host, value.0)
    }

    /// The read of the USB configuration.
    pub fn usb_config(host: &BcmHost) -> (r: RegisterRead)
        requires
            host.wf(),
        ensures
            r.address == peripheral_register(*host, USB_CORE_BASE, 0x00c),
    {
        TypedMMIO::<USB_CORE_BASE, 0x00c>::read(host)
    }

    /// The write of the USB configuration.
    pub fn set_usb_config(host: &BcmHost, value: DwHciCoreUsbCfg) -> (r: RegisterWrite)
        requires
            host.wf(),
        ensures
            r.address == peripheral_register(*host, USB_CORE_BASE, 0x00c),
            r.value == value.0,
    {
        TypedMMIO::<USB_CORE_BASE, 0x00c>::write(host, value.0)
    }

    /// The read of the reset register.
    pub fn get_reset(host: &BcmHost) -> (r: RegisterRead)
        requires
            host.wf(),
        ensures
            r.address == peripheral_register(*host, USB_CORE_BASE, 0x010),
    {
        TypedMMIO::<USB_CORE_BASE, 0x010>::read(host)
    }

    /// The write of the reset register.
    pub fn set_reset(host: &BcmHost, value: DwHciCoreReset) -> (r: RegisterWrite)
        requires
            host.wf(),
        ensures
            r.address == peripheral_register(*host, USB_CORE_BASE, 0x010),
            r.value == value.0,
    {
        TypedMMIO::<USB_CORE_BASE, 0x010>::write(host, value.0)
    }

    /// The reads of the four hardware configuration registers, in order.
    pub fn hw_config(host: &BcmHost) -> (r: (RegisterRead, RegisterRead, RegisterRead, RegisterRead))
        requires
            host.wf(),
        ensures
            r.0.address == peripheral_register(*host, USB_CORE_BASE, 0x044),
            r.1.address == peripheral_register(*host, USB_CORE_BASE, 0x048),
            r.2.address == peripheral_register(*host, USB_CORE_BASE, 0x04c),
            r.3.address == peripheral_register(*host, USB_CORE_BASE, 0x050),
    {
        (
            TypedMMIO::<USB_CORE_BASE, 0x044>::read(host),
            TypedMMIO::<USB_CORE_BASE, 0x048>::read(host),
            TypedMMIO::<USB_CORE_BASE, 0x04c>::read(host),
            TypedMMIO::<USB_CORE_BASE, 0x050>::read(host),
        )
    }

    /// The read of the interrupt status register.
    pub fn interrupt_state(host: &BcmHost) -> (r: RegisterRead)
        requires
            host.wf(),
        ensures
            r.address == peripheral_register(*host, USB_CORE_BASE, 0x014),
    {
        TypedMMIO::<USB_CORE_BASE, 0x014>::read(host)
    }

    /// The write of the interrupt status register.
    pub fn set_interrupt_state(host: &BcmHost, value: DwHciCoreInterrupts) -> (r: RegisterWrite)
        requires
            host.wf(),
        ensures
            r.address == peripheral_register(*host, USB_CORE_BASE, 0x014),
            r.value == value.0,
    {
        TypedMMIO::<USB_CORE_BASE, 0x014>::write(host, value.0)
    }
}

impl DwHciCoreAhbCfg {
    pub fn enable_global_interrupt(&self) -> (r: bool)
        ensures
            r == bit32(self.0, 0),
    {
        bit_test32(self.0, 0)
    }

    pub fn max_axi_burst(&self) -> (r: u32)
        ensures
            r == field32(self.0, 1, 2),
    {
        get_field32(self.0, 1, 2)
    }

    pub fn wait_axi_writes(&self) -> (r: bool)
        ensures
            r == bit32(self.0, 4),
    {
        bit_test32(self.0, 4)
    }

    pub fn enable_dma(&self) -> (r: bool)
        ensures
            r == bit32(self.0, 5),
    {
        bit_test32(self.0, 5)
    }
}

impl DwHciCoreUsbCfg {
    pub fn phyif(&self) -> (r: bool)
        ensures
            r == bit32(self.0, 3),
    {
        bit_test32(self.0, 3)
    }

    pub fn ulpi_utmi_sel(&self) -> (r: bool)
        ensures
            r == bit32(self.0, 4),
    {
        bit_test32(self.0, 4)
    }

    pub fn srp_capable(&self) -> (r: bool)
        ensures
            r == bit32(self.0, 8),
    {
        bit_test32(self.0, 8)
    }

    pub fn hnp_capable(&self) -> (r: bool)
        ensures
            r == bit32(self.0, 9),
    {
        bit_test32(self.0, 9)
    }
}

impl DwHciCoreReset {
    pub fn soft_reset(&self) -> (r: bool)
        ensures
            r == bit32(self.0, 0),
    {
        bit_test32(self.0, 0)
    }

    pub fn rx_fifo_flush(&self) -> (r: bool)
        ensures
            r == bit32(self.0, 4),
    {
        bit_test32(self.0, 4)
    }

    pub fn tx_fifo_flush(&self) -> (r: bool)
        ensures
            r == bit32(self.0, 5),
    {
        bit_test32(self.0, 5)
    }

    pub fn tx_fifo_num(&self) -> (r: u32)
        ensures
            r == field32(self.0, 6, 5),
    {
        get_field32(self.0, 6, 5)
    }

    pub fn ahb_idle(&self) -> (r: bool)
        ensures
            r == bit32(self.0, 31),
    {
        bit_test32(self.0, 31)
    }
}

impl DwHciCoreHwCfg2 {
    pub fn op_mode(&self) -> (r: u32)
        ensures
            r == field32(self.0, 0, 3),
    {
        get_field32(self.0, 0, 3)
    }

    pub fn architecture(&self) -> (r: u32)
        ensures
            r == field32(self.0, 3, 2),
    {
        get_field32(self.0, 3, 2)
    }

    pub fn num_host_channels(&self) -> (r: u32)
        ensures
            r == field32(self.0, 14, 4),
    {
        get_field32(self.0, 14, 4)
    }

    pub fn hs_phy_type(&self) -> (r: HsPhyType)
        ensures
            r == HsPhyType::spec_from(field32(self.0, 6, 2)),
    {
        HsPhyType::from(get_field32(self.0, 6, 2))
    }

    pub fn fs_phy_type(&self) -> (r: FsPhyType)
        ensures
            r == FsPhyType::spec_from(field32(self.0, 8, 2)),
    {
        FsPhyType::from(get_field32(self.0, 8, 2))
    }

    /// The number of host channels: the field counts them from zero.
    pub fn num_host_channels_actual(self) -> (r: u32)
        ensures
            r == field32(self.0, 14, 4) + 1,
    {
        let n = get_field32(self.0, 14, 4);
        assert(n < u32::MAX) by {
            crate::bits::lemma_field32_bound(self.0, 14, 4);
        }
        n + 1
    }
}

impl DwHciCoreHwCfg3 {
    pub fn dfifo_depth(&self) -> (r: u32)
        ensures
            r == field32(self.0, 16, 15),
    {
        get_field32(self.0, 16, 15)
    }
}

impl DwHciCoreHwCfg4 {
    pub fn enable_ded_fifo(&self) -> (r: bool)
        ensures
            r == bit32(self.0, 25),
    {
        bit_test32(self.0, 25)
    }

    pub fn num_in_eps(&self) -> (r: u32)
        ensures
            r == field32(self.0, 26, 4),
    {
        get_field32(self.0, 26, 4)
    }
}

impl DwHciCoreInterrupts {
    pub fn mode_mismatch(&self) -> (r: bool)
        ensures
            r == bit32(self.0, 1),
    {
        bit_test32(self.0, 1)
    }

    pub fn sof(&self) -> (r: bool)
        ensures
            r == bit32(self.0, 3),
    {
        bit_test32(self.0, 3)
    }

    pub fn port(&self) -> (r: bool)
        ensures
            r == bit32(self.0, 24),
    {
        bit_test32(self.0, 24)
    }

    pub fn hc(&self) -> (r: bool)
        ensures
            r == bit32(self.0, 25),
    {
        bit_test32(self.0, 25)
    }

    pub fn disconnect(&self) -> (r: bool)
        ensures
            r == bit32(self.0, 29),
    {
        bit_test32(self.0, 29)
    }
}

} // verus!
