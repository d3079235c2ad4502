pub mod dma;
pub mod gpio;
pub mod interrupts;
pub mod mailbox;
pub mod mmio;
pub mod power;
pub mod system_timer;
pub mod uart;
pub mod usb;

use vstd::prelude::*;
use crate::hal::info::MemoryBlock;

verus! {

/// Where a Broadcom SoC maps its peripherals and its SDRAM.
#[derive(Clone, Copy)]
pub struct BcmHost {
    pub peripheral_address: usize,
    pub peripheral_size: usize,
    pub peripheral_range_inclusive: (usize, usize),
    pub sdram_address: usize,
}

impl BcmHost {
    /// The peripheral window lies inside the address space and spans at least the
    /// 16 MiB in which every peripheral register of this library sits.
    pub open spec fn wf(&self) -> bool {
        &&& self.peripheral_size >= 0x0100_0000
        &&& self.peripheral_address + self.peripheral_size <= usize::MAX
    }
}

/// The BCM2711 (Raspberry Pi 4).
pub fn bcm2711() -> (r: BcmHost)
    ensures
        r.peripheral_address == 0xFE00_0000,
        r.peripheral_size == 0x0180_0000,
        r.peripheral_range_inclusive == (0xFE00_0000usize, 0xFFFF_FFFFusize),
        r.sdram_address == 0xC000_0000,
{
    BcmHost {
        peripheral_address: 0xFE00_0000,
        peripheral_size: 0x0180_0000,
        peripheral_range_inclusive: (0xFE00_0000, 0xFFFF_FFFF),
        sdram_address: 0xC000_0000,
    }
}

/// The BCM2837 (Raspberry Pi 3).
pub fn bcm2837() -> (r: BcmHost)
    ensures
        r.peripheral_address == 0x3F00_0000,
        r.peripheral_size == 0x0100_0000,
        r.peripheral_range_inclusive == (0x3F00_0000usize, 0x3FFF_FFFFusize),
        r.sdram_address == 0xC000_0000,
{
    BcmHost {
        peripheral_address: 0x3F00_0000,
        peripheral_size: 0x0100_0000,
        peripheral_range_inclusive: (0x3F00_0000, 0x3FFF_FFFF),
        sdram_address: 0xC000_0000,
    }
}


/// Number of regions in the BCM2837 peripheral map.
pub const REGION_COUNT: usize = 19;

/// Offset of region `i` of the BCM2837 peripheral map in the peripheral window.
pub open spec fn region_offset(i: int) -> usize {
        if i == 0 { 0x3000 }
        else if i == 1 { 0x7000 }
        else if i == 2 { 0xb000 }
        else if i == 3 { 0xb000 }
        else if i == 4 { 0xb880 }
        else if i == 5 { 0x200000 }
        else if i == 6 { 0x201000 }
        else if i == 7 { 0x203000 }
        else if i == 8 { 0x215000 }
        else if i == 9 { 0x204000 }
        else if i == 10 { 0x205000 }
        else if i == 11 { 0x20c000 }
        else if i == 12 { 0x20c400 }
        else if i == 13 { 0x300000 }
        else if i == 14 { 0x804000 }
        else if i == 15 { 0x805000 }
        else if i == 16 { 0x980000 }
        else if i == 17 { 0x980400 }
        else if i == 18 { 0x980e00 }
        else { 0 }
}

/// Size in bytes of region `i` of the BCM2837 peripheral map.
pub open spec fn region_size(i: int) -> usize {
        if i == 0 { 0x1c }
        else if i == 1 { 0x700 }
        else if i == 2 { 0x228 }
        else if i == 3 { 0x424 }
        else if i == 4 { 0x0 }
        else if i == 5 { 0xb1 }
        else if i == 6 { 0x100 }
        else if i == 7 { 0x24 }
        else if i == 8 { 0xd6 }
        else if i == 9 { 0x18 }
        else if i == 10 { 0xd6 }
        else if i == 11 { 0x28 }
        else if i == 12 { 0x28 }
        else if i == 13 { 0x100 }
        else if i == 14 { 0xd6 }
        else if i == 15 { 0x20 }
        else if i == 16 { 0x400 }
        else if i == 17 { 0xa00 }
        else if i == 18 { 0x0 }
        else { 0 }
}

/// Name of region `i` of the BCM2837 peripheral map.
pub open spec fn region_name(i: int) -> Seq<char> {
        if i == 0 { "System Timers"@ }
        else if i == 1 { "DMA Controller"@ }
        else if i == 2 { "Interrupt Controller"@ }
        else if i == 3 { "Timers (ARM Side)"@ }
        else if i == 4 { "Mailbox"@ }
        else if i == 5 { "GPIO"@ }
        else if i == 6 { "Uart"@ }
        else if i == 7 { "PCM / I2S"@ }
        else if i == 8 { "Aux Peripherals (MiniUART, SPI1 & 2)"@ }
        else if i == 9 { "SPI0"@ }
        else if i == 10 { "BSC0"@ }
        else if i == 11 { "PWM1"@ }
        else if i == 12 { "PWM2"@ }
        else if i == 13 { "EMMC"@ }
        else if i == 14 { "BSC1"@ }
        else if i == 15 { "BSC2"@ }
        else if i == 16 { "USB Core"@ }
        else if i == 17 { "USB Host"@ }
        else if i == 18 { "USB POWER"@ }
        else { ""@ }
}

/// A named block of the peripheral window.
pub struct PeripheralRegion {
    pub name: &'static str,
    pub block: MemoryBlock,
}

fn region_entry(i: usize) -> (r: (&'static str, usize, usize))
    requires
        i < REGION_COUNT,
    ensures
        r.0@ == region_name(i as int),
        r.1 == region_offset(i as int),
        r.2 == region_size(i as int),
        r.1 + r.2 <= 0x99_0000,
{
        if i == 0 { ("System Timers", 0x3000, 0x1c) }
        else if i == 1 { ("DMA Controller", 0x7000, 0x700) }
        else if i == 2 { ("Interrupt Controller", 0xb000, 0x228) }
        else if i == 3 { ("Timers (ARM Side)", 0xb000, 0x424) }
        else if i == 4 { ("Mailbox", 0xb880, 0x0) }
        else if i == 5 { ("GPIO", 0x200000, 0xb1) }
        else if i == 6 { ("Uart", 0x201000, 0x100) }
        else if i == 7 { ("PCM / I2S", 0x203000, 0x24) }
        else if i == 8 { ("Aux Peripherals (MiniUART, SPI1 & 2)", 0x215000, 0xd6) }
        else if i == 9 { ("SPI0", 0x204000, 0x18) }
        else if i == 10 { ("BSC0", 0x205000, 0xd6) }
        else if i == 11 { ("PWM1", 0x20c000, 0x28) }
        else if i == 12 { ("PWM2", 0x20c400, 0x28) }
        else if i == 13 { ("EMMC", 0x300000, 0x100) }
        else if i == 14 { ("BSC1", 0x804000, 0xd6) }
        else if i == 15 { ("BSC2", 0x805000, 0x20) }
        else if i == 16 { ("USB Core", 0x980000, 0x400) }
        else if i == 17 { ("USB Host", 0x980400, 0xa00) }
        else if i == 18 { ("USB POWER", 0x980e00, 0x0) }
        else { ("", 0, 0) }
}

/// The map of the peripherals.
pub struct PeripheralMap();

impl PeripheralMap {
    /// The named blocks of the BCM2837 peripherals, at their addresses when the window
    /// starts at `peripheral_address`.
    pub fn regions(peripheral_address: usize) -> (r: Vec<PeripheralRegion>)
        requires
            peripheral_address + 0x99_0000 <= usize::MAX,
        ensures
            r@.len() == REGION_COUNT,
            forall|i: int| 0 <= i < REGION_COUNT ==> {
                &&& (#[trigger] r@[i]).name@ == region_name(i)
                &&& r@[i].block == MemoryBlock((peripheral_address + region_offset(i)) as usize,
                    (peripheral_address + region_offset(i) + region_size(i)) as usize)
            },
    {
        let mut out: Vec<PeripheralRegion> = Vec::new();
        let mut i: usize = 0;
        while i < REGION_COUNT
            invariant
                i <= REGION_COUNT,
                peripheral_address + 0x99_0000 <= usize::MAX,
                out@.len() == i,
                forall|j: int| 0 <= j < i ==> {
                    &&& (#[trigger] out@[j]).name@ == region_name(j)
                    &&& out@[j].block == MemoryBlock((peripheral_address + region_offset(j)) as usize,
                        (peripheral_address + region_offset(j) + region_size(j)) as usize)
                },
            decreases REGION_COUNT - i,
        {
            let (name, offset, size) = region_entry(i);
            let block = MemoryBlock::from_address_and_size(peripheral_address + offset, size);
            out.push(PeripheralRegion { name, block });
            i += 1;
        }
        out
    }
}

} // verus!
