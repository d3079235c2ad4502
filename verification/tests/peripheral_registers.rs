use lib::exception::{irq_handler, ExceptionClass, ExceptionSyndrome, InstructionLength};
use lib::hal::info::MemoryBlock;
use lib::peripherals::dma::{
    dma_copy_slice, dma_copy_slice2d, Dma2dStride, DmaControlAndStatus, DmaControlBlock, DmaStandardChannel, DmaStep,
    DmaTransferInformation, DmaTransferLength, Slice2dLayout,
};
use lib::peripherals::interrupts::{
    irq_disable, irq_disabled, irq_enable, irq_enabled, BasicIrqs, Fiq, FiqSource, GpuIrqs1, GpuIrqs2,
    IrqPendingBase,
};
use lib::peripherals::mmio::{DynamicMmioField, Mmio, Register, RegisterRead, RegisterWrite, MMIO};
use lib::peripherals::system_timer::{ControlAndStatus, SystemTimer};
use lib::peripherals::usb::{DwHciCore, DwHciCoreHwCfg2, FsPhyType, HsPhyType};
use lib::peripherals::{bcm2711, bcm2837, PeripheralMap, REGION_COUNT};

#[test]
fn mmio_addresses_depend_on_the_host() {
    let pi3 = bcm2837();
    let pi4 = bcm2711();
    assert_eq!(Mmio::<0x3000, 0x4>().address(&pi3), 0x3F00_3004);
    assert_eq!(Mmio::<0x3000, 0x4>().address(&pi4), 0xFE00_3004);
    assert!(Mmio::<0x3000, 0x8>().read(&pi3) == RegisterRead { address: 0x3F00_3008 });
    assert!(MMIO::<0xB000, 0x210>().write(&pi3, 7) == RegisterWrite { address: 0x3F00_B210, value: 7 });
}

#[test]
fn masked_update_keeps_the_unmasked_bits() {
    let pi3 = bcm2837();
    let w = Mmio::<0x200000, 0x94>().update(&pi3, 0x0F0F, 0x1234, 0xFF00);
    assert_eq!(w.address, 0x3F20_0094);
    assert_eq!(w.value, 0xF204);
    let w = MMIO::<0x200000, 0x94>().update(&pi3, 0xFFFF_FFFF, 0x1234, 0xFF00);
    assert_eq!(w.value, 0x1234);
    let w = MMIO::<0x200000, 0x94>().update(&pi3, 0, 0x1234, 0xFF00);
    assert_eq!(w.value, 0xFF00);
}

#[test]
fn register_pointer_adds_block_address() {
    let r = Register::<0x3F00_0000, 0x18>::at(0x20_1000);
    assert_eq!(r.as_ptr(), 0x3F20_1018);
    assert_eq!(r.as_mut_ptr(), 0x3F20_1018);
    assert_eq!(Register::<0x3F00_0000, 0x18>::no_offset().as_ptr(), 0x3F00_0018);
}

#[test]
fn dynamic_field_reads_back_its_last_write() {
    let mut f = DynamicMmioField::init(3u32);
    assert_eq!(f.read(), 3);
    f.write(9);
    assert_eq!(f.read(), 9);
}

#[test]
fn system_timer_counter_and_matches() {
    let pi3 = bcm2837();
    assert_eq!(SystemTimer::counter(1, 2), 0x1_0000_0002);
    assert_eq!(SystemTimer::counter(0xFFFF_FFFF, 0xFFFF_FFFF), u64::MAX);
    let m = SystemTimer::matches(0xFF);
    assert!(m == ControlAndStatus(0xF));
    assert!(m.match_0() && m.match_3());
    assert!(!SystemTimer::matches(0x2).match_0());
    let w = SystemTimer::clear_matches(&pi3, ControlAndStatus(0x13));
    assert_eq!(w.address, 0x3F00_3000);
    assert_eq!(w.value, 0x3);
    assert!(SystemTimer::set_compare_1(&pi3, 55) == RegisterWrite { address: 0x3F00_3010, value: 55 });
    assert_eq!(SystemTimer::compare_3(&pi3).address, 0x3F00_3018);
    assert_eq!(SystemTimer::counter_low(&pi3).address, 0x3F00_3004);
    assert_eq!(SystemTimer::counter_high(&pi3).address, 0x3F00_3008);
}

#[test]
fn daif_irq_mask_bit() {
    assert!(irq_enabled(0));
    assert!(!irq_disabled(0));
    assert_eq!(irq_disable(0), 0x80);
    assert!(irq_disabled(0x80));
    assert_eq!(irq_enable(0x3C0), 0x340);
    assert_eq!(irq_enable(0x340), 0x340);
}

#[test]
fn interrupt_controller_registers() {
    let pi3 = bcm2837();
    assert_eq!(IrqPendingBase::read_register(&pi3).address, 0x3F00_B200);
    assert_eq!(GpuIrqs1::read_pending(&pi3).address, 0x3F00_B204);
    assert_eq!(GpuIrqs2::read_enable(&pi3).address, 0x3F00_B214);
    assert_eq!(BasicIrqs::read_enable(&pi3).address, 0x3F00_B218);
    // the disable writes go to the enable registers
    assert_eq!(GpuIrqs1(1).write_disable(&pi3).address, 0x3F00_B210);
    assert_eq!(BasicIrqs::read_disable(&pi3).address, 0x3F00_B218);
    assert_eq!(GpuIrqs1(0xF).system_timers(), 0xF);
    assert!(GpuIrqs2(1 << 25).uart_int());
    let fiq = Fiq(0x80 | 57);
    assert!(fiq.fiq_enable());
    assert_eq!(fiq.fiq_source(), FiqSource::UartInt.number());
    assert_eq!(Fiq(3).write_register(&pi3).address, 0x3F00_B20C);
}

#[test]
fn irq_dispatch_follows_pending_registers() {
    let w = irq_handler(IrqPendingBase(1 << 8), GpuIrqs1(0b0010), GpuIrqs2(0));
    assert!(w.system_timer && !w.uart);
    let w = irq_handler(IrqPendingBase(1 << 9), GpuIrqs1(0b0010), GpuIrqs2(1 << 25));
    assert!(!w.system_timer && w.uart);
    // a GPU register is ignored when the base register does not point to it
    let w = irq_handler(IrqPendingBase(0), GpuIrqs1(0xF), GpuIrqs2(1 << 25));
    assert!(!w.system_timer && !w.uart);
}

#[test]
fn exception_syndrome_fields() {
    // SVC from AArch64: class 0x15, 32-bit instruction, immediate 0x42
    let esr = ExceptionSyndrome((0x15u64 << 26) | (1 << 25) | 0x42);
    assert!(esr.exception_class() == Some(ExceptionClass::TrappedSVCInstructionAArch64));
    assert!(esr.instruction_length() == InstructionLength::Trapped32bitInstruction);
    assert_eq!(esr.instruction_specific_syndrome(), 0x42);
    assert!(ExceptionSyndrome(0x25u64 << 26).exception_class() == Some(ExceptionClass::DataAbortFromSameEL));
    assert!(ExceptionSyndrome(0).instruction_length() == InstructionLength::Trapped16bitInstruction);
    // code 16 names no class
    assert!(ExceptionClass::from_code(16).is_none());
    assert!(ExceptionClass::from_code(0x3c) == Some(ExceptionClass::BRKInstructionAArch64));
    assert_eq!(ExceptionClass::Reserved0x0c.code(), 11);
    assert_eq!(ExceptionClass::Reserved0x11.code(), 15);
}

#[test]
fn usb_core_registers_and_fields() {
    let pi3 = bcm2837();
    assert_eq!(DwHciCore::vendor_id(&pi3).address, 0x3F98_0040);
    assert_eq!(DwHciCore::get_reset(&pi3).address, 0x3F98_0010);
    let (c1, c2, c3, c4) = DwHciCore::hw_config(&pi3);
    assert_eq!((c1.address, c2.address, c3.address, c4.address), (0x3F98_0044, 0x3F98_0048, 0x3F98_004C, 0x3F98_0050));
    let cfg = DwHciCoreHwCfg2((7 << 14) | (2 << 6) | (1 << 8));
    assert_eq!(cfg.num_host_channels_actual(), 8);
    assert!(cfg.hs_phy_type() == HsPhyType::Ulpi);
    assert!(cfg.fs_phy_type() == FsPhyType::Dedicated);
    assert_eq!(DwHciCoreHwCfg2(0xF << 14).num_host_channels_actual(), 16);
    assert!(HsPhyType::from(7) == HsPhyType::UtmiAndUlpi);
}

#[test]
fn dma_values() {
    assert_eq!(DmaTransferInformation::wide_copy().0, 0x2330);
    assert_eq!(DmaTransferInformation::narrow_copy().0, 0x8110);
    assert_eq!(DmaTransferInformation::wide_copy().with_2d_mode().0, 0x2332);
    assert_eq!(DmaControlAndStatus(1).clear_interrupt().0, 5);
    assert_eq!(Dma2dStride::new(-1, 2).as_u32(), 0x0002_FFFF);
    assert_eq!(Dma2dStride::none().as_u32(), 0);
    let len = DmaTransferLength::new_2d(640, 480);
    assert_eq!(len.x_byte_len(), 640);
    assert_eq!(len.y_count(), 480);
    assert_eq!(DmaTransferLength::new_linear(64).linear(), 64);
    assert_eq!(DmaStandardChannel::channel(1).0, 0x7100);
}

#[test]
fn dma_control_blocks() {
    let cb = DmaControlBlock::copy_slice(0x1000, 16, 0x2000, 16, 4);
    assert_eq!(cb.transfer_information.0, 0x2330);
    assert_eq!(cb.source_address, 0x1000);
    assert_eq!(cb.destination_address, 0x2000);
    assert_eq!(cb.transfer_length.0, 64);
    assert_eq!(cb.next_control_block_address, 0);
    let ti = DmaTransferInformation::wide_copy().with_2d_mode();
    let cb = DmaControlBlock::new_2d_copy(ti, 1, 2, 10, 32, -4, 8, 0x100);
    assert_eq!(cb.transfer_length.0, 32 + (10 << 16));
    assert!(cb.stride == Dma2dStride { source: -4, destination: 8 });
    assert_eq!(cb.next_control_block_address, 0x100);
}

#[test]
fn dma_copy_plan() {
    let pi3 = bcm2837();
    let (cb, steps) = dma_copy_slice(&pi3, 0x1000, 4, 0x2000, 4, 4, 0x8000);
    assert_eq!(cb.transfer_length.0, 16);
    assert_eq!(steps.len(), 4);
    assert!(steps[0] == DmaStep::Write(RegisterWrite { address: 0x3F00_7004, value: 0x8000 }));
    assert!(steps[1] == DmaStep::SetBits { address: 0x3F00_7000, mask: 1 });
    assert!(steps[2] == DmaStep::WaitUntilSet { address: 0x3F00_7000, mask: 2 });
    assert!(steps[3] == DmaStep::SetBits { address: 0x3F00_7000, mask: 2 });
}

#[test]
fn peripheral_map_regions() {
    let regions = PeripheralMap::regions(0x3F00_0000);
    assert_eq!(regions.len(), REGION_COUNT);
    assert_eq!(regions[0].name, "System Timers");
    assert!(regions[0].block == MemoryBlock(0x3F00_3000, 0x3F00_301c));
    assert_eq!(regions[6].name, "Uart");
    assert!(regions[6].block == MemoryBlock(0x3F20_1000, 0x3F20_1100));
    assert_eq!(regions[REGION_COUNT - 1].name, "USB POWER");
    assert_eq!(regions[REGION_COUNT - 1].block.byte_size(), 0);
}

#[test]
fn dma_2d_copy_of_slices_with_row_skips() {
    // a 100 x 4 window of a 128-element wide u32 buffer, into a tight 100 x 4 buffer
    let src = Slice2dLayout { address: 0x10_0000, width: 100, height: 4, pitch: 128, buffer_len: 512 };
    let dst = Slice2dLayout { address: 0x20_0000, width: 100, height: 4, pitch: 100, buffer_len: 400 };
    let cb = DmaControlBlock::copy_slice2d(&src, &dst, 4);
    assert!(cb.transfer_information == DmaTransferInformation(0x2332));
    assert!(cb.transfer_length == DmaTransferLength(400 + 0x1_0000 * 4));
    assert!(cb.stride == Dma2dStride { source: 112, destination: 0 });
    assert_eq!(cb.source_address, 0x10_0000);
    assert_eq!(cb.destination_address, 0x20_0000);
    assert_eq!(cb.next_control_block_address, 0);
}

#[test]
fn dma_2d_copy_without_row_skips_is_linear() {
    let src = Slice2dLayout { address: 0x1000, width: 16, height: 8, pitch: 16, buffer_len: 128 };
    let dst = Slice2dLayout { address: 0x2000, width: 16, height: 8, pitch: 16, buffer_len: 128 };
    let cb = DmaControlBlock::copy_slice2d(&src, &dst, 2);
    assert!(cb.transfer_information == DmaTransferInformation(0x2330));
    assert!(cb.transfer_length == DmaTransferLength(256));
    assert!(cb.stride == Dma2dStride { source: 0, destination: 0 });
}

#[test]
fn exception_class_codes_round_trip() {
    let mut classes = 0;
    for code in 0u64..64 {
        if let Some(class) = ExceptionClass::from_code(code) {
            assert_eq!(class.code(), code);
            assert!(ExceptionClass::from_code(class.code()) == Some(class));
            classes += 1;
        }
    }
    assert_eq!(classes, 63);
    assert!(ExceptionClass::from_code(64).is_none());
}

#[test]
fn dma_copy_slice2d_on_channel_0() {
    let pi4 = bcm2711();
    let src = Slice2dLayout { address: 0x4000, width: 8, height: 2, pitch: 10, buffer_len: 20 };
    let dst = Slice2dLayout { address: 0x5000, width: 8, height: 2, pitch: 8, buffer_len: 16 };
    let (cb, steps) = dma_copy_slice2d(&pi4, &src, &dst, 1, 0x9000);
    assert!(cb.transfer_length == DmaTransferLength(8 + 0x1_0000 * 2));
    assert!(cb.stride == Dma2dStride { source: 2, destination: 0 });
    assert_eq!(steps.len(), 4);
    assert!(steps[0] == DmaStep::Write(RegisterWrite { address: 0xFE00_7004, value: 0x9000 }));
    assert!(steps[3] == DmaStep::SetBits { address: 0xFE00_7000, mask: 2 });
}
