use lib::peripherals::bcm2837;
use lib::peripherals::gpio::{Gpio, GpioStep, PinSelectIterator, PinSet, Resistor};
use lib::peripherals::mmio::{RegisterRead, RegisterWrite};
use lib::peripherals::uart::{
    Blocking, IoError, Step, Uart, UartBehavior, UartBitrate, UartControl, UartData, UartFlags,
    UartInitStep, UartInterrupts, UartLineControl, UartReadError, UartStatus, UartWordLength,
    UartWriteError,
};

#[test]
fn pin_set_select() {
    assert!(PinSet::select(&[14, 15]) == PinSet(0xC000, 0));
    assert!(PinSet::select(&[0, 33, 53]) == PinSet(1, 2 | (1 << 21)));
    assert!(PinSet::select(&[]) == PinSet(0, 0));
    assert!(PinSet::select(&[5, 5]) == PinSet(1 << 5, 0));
}

#[test]
fn pin_iterator_walks_pins_in_order() {
    let mut it = PinSelectIterator::new(PinSet::select(&[40, 3, 31, 32]));
    assert_eq!(it.next(), Some(3));
    assert_eq!(it.next(), Some(31));
    assert_eq!(it.next(), Some(32));
    assert_eq!(it.next(), Some(40));
    assert_eq!(it.next(), None);
    assert_eq!(it.position, 54);
    assert_eq!(it.next(), None);
}

#[test]
fn resistor_encodings_differ_by_chip() {
    assert_eq!(Resistor::PullDown.bcm2837_code(), 1);
    assert_eq!(Resistor::PullUp.bcm2837_code(), 2);
    assert_eq!(Resistor::PullUp.bcm2711_code(), 1);
    assert_eq!(Resistor::PullDown.bcm2711_code(), 2);
    assert_eq!(Resistor::NoPull.bcm2711_code(), 0);
}

#[test]
fn bcm2837_pull_sequence() {
    let pi3 = bcm2837();
    let steps = Gpio::set_pull_resistors(&pi3, PinSet(0xC000, 0x4), Resistor::PullUp);
    assert_eq!(steps.len(), 8);
    assert!(steps[0] == GpioStep::Write(RegisterWrite { address: 0x3F20_0094, value: 2 }));
    assert!(steps[1] == GpioStep::WaitCycles(150));
    assert!(steps[2] == GpioStep::Write(RegisterWrite { address: 0x3F20_0098, value: 0xC000 }));
    assert!(steps[3] == GpioStep::Write(RegisterWrite { address: 0x3F20_009c, value: 0x4 }));
    assert!(steps[4] == GpioStep::WaitCycles(150));
    assert!(steps[5] == GpioStep::Write(RegisterWrite { address: 0x3F20_0094, value: 0 }));
    assert!(steps[6] == GpioStep::Write(RegisterWrite { address: 0x3F20_0098, value: 0 }));
    assert!(steps[7] == GpioStep::Write(RegisterWrite { address: 0x3F20_009c, value: 0 }));
}

#[test]
fn bcm2711_single_pin_update() {
    assert_eq!(Gpio::set_pull_resistor(14, Resistor::PullUp, 0), Some(0x1000_0000));
    assert_eq!(Gpio::set_pull_resistor(14, Resistor::PullUp, 0x1000_0000), None);
    assert_eq!(Gpio::set_pull_resistor(17, Resistor::PullDown, 0xFFFF_FFFF), Some(0xFFFF_FFFB));
    let pi3 = bcm2837();
    assert_eq!(Gpio::pull_control_register(&pi3, 17), 0x3F20_00e8);
}

#[test]
fn bcm2711_bank_update_and_idempotence() {
    let pins = PinSet::select(&[14, 15, 40]);
    let state = vec![0u32, 0, 0xFFFF_FFFF, 0];
    let (new_state, updated) = Gpio::set_pull_resistors_in_banks(pins, Resistor::PullDown, &state);
    assert_eq!(new_state, vec![0xA000_0000, 0, 0xFFFE_FFFF, 0]);
    assert_eq!(updated, vec![true, false, true, false]);
    let (again, updated_again) = Gpio::set_pull_resistors_in_banks(pins, Resistor::PullDown, &new_state);
    assert_eq!(again, new_state);
    assert_eq!(updated_again, vec![false, false, false, false]);
}

#[test]
fn uart_register_values() {
    assert_eq!(UartControl::enabled().0, 0x301);
    assert_eq!(UartControl::disabled().0, 0);
    assert!(UartControl::enabled().receive_enable() && UartControl::enabled().uart_enable());
    assert_eq!(UartInterrupts::all_set().0, 0x7f2);
    let lc = UartLineControl::zero().with_word_length(UartWordLength::Bit8).with_fifo_enabled(true);
    assert_eq!(lc.0, 0x70);
    assert_eq!(lc.word_length(), 3);
    assert!(lc.fifo_enabled());
    assert_eq!(lc.with_fifo_enabled(false).0, 0x60);
    let d = UartData::new(0x941);
    assert_eq!(d.data(), 0x41);
    assert_eq!(d.status(), 0x9);
    assert!(d.overrun_error() && d.framing_error() && !d.parity_error());
}

#[test]
fn uart_baud_divisors() {
    // 3 MHz / (16 * 115200) = 1.6276 = 1 + 40/64
    assert_eq!(UartBitrate::Baud115200.to_int_frac(3_000_000), (1, 40));
    // 48 MHz: 26.04 = 26 + 2/64
    assert_eq!(UartBitrate::Baud115200.to_int_frac(48_000_000), (26, 2));
    assert_eq!(UartBitrate::Baud9600.to_int_frac(3_000_000), (19, 34));
    assert_eq!(UartBitrate::Baud75.baud(), 75);
}

#[test]
fn uart_try_put_byte() {
    let pi3 = bcm2837();
    let uart = Uart::uart_0();
    assert!(uart.try_put_byte(&pi3, UartFlags(1 << 5), b'A') == Err(UartWriteError::TransmitFifoFull));
    assert!(uart.try_put_byte(&pi3, UartFlags(0), b'A') == Ok(RegisterWrite { address: 0x3F20_1000, value: 0x41 }));
    assert!(uart.flags(&pi3) == RegisterRead { address: 0x3F20_1018 });
    assert_eq!(uart.interrupt_clear_reg(&pi3), 0x3F20_1044);
    assert_eq!(uart.interrupt_mask_reg(&pi3), 0x3F20_1038);
    assert_eq!(uart.raw_interrupt_status_reg(&pi3), 0x3F20_103c);
    assert_eq!(uart.masked_interrupt_status_reg(&pi3), 0x3F20_1040);
}

#[test]
fn uart_try_get_byte() {
    let uart = Uart::uart_0();
    assert!(uart.try_get_byte(UartFlags(1 << 4), UartData(0x41)) == Err(UartReadError::ReceiveFifoEmpty));
    assert!(uart.try_get_byte(UartFlags(0), UartData(0x41)) == Ok(0x41));
    // an overrun alone is not an error
    assert!(uart.try_get_byte(UartFlags(0), UartData(0x841)) == Ok(0x41));
    assert!(uart.try_get_byte(UartFlags(0), UartData(0x141)) == Err(UartReadError::Status(UartStatus(1))));
    assert!(uart.try_get_byte(UartFlags(0), UartData(0xC41)) == Err(UartReadError::Status(UartStatus(0xC))));
}

#[test]
fn uart_receive_errors() {
    assert!(Uart::status_error(UartStatus(0b0010)) == IoError::InvalidData);
    assert!(Uart::status_error(UartStatus(0b0001)) == IoError::InvalidData);
    assert!(Uart::status_error(UartStatus(0b1100)) == IoError::UnexpectedEof);
    assert!(Uart::status_error(UartStatus(0b1000)) == IoError::Unknown { err_code: 8 });
}

fn uart_with(read: Blocking, write: Blocking) -> Uart {
    Uart::Pl011Uart { address: 0x20_1000, behavior: UartBehavior { read_blocking: read, write_blocking: write } }
}

#[test]
fn uart_blocking_modes() {
    let never = uart_with(Blocking::Never, Blocking::Never);
    let timeout = uart_with(Blocking::TimeoutAfter(1_000_000), Blocking::TimeoutAfter(1_000_000));
    let forever = Uart::uart_0();
    let empty: Result<u8, UartReadError> = Err(UartReadError::ReceiveFifoEmpty);
    assert!(never.get_byte(&empty, false) == Step::Done(Err(IoError::WouldBlock)));
    assert!(timeout.get_byte(&empty, false) == Step::Retry);
    assert!(timeout.get_byte(&empty, true) == Step::Done(Err(IoError::TimedOut)));
    assert!(forever.get_byte(&empty, true) == Step::Retry);
    assert!(forever.get_byte(&Ok(7), false) == Step::Done(Ok(7)));
    let framing: Result<u8, UartReadError> = Err(UartReadError::Status(UartStatus(1)));
    assert!(forever.get_byte(&framing, false) == Step::Done(Err(IoError::InvalidData)));

    let full: Result<RegisterWrite, UartWriteError> = Err(UartWriteError::TransmitFifoFull);
    assert!(never.put_byte(&full, false) == Step::Done(Err(IoError::WouldBlock)));
    assert!(timeout.put_byte(&full, false) == Step::Retry);
    assert!(timeout.put_byte(&full, true) == Step::Done(Err(IoError::TimedOut)));
    assert!(forever.put_byte(&full, true) == Step::Retry);
    let sent: Result<RegisterWrite, UartWriteError> = Ok(RegisterWrite { address: 0, value: 0 });
    assert!(never.put_byte(&sent, false) == Step::Done(Ok(())));
    assert!(UartBehavior::default() == UartBehavior { read_blocking: Blocking::Indefinetly, write_blocking: Blocking::Indefinetly });
}

#[test]
fn uart_transfers_count_until_first_error() {
    let uart = Uart::uart_0();
    assert!(uart.write(&vec![Ok(()), Ok(()), Err(IoError::WouldBlock)]) == Ok(2));
    assert!(uart.write(&vec![Err(IoError::TimedOut)]) == Err(IoError::TimedOut));
    assert!(uart.write(&vec![Ok(()), Ok(()), Ok(())]) == Ok(3));
    assert!(uart.write(&vec![]) == Ok(0));
    let mut buf = vec![0u8; 4];
    assert!(uart.read(&vec![Ok(b'h'), Ok(b'i'), Err(IoError::WouldBlock)], &mut buf) == Ok(2));
    assert_eq!(buf, vec![b'h', b'i', 0, 0]);
    let mut buf = vec![9u8; 2];
    assert!(uart.read(&vec![Err(IoError::InvalidData)], &mut buf) == Err(IoError::InvalidData));
    assert_eq!(buf, vec![9, 9]);
}

#[test]
fn uart_init_sequence() {
    let pi3 = bcm2837();
    let steps = Uart::uart_0().init(&pi3, None);
    assert_eq!(steps.len(), 12);
    assert!(steps[0] == UartInitStep::Write(RegisterWrite { address: 0x3F20_1030, value: 0 }));
    assert!(steps[1] == UartInitStep::WaitWhileBusy(RegisterRead { address: 0x3F20_1018 }));
    assert!(steps[2] == UartInitStep::ClearBits { address: 0x3F20_102c, mask: 0x10 });
    assert!(steps[3] == UartInitStep::SelectAlt0(PinSet(0xC000, 0)));
    assert!(steps[4] == UartInitStep::PullResistors(PinSet(0xC000, 0), Resistor::NoPull));
    assert!(steps[5] == UartInitStep::Write(RegisterWrite { address: 0x3F20_1044, value: 0x7f2 }));
    assert!(steps[6] == UartInitStep::Write(RegisterWrite { address: 0x3F20_1024, value: 1 }));
    assert!(steps[7] == UartInitStep::Write(RegisterWrite { address: 0x3F20_1028, value: 40 }));
    assert!(steps[8] == UartInitStep::Write(RegisterWrite { address: 0x3F20_102c, value: 0x70 }));
    assert!(steps[9] == UartInitStep::Write(RegisterWrite { address: 0x3F20_1038, value: 0 }));
    assert!(steps[10] == UartInitStep::Write(RegisterWrite { address: 0x3F20_1044, value: 0x7f2 }));
    assert!(steps[11] == UartInitStep::Write(RegisterWrite { address: 0x3F20_1030, value: 0x301 }));
    let steps = Uart::uart_0().init(&pi3, Some(48_000_000));
    assert!(steps[6] == UartInitStep::Write(RegisterWrite { address: 0x3F20_1024, value: 26 }));
    assert!(steps[7] == UartInitStep::Write(RegisterWrite { address: 0x3F20_1028, value: 2 }));
}

#[test]
fn pin_iteration_gives_distinct_increasing_pins() {
    let set = PinSet::select(&[15, 14, 15, 53, 0, 32]);
    let mut it = PinSelectIterator::new(set);
    let mut seen = Vec::new();
    while let Some(p) = it.next() {
        seen.push(p);
    }
    assert_eq!(seen, vec![0, 14, 15, 32, 53]);
    assert_eq!(it.next(), None);
    assert_eq!(it.next(), None);
    let mut it = PinSelectIterator::new(PinSet::select(&[15, 14, 15]));
    assert_eq!(it.next(), Some(14));
    assert_eq!(it.next(), Some(15));
    assert_eq!(it.next(), None);
}
