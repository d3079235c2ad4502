use vstd::prelude::*;
use crate::bits::{bit32, bit_test32, field32, get_field32, with_field32, set_field32};
use crate::peripherals::BcmHost;
use crate::peripherals::gpio::{PinSet, Resistor};
use crate::peripherals::mmio::{RegisterRead, RegisterWrite};

verus! {

/// Errors of byte-stream input and output.
#[derive(Clone, Copy, PartialEq, Eq, Structural)]
pub enum IoError {
    WouldBlock,
    TimedOut,
    InvalidData,
    UnexpectedEof,
    Unknown { err_code: i32 },
}

/// How long a transfer waits for the hardware: not at all, up to a number of
/// nanoseconds, or for as long as it takes.
#[derive(Clone, Copy, PartialEq, Eq, Structural)]
pub enum Blocking {
    Never,
    TimeoutAfter(u128),
    Indefinetly,
}

/// How reads and writes of a UART wait.
#[derive(Clone, Copy, PartialEq, Eq, Structural)]
pub struct UartBehavior {
    pub read_blocking: Blocking,
    pub write_blocking: Blocking,
}

impl UartBehavior {
    /// Both directions wait indefinitely.
    pub fn default() -> (r: Self)
        ensures
            r.read_blocking == Blocking::Indefinetly,
            r.write_blocking == Blocking::Indefinetly,
    {
        UartBehavior { read_blocking: Blocking::Indefinetly, write_blocking: Blocking::Indefinetly }
    }
}

/// Offset of the PL011 UART in the peripheral window.
pub const UART_BASE: usize = 0x201000;

/// Register offsets of a PL011 UART.
pub const UART_DR: usize = 0x00;
pub const UART_RSRECR: usize = 0x04;
pub const UART_FR: usize = 0x18;
pub const UART_ILPR: usize = 0x20;
pub const UART_IBRD: usize = 0x24;
pub const UART_FBRD: usize = 0x28;
pub const UART_LCRH: usize = 0x2c;
pub const UART_CR: usize = 0x30;
pub const UART_IFLS: usize = 0x34;
pub const UART_IMSC: usize = 0x38;
pub const UART_RIS: usize = 0x3c;
pub const UART_MIS: usize = 0x40;
pub const UART_ICR: usize = 0x44;
pub const UART_DMACR: usize = 0x48;

/// A UART: its register block (offset in the peripheral window) and how it waits.
#[derive(Clone, Copy, PartialEq, Eq, Structural)]
pub enum Uart {
    Pl011Uart { address: usize, behavior: UartBehavior },
    MiniUart { address: usize, behavior: UartBehavior },
}

/// The receive error of a read.
#[derive(Clone, Copy, PartialEq, Eq, Structural)]
pub enum UartReadError {
    ReceiveFifoEmpty,
    Status(UartStatus),
}

/// The transmit error of a write.
#[derive(Clone, Copy, PartialEq, Eq, Structural)]
pub enum UartWriteError {
    TransmitFifoFull,
}

/// What a blocking transfer does after an attempt: finish with a result, or try again.
#[derive(PartialEq, Eq, Structural)]
pub enum Step<T> {
    Done(T),
    Retry,
}

/// The data register: received byte in bits 0 to 7, error flags in bits 8 to 11.
#[derive(Clone, Copy, PartialEq, Eq, Structural)]
pub struct UartData(pub u32);

/// Receive error flags: overrun 3, break 2, parity 1, framing 0.
#[derive(Clone, Copy, PartialEq, Eq, Structural)]
pub struct UartStatus(pub u32);

/// The flag register.
#[derive(Clone, Copy, PartialEq, Eq, Structural)]
pub struct UartFlags(pub u32);

/// The line control register.
#[derive(Clone, Copy, PartialEq, Eq, Structural)]
pub struct UartLineControl(pub u32);

/// The control register.
#[derive(Clone, Copy, PartialEq, Eq, Structural)]
pub struct UartControl(pub u32);

/// Interrupt bits, as in the mask, status and clear registers.
#[derive(Clone, Copy, PartialEq, Eq, Structural)]
pub struct UartInterrupts(pub u32);

/// Word lengths of the line control register.
#[derive(Clone, Copy, PartialEq, Eq, Structural)]
pub enum UartWordLength {
    Bit5,
    Bit6,
    Bit7,
    Bit8,
}

impl UartData {
    pub fn new(value: u32) -> (r: Self)
        ensures
            r.0 == value,
    {
        UartData(value)
    }

    /// The received byte.
    pub fn data(&self) -> (r: u8)
        ensures
            r == self.0 % 256,
    {
        (self.0 % 256) as u8
    }

    /// The error flags, bits 8 to 11.
    pub fn status(&self) -> (r: u32)
        ensures
            r == field32(self.0, 8, 4),
    {
        get_field32(self.0, 8, 4)
    }

    /// Bit 11: received while the FIFO was full.
    pub fn overrun_error(&self) -> (r: bool)
        ensures
            r == bit32(self.0, 11),
    {
        bit_test32(self.0, 11)
    }

    /// Bit 10: break condition.
    pub fn break_error(&self) -> (r: bool)
        ensures
            r == bit32(self.0, 10),
    {
        bit_test32(self.0, 10)
    }

    /// Bit 9: parity mismatch.
    pub fn parity_error(&self) -> (r: bool)
        ensures
            r == bit32(self.0, 9),
    {
        bit_test32(self.0, 9)
    }

    /// Bit 8: no valid stop bit.
    pub fn framing_error(&self) -> (r: bool)
        ensures
            r == bit32(self.0, 8),
    {
        bit_test32(self.0, 8)
    }
}

impl UartStatus {

    /// Bit 3: received while the FIFO was full.
    pub fn overrun_error(&self) -> (r: bool)
        ensures
            r == bit32(self.0, 3),
    {
        bit_test32(self.0, 3)
    }

    /// Bit 2: break condition.
    pub fn break_error(&self) -> (r: bool)
        ensures
            r == bit32(self.0, 2),
    {
        bit_test32(self.0, 2)
    }

    /// Bit 1: parity mismatch.
    pub fn parity_error(&self) -> (r: bool)
        ensures
            r == bit32(self.0, 1),
    {
        bit_test32(self.0, 1)
    }

    /// Bit 0: no valid stop bit.
    pub fn framing_error(&self) -> (r: bool)
        ensures
            r == bit32(self.0, 0),
    {
        bit_test32(self.0, 0)
    }
}

impl UartFlags {

    /// Bit 7: transmit FIFO empty.
    pub fn txfe(&self) -> (r: bool)
        ensures
            r == bit32(self.0, 7),
    {
        bit_test32(self.0, 7)
    }

    /// Bit 6: receive FIFO full.
    pub fn rxff(&self) -> (r: bool)
        ensures
            r == bit32(self.0, 6),
    {
        bit_test32(self.0, 6)
    }

    /// Bit 5: transmit FIFO full.
    pub fn txff(&self) -> (r: bool)
        ensures
            r == bit32(self.0, 5),
    {
        bit_test32(self.0, 5)
    }

    /// Bit 4: receive FIFO empty.
    pub fn rxfe(&self) -> (r: bool)
        ensures
            r == bit32(self.0, 4),
    {
        bit_test32(self.0, 4)
    }

    /// Bit 3: busy transmitting.
    pub fn busy(&self) -> (r: bool)
        ensures
            r == bit32(self.0, 3),
    {
        bit_test32(self.0, 3)
    }

    /// Bit 0: clear to send.
    pub fn cts(&self) -> (r: bool)
        ensures
            r == bit32(self.0, 0),
    {
        bit_test32(self.0, 0)
    }
}

impl UartWordLength {
    pub open spec fn spec_bits(self) -> u32 {
        match self {
            UartWordLength::Bit5 => 0,
            UartWordLength::Bit6 => 1,
            UartWordLength::Bit7 => 2,
            UartWordLength::Bit8 => 3,
        }
    }

    pub fn bits(&self) -> (r: u32)
        ensures
            r == self.spec_bits(),
    {
        match self {
            UartWordLength::Bit5 => 0,
            UartWordLength::Bit6 => 1,
            UartWordLength::Bit7 => 2,
            UartWordLength::Bit8 => 3,
        }
    }
}

impl UartLineControl {
    pub fn zero() -> (r: Self)
        ensures
            r.0 == 0,
    {
        UartLineControl(0)
    }

    /// Bit 4: FIFOs enabled.
    pub fn fifo_enabled(&self) -> (r: bool)
        ensures
            r == bit32(self.0, 4),
    {
        bit_test32(self.0, 4)
    }

    /// Bit 3: two stop bits.
    pub fn two_stop_bits(&self) -> (r: bool)
        ensures
            r == bit32(self.0, 3),
    {
        bit_test32(self.0, 3)
    }

    /// Bit 2: even parity.
    pub fn even_parity_select(&self) -> (r: bool)
        ensures
            r == bit32(self.0, 2),
    {
        bit_test32(self.0, 2)
    }

    /// Bit 1: parity enabled.
    pub fn parity_enabled(&self) -> (r: bool)
        ensures
            r == bit32(self.0, 1),
    {
        bit_test32(self.0, 1)
    }

    /// Bit 0: send break.
    pub fn send_break(&self) -> (r: bool)
        ensures
            r == bit32(self.0, 0),
    {
        bit_test32(self.0, 0)
    }

    /// The word length field, bits 5 and 6.
    pub fn word_length(&self) -> (r: u32)
        ensures
            r == field32(self.0, 5, 2),
    {
        get_field32(self.0, 5, 2)
    }

    pub fn with_word_length(self, length: UartWordLength) -> (r: Self)
        ensures
            r.0 == with_field32(self.0, 5, 2, length.spec_bits()),
    {
        UartLineControl(set_field32(self.0, 5, 2, length.bits()))
    }

    pub fn with_fifo_enabled(self, enabled: bool) -> (r: Self)
        ensures
            r.0 == with_field32(self.0, 4, 1, if enabled { 1u32 } else { 0u32 }),
    {
        UartLineControl(set_field32(self.0, 4, 1, if enabled { 1 } else { 0 }))
    }
}

impl UartControl {
    /// Everything off.
    pub fn disabled() -> (r: Self)
        ensures
            r.0 == 0,
    {
        UartControl(0)
    }

    /// Receive (bit 9), transmit (bit 8) and the UART (bit 0) enabled.
    pub fn enabled() -> (r: Self)
        ensures
            r.0 == 0x301,
    {
        UartControl(0x301)
    }

    /// Bit 9: receive enabled.
    pub fn receive_enable(&self) -> (r: bool)
        ensures
            r == bit32(self.0, 9),
    {
        bit_test32(self.0, 9)
    }

    /// Bit 8: transmit enabled.
    pub fn transmit_enable(&self) -> (r: bool)
        ensures
            r == bit32(self.0, 8),
    {
        bit_test32(self.0, 8)
    }

    /// Bit 0: UART enabled.
    pub fn uart_enable(&self) -> (r: bool)
        ensures
            r == bit32(self.0, 0),
    {
        bit_test32(self.0, 0)
    }
}

impl UartInterrupts {
    pub fn zero() -> (r: Self)
        ensures
            r.0 == 0,
    {
        UartInterrupts(0)
    }

    /// Every interrupt: bits 1 and 4 to 10.
    pub fn all_set() -> (r: Self)
        ensures
            r.0 == 0x7f2,
    {
        UartInterrupts(0x7f2)
    }
}


/// Baud rates.
#[derive(Clone, Copy, PartialEq, Eq, Structural)]
pub enum UartBitrate {
    Baud75,
    Baud110,
    Baud300,
    Baud1200,
    Baud2400,
    Baud4800,
    Baud9600,
    Baud19200,
    Baud38400,
    Baud57600,
    Baud115200,
}

impl UartBitrate {
    pub open spec fn spec_baud(self) -> u32 {
        match self {
            UartBitrate::Baud75 => 75,
            UartBitrate::Baud110 => 110,
            UartBitrate::Baud300 => 300,
            UartBitrate::Baud1200 => 1200,
            UartBitrate::Baud2400 => 2400,
            UartBitrate::Baud4800 => 4800,
            UartBitrate::Baud9600 => 9600,
            UartBitrate::Baud19200 => 19200,
            UartBitrate::Baud38400 => 38400,
            UartBitrate::Baud57600 => 57600,
            UartBitrate::Baud115200 => 115200,
        }
    }

    /// The rate in bits per second.
    pub fn baud(&self) -> (r: u32)
        ensures
            r == self.spec_baud(),
            r >= 75,
            r <= 115200,
    {
        match self {
            UartBitrate::Baud75 => 75,
            UartBitrate::Baud110 => 110,
            UartBitrate::Baud300 => 300,
            UartBitrate::Baud1200 => 1200,
            UartBitrate::Baud2400 => 2400,
            UartBitrate::Baud4800 => 4800,
            UartBitrate::Baud9600 => 9600,
            UartBitrate::Baud19200 => 19200,
            UartBitrate::Baud38400 => 38400,
            UartBitrate::Baud57600 => 57600,
            UartBitrate::Baud115200 => 115200,
        }
    }

    /// The baud rate divisor `clock / (16 baud)` in fixed point with six fractional
    /// bits, split into its integer part and its fraction (in 64ths, rounded down).
    pub fn to_int_frac(self, uart_clock_rate: u32) -> (r: (u32, u32))
        ensures
            r.0 == (uart_clock_rate * 64 / (16 * self.spec_baud())) / 64,
            r.1 == (uart_clock_rate * 64 / (16 * self.spec_baud())) % 64,
    {
        let divisor: u64 = 16 * self.baud() as u64;
        let fixed: u64 = uart_clock_rate as u64 * 64 / divisor;
        assert(fixed <= uart_clock_rate as u64 * 64);
        ((fixed / 64) as u32, (fixed % 64) as u32)
    }
}

/// The error that a receive status reports: parity or framing errors are invalid
/// data, a break is an unexpected end, anything else is reported by its code.
pub open spec fn status_error(status: UartStatus) -> IoError {
    if bit32(status.0, 1) || bit32(status.0, 0) {
        IoError::InvalidData
    } else if bit32(status.0, 2) {
        IoError::UnexpectedEof
    } else {
        IoError::Unknown { err_code: status.0 as i32 }
    }
}

/// The outcome of a transfer of several bytes, given the outcome of each byte in the
/// order attempted, up to and including the first error: the number of bytes moved,
/// or the first error if it came before any byte moved.
pub open spec fn transfer_outcome<T>(outcomes: Seq<Result<T, IoError>>) -> Result<usize, IoError> {
    let n = outcomes.len();
    if n > 0 && outcomes[n - 1] is Err {
        if n == 1 { Err(outcomes[0]->Err_0) } else { Ok((n - 1) as usize) }
    } else {
        Ok(n as usize)
    }
}

/// One step of bringing up a UART.
#[derive(Clone, Copy, PartialEq, Eq, Structural)]
pub enum UartInitStep {
    /// Write a register.
    Write(RegisterWrite),
    /// Read the flag register until it no longer shows the UART busy.
    WaitWhileBusy(RegisterRead),
    /// Clear the bits of `mask` in the register at `address`, keeping the others.
    ClearBits { address: usize, mask: u32 },
    /// Route the pins to the UART (alternate function 0).
    SelectAlt0(PinSet),
    /// Set the pins' pull resistors.
    PullResistors(PinSet, Resistor),
}

impl Uart {
    pub open spec fn spec_base_address(self) -> usize {
        match self {
            Uart::Pl011Uart { address, .. } => address,
            Uart::MiniUart { address, .. } => address,
        }
    }

    pub open spec fn spec_read_blocking(self) -> Blocking {
        match self {
            Uart::Pl011Uart { behavior, .. } => behavior.read_blocking,
            Uart::MiniUart { behavior, .. } => behavior.read_blocking,
        }
    }

    pub open spec fn spec_write_blocking(self) -> Blocking {
        match self {
            Uart::Pl011Uart { behavior, .. } => behavior.write_blocking,
            Uart::MiniUart { behavior, .. } => behavior.write_blocking,
        }
    }

    /// The register block lies inside the 16 MiB peripheral window.
    pub open spec fn wf(self) -> bool {
        self.spec_base_address() + 0x100 <= 0x0100_0000
    }

    /// Address of the register at `offset` in this UART's block.
    pub open spec fn register(self, host: BcmHost, offset: usize) -> int {
        host.peripheral_address + self.spec_base_address() + offset
    }

    /// The first PL011 UART, waiting indefinitely both ways.
    pub fn uart_0() -> (r: Uart)
        ensures
            r == (Uart::Pl011Uart { address: UART_BASE, behavior: UartBehavior { read_blocking: Blocking::Indefinetly, write_blocking: Blocking::Indefinetly } }),
            r.wf(),
    {
        Uart::Pl011Uart { address: UART_BASE, behavior: UartBehavior::default() }
    }

    pub fn base_address(&self) -> (r: usize)
        ensures
            r == self.spec_base_address(),
    {
        match self {
            Uart::Pl011Uart { address, .. } => *address,
            Uart::MiniUart { address, .. } => *address,
        }
    }

    pub fn read_blocking(&self) -> (r: Blocking)
        ensures
            r == self.spec_read_blocking(),
    {
        match self {
            Uart::Pl011Uart { behavior, .. } => behavior.read_blocking,
            Uart::MiniUart { behavior, .. } => behavior.read_blocking,
        }
    }

    pub fn write_blocking(&self) -> (r: Blocking)
        ensures
            r == self.spec_write_blocking(),
    {
        match self {
            Uart::Pl011Uart { behavior, .. } => behavior.write_blocking,
            Uart::MiniUart { behavior, .. } => behavior.write_blocking,
        }
    }

    fn register_address(&self, host: &BcmHost, offset: usize) -> (r: usize)
        requires
            host.wf(),
            self.wf(),
            offset < 0x100,
        ensures
            r == self.register(*host, offset),
    {
        host.peripheral_address + self.base_address() + offset
    }

    /// The read of the flag register.
    pub fn flags(&self, host: &BcmHost) -> (r: RegisterRead)
        requires
            host.wf(),
            self.wf(),
        ensures
            r.address == self.register(*host, UART_FR),
    {
        RegisterRead { address: self.register_address(host, UART_FR) }
    }

    pub fn raw_interrupt_status_reg(&self, host: &BcmHost) -> (r: usize)
        requires
            host.wf(),
            self.wf(),
        ensures
            r == self.register(*host, UART_RIS),
    {
        self.register_address(host, UART_RIS)
    }

    pub fn masked_interrupt_status_reg(&self, host: &BcmHost) -> (r: usize)
        requires
            host.wf(),
            self.wf(),
        ensures
            r == self.register(*host, UART_MIS),
    {
        self.register_address(host, UART_MIS)
    }

    /// The register in which writing a one clears the corresponding interrupt.
    pub fn interrupt_clear_reg(&self, host: &BcmHost) -> (r: usize)
        requires
            host.wf(),
            self.wf(),
        ensures
            r == self.register(*host, UART_ICR),
    {
        self.register_address(host, UART_ICR)
    }

    /// The interrupt mask register: an interrupt is enabled where its bit is set.
    pub fn interrupt_mask_reg(&self, host: &BcmHost) -> (r: usize)
        requires
            host.wf(),
            self.wf(),
        ensures
            r == self.register(*host, UART_IMSC),
    {
        self.register_address(host, UART_IMSC)
    }

    /// Given the flags just read: the write of `data` to the data register, or an error
    /// when the transmit FIFO is full.
    pub fn try_put_byte(&self, host: &BcmHost, flags: UartFlags, data: u8) -> (r: Result<RegisterWrite, UartWriteError>)
        requires
            host.wf(),
            self.wf(),
        ensures
            bit32(flags.0, 5) ==> r == Err::<RegisterWrite, UartWriteError>(UartWriteError::TransmitFifoFull),
            !bit32(flags.0, 5) ==> r == Ok::<RegisterWrite, UartWriteError>(
                RegisterWrite { address: self.register(*host, UART_DR) as usize, value: data as u32 }),
    {
        if flags.txff() {
            Err(UartWriteError::TransmitFifoFull)
        } else {
            Ok(RegisterWrite { address: self.register_address(host, UART_DR), value: data as u32 })
        }
    }

    /// What `put_byte` does after an attempt of `try_put_byte`, given whether its
    /// deadline has passed: done on success; on a full FIFO, fail at once when it never
    /// blocks, fail once the deadline has passed when it times out, else try again.
    pub fn put_byte(&self, attempt: &Result<RegisterWrite, UartWriteError>, timed_out: bool) -> (r: Step<Result<(), IoError>>)
        ensures
            attempt is Ok ==> r == Step::Done(Ok::<(), IoError>(())),
            attempt is Err ==> r == match self.spec_write_blocking() {
                Blocking::Never => Step::Done(Err::<(), IoError>(IoError::WouldBlock)),
                Blocking::TimeoutAfter(_) => if timed_out { Step::Done(Err::<(), IoError>(IoError::TimedOut)) } else { Step::Retry },
                Blocking::Indefinetly => Step::Retry,
            },
    {
        match attempt {
            Ok(_) => Step::Done(Ok(())),
            Err(_) => match self.write_blocking() {
                Blocking::Never => Step::Done(Err(IoError::WouldBlock)),
                Blocking::TimeoutAfter(_) => if timed_out { Step::Done(Err(IoError::TimedOut)) } else { Step::Retry },
                Blocking::Indefinetly => Step::Retry,
            },
        }
    }

    /// Given the flags just read and, when they show data waiting, the data register
    /// (else `data` is not looked at and the register must not be read): the received
    /// byte, unless an error other than an overrun came with it.
    pub fn try_get_byte(&self, flags: UartFlags, data: UartData) -> (r: Result<u8, UartReadError>)
        ensures
            bit32(flags.0, 4) ==> r == Err::<u8, UartReadError>(UartReadError::ReceiveFifoEmpty),
            !bit32(flags.0, 4) ==> r == if field32(data.0, 8, 4) % 8 == 0 {
                Ok::<u8, UartReadError>((data.0 % 256) as u8)
            } else {
                Err::<u8, UartReadError>(UartReadError::Status(UartStatus(field32(data.0, 8, 4))))
            },
    {
        if flags.rxfe() {
            Err(UartReadError::ReceiveFifoEmpty)
        } else {
            let status = data.status();
            if status % 8 == 0 {
                Ok(data.data())
            } else {
                Err(UartReadError::Status(UartStatus(status)))
            }
        }
    }

    /// The error reported for a receive status.
    pub fn status_error(status: UartStatus) -> (r: IoError)
        ensures
            r == status_error(status),
    {
        if status.parity_error() || status.framing_error() {
            IoError::InvalidData
        } else if status.break_error() {
            IoError::UnexpectedEof
        } else {
            IoError::Unknown { err_code: status.0 as i32 }
        }
    }

    /// What `get_byte` does after an attempt of `try_get_byte`, given whether its
    /// deadline has passed: a byte or a receive error ends it; an empty FIFO fails at
    /// once when it never blocks, fails once the deadline has passed when it times out,
    /// else it tries again.
    pub fn get_byte(&self, attempt: &Result<u8, UartReadError>, timed_out: bool) -> (r: Step<Result<u8, IoError>>)
        ensures
            r == match *attempt {
                Ok(b) => Step::Done(Ok::<u8, IoError>(b)),
                Err(UartReadError::Status(s)) => Step::Done(Err::<u8, IoError>(status_error(s))),
                Err(UartReadError::ReceiveFifoEmpty) => match self.spec_read_blocking() {
                    Blocking::Never => Step::Done(Err::<u8, IoError>(IoError::WouldBlock)),
                    Blocking::TimeoutAfter(_) => if timed_out { Step::Done(Err::<u8, IoError>(IoError::TimedOut)) } else { Step::Retry },
                    Blocking::Indefinetly => Step::Retry,
                },
            },
    {
        match attempt {
            Ok(b) => Step::Done(Ok(*b)),
            Err(UartReadError::Status(s)) => Step::Done(Err(Uart::status_error(*s))),
            Err(UartReadError::ReceiveFifoEmpty) => match self.read_blocking() {
                Blocking::Never => Step::Done(Err(IoError::WouldBlock)),
                Blocking::TimeoutAfter(_) => if timed_out { Step::Done(Err(IoError::TimedOut)) } else { Step::Retry },
                Blocking::Indefinetly => Step::Retry,
            },
        }
    }

    /// The result of writing a buffer byte by byte, given the outcome of each byte up
    /// to the first error.
    pub fn write(&self, outcomes: &Vec<Result<(), IoError>>) -> (r: Result<usize, IoError>)
        requires
            forall|i: int| 0 <= i < outcomes@.len() - 1 ==> outcomes@[i] is Ok,
        ensures
            r == transfer_outcome(outcomes@),
    {
        let n = outcomes.len();
        if n > 0 {
            match &outcomes[n - 1] {
                Err(e) => if n == 1 { Err(*e) } else { Ok(n - 1) },
                Ok(_) => Ok(n),
            }
        } else {
            Ok(0)
        }
    }

    /// The result of reading into `buf` byte by byte, given the outcome of each byte up
    /// to the first error; the bytes read go to the front of `buf`.
    pub fn read(&self, outcomes: &Vec<Result<u8, IoError>>, buf: &mut Vec<u8>) -> (r: Result<usize, IoError>)
        requires
            outcomes@.len() <= old(buf)@.len(),
            forall|i: int| 0 <= i < outcomes@.len() - 1 ==> outcomes@[i] is Ok,
        ensures
            r == transfer_outcome(outcomes@),
            final(buf)@.len() == old(buf)@.len(),
            forall|i: int| 0 <= i < final(buf)@.len() ==> #[trigger] final(buf)@[i] == match outcomes@[i] {
                Ok(b) => if i < outcomes@.len() { b } else { old(buf)@[i] },
                Err(_) => old(buf)@[i],
            },
    {
        let mut i: usize = 0;
        while i < outcomes.len()
            invariant
                i <= outcomes@.len() <= buf@.len(),
                buf@.len() == old(buf)@.len(),
                forall|j: int| 0 <= j < buf@.len() ==> #[trigger] buf@[j] == if j < i {
                    match outcomes@[j] { Ok(b) => b, Err(_) => old(buf)@[j] }
                } else {
                    old(buf)@[j]
                },
            decreases outcomes@.len() - i,
        {
            match &outcomes[i] {
                Ok(b) => { buf.set(i, *b); },
                Err(_) => {},
            }
            i += 1;
        }
        self.write_like(outcomes)
    }

    fn write_like(&self, outcomes: &Vec<Result<u8, IoError>>) -> (r: Result<usize, IoError>)
        ensures
            r == transfer_outcome(outcomes@),
    {
        let n = outcomes.len();
        if n > 0 {
            match &outcomes[n - 1] {
                Err(e) => if n == 1 { Err(*e) } else { Ok(n - 1) },
                Ok(_) => Ok(n),
            }
        } else {
            Ok(0)
        }
    }

    /// The steps that bring the UART up at 115200 baud, 8 bits, FIFOs on, interrupts
    /// masked, given the UART clock rate the firmware reported (3 MHz when it did not).
    pub fn init(&self, host: &BcmHost, clock_rate: Option<u32>) -> (r: Vec<UartInitStep>)
        requires
            host.wf(),
            self.wf(),
        ensures
            ({
                let rate = match clock_rate { Some(c) => c, None => 3_000_000u32 };
                let divisor = rate * 64int / 1_843_200int;
                let pins = r@[3]->SelectAlt0_0;
                &&& r@.len() == 12
                &&& r@[0] == UartInitStep::Write(RegisterWrite { address: self.register(*host, UART_CR) as usize, value: 0 })
                &&& r@[1] == UartInitStep::WaitWhileBusy(RegisterRead { address: self.register(*host, UART_FR) as usize })
                &&& r@[2] == UartInitStep::ClearBits { address: self.register(*host, UART_LCRH) as usize, mask: 0x10 }
                &&& r@[3] is SelectAlt0
                &&& forall|p: int| 0 <= p < 54 ==> (pins.has(p) <==> (p == 14 || p == 15))
                &&& r@[4] == UartInitStep::PullResistors(pins, Resistor::NoPull)
                &&& r@[5] == UartInitStep::Write(RegisterWrite { address: self.register(*host, UART_ICR) as usize, value: 0x7f2 })
                &&& r@[6] == UartInitStep::Write(RegisterWrite { address: self.register(*host, UART_IBRD) as usize, value: (divisor / 64) as u32 })
                &&& r@[7] == UartInitStep::Write(RegisterWrite { address: self.register(*host, UART_FBRD) as usize, value: (divisor % 64) as u32 })
                &&& r@[8] == UartInitStep::Write(RegisterWrite { address: self.register(*host, UART_LCRH) as usize, value: 0x70 })
                &&& r@[9] == UartInitStep::Write(RegisterWrite { address: self.register(*host, UART_IMSC) as usize, value: 0 })
                &&& r@[10] == UartInitStep::Write(RegisterWrite { address: self.register(*host, UART_ICR) as usize, value: 0x7f2 })
                &&& r@[11] == UartInitStep::Write(RegisterWrite { address: self.register(*host, UART_CR) as usize, value: 0x301 })
            }),
    {
        let mut steps: Vec<UartInitStep> = Vec::new();
        steps.push(UartInitStep::Write(RegisterWrite { address: self.register_address(host, UART_CR), value: UartControl::disabled().0 }));
        steps.push(UartInitStep::WaitWhileBusy(RegisterRead { address: self.register_address(host, UART_FR) }));
        steps.push(UartInitStep::ClearBits { address: self.register_address(host, UART_LCRH), mask: 0x10 });
        let pin_list: [u8; 2] = [14, 15];
        let pins = PinSet::select(&pin_list);
        proof {
            assert forall|p: int| 0 <= p < 54 implies (pins.has(p) <==> (p == 14 || p == 15)) by {
                if p == 14 {
                    assert(pin_list@[0] == 14);
                }
                if p == 15 {
                    assert(pin_list@[1] == 15);
                }
            }
        }
        steps.push(UartInitStep::SelectAlt0(pins));
        steps.push(UartInitStep::PullResistors(pins, Resistor::NoPull));
        steps.push(UartInitStep::Write(RegisterWrite { address: self.register_address(host, UART_ICR), value: UartInterrupts::all_set().0 }));
        let rate = match clock_rate { Some(c) => c, None => 3_000_000 };
        let (brd_int, brd_frac) = UartBitrate::Baud115200.to_int_frac(rate);
        steps.push(UartInitStep::Write(RegisterWrite { address: self.register_address(host, UART_IBRD), value: brd_int }));
        steps.push(UartInitStep::Write(RegisterWrite { address: self.register_address(host, UART_FBRD), value: brd_frac }));
        steps.push(UartInitStep::Write(RegisterWrite { address: self.register_address(host, UART_LCRH), value: 0x70 }));
        steps.push(UartInitStep::Write(RegisterWrite { address: self.register_address(host, UART_IMSC), value: UartInterrupts::zero().0 }));
        steps.push(UartInitStep::Write(RegisterWrite { address: self.register_address(host, UART_ICR), value: UartInterrupts::all_set().0 }));
        steps.push(UartInitStep::Write(RegisterWrite { address: self.register_address(host, UART_CR), value: UartControl::enabled().0 }));
        steps
    }
}

} // verus!
