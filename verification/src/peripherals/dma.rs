use vstd::prelude::*;
use crate::bits::{bit32, bit_test32, field32, get_field32, with_bit_set32, lemma_field32_bound};
use crate::peripherals::BcmHost;
use crate::peripherals::mmio::RegisterWrite;

verus! {

/// Offset of the DMA controller in the peripheral window, and the size of each
/// channel's register block.
pub const DMA_BASE: usize = 0x7000;
pub const DMA_CHANNEL_SZ: usize = 0x100;

/// Ways a DMA request can be refused.
#[derive(Clone, Copy, PartialEq, Eq, Structural)]
pub enum DmaError {
    TransferTooLong,
    AddressNotAligned,
    InvalidPriorityLevel,
    InvalidWaitCycles,
    InvalidPeripheral,
}

/// A standard DMA channel, by the offset of its register block.
#[derive(Clone, Copy, PartialEq, Eq, Structural)]
pub struct DmaStandardChannel(pub usize);

/// One step of driving a DMA channel.
#[derive(Clone, Copy, PartialEq, Eq, Structural)]
pub enum DmaStep {
    /// Write a register.
    Write(RegisterWrite),
    /// Set the bits of `mask` in the register at `address`, keeping the others.
    SetBits { address: usize, mask: u32 },
    /// Read the register at `address` until the bits of `mask` are all clear.
    WaitUntilClear { address: usize, mask: u32 },
    /// Read the register at `address` until a bit of `mask` is set.
    WaitUntilSet { address: usize, mask: u32 },
}

/// The channel register offsets.
pub const DMA_CS: usize = 0x00;
pub const DMA_CONBLK_AD: usize = 0x04;
pub const DMA_TI: usize = 0x08;
pub const DMA_SOURCE_AD: usize = 0x0c;
pub const DMA_DEST_AD: usize = 0x10;
pub const DMA_TXFR_LEN: usize = 0x14;
pub const DMA_STRIDE: usize = 0x18;
pub const DMA_NEXTCONBK: usize = 0x1c;
pub const DMA_DEBUG: usize = 0x20;

impl DmaStandardChannel {
    /// Channel `n` of the seven standard channels.
    pub fn channel(n: usize) -> (r: Self)
        requires
            n < 7,
        ensures
            r.0 == DMA_BASE + n * DMA_CHANNEL_SZ,
            r.wf(),
    {
        DmaStandardChannel(DMA_BASE + n * DMA_CHANNEL_SZ)
    }

    /// The register block lies inside the 16 MiB peripheral window.
    pub open spec fn wf(self) -> bool {
        self.0 + 0x100 <= 0x0100_0000
    }

    pub open spec fn register(self, host: BcmHost, offset: usize) -> int {
        host.peripheral_address + offset + self.0
    }

    /// The control and status register.
    pub fn control_and_status(&self, host: &BcmHost) -> (r: usize)
        requires
            host.wf(),
            self.wf(),
        ensures
            r == self.register(*host, DMA_CS),
    {
        host.peripheral_address + DMA_CS + self.0
    }

    /// The control block address register.
    pub fn control_block_address(&self, host: &BcmHost) -> (r: usize)
        requires
            host.wf(),
            self.wf(),
        ensures
            r == self.register(*host, DMA_CONBLK_AD),
    {
        host.peripheral_address + DMA_CONBLK_AD + self.0
    }

    /// The next control block address register; the address must be 256-bit aligned.
    pub fn next_control_block_address(&self, host: &BcmHost) -> (r: usize)
        requires
            host.wf(),
            self.wf(),
        ensures
            r == self.register(*host, DMA_NEXTCONBK),
    {
        host.peripheral_address + DMA_NEXTCONBK + self.0
    }

    /// The transfer length register.
    pub fn transfer_length(&self, host: &BcmHost) -> (r: usize)
        requires
            host.wf(),
            self.wf(),
        ensures
            r == self.register(*host, DMA_TXFR_LEN),
    {
        host.peripheral_address + DMA_TXFR_LEN + self.0
    }

    /// The debug register.
    pub fn debug(&self, host: &BcmHost) -> (r: usize)
        requires
            host.wf(),
            self.wf(),
        ensures
            r == self.register(*host, DMA_DEBUG),
    {
        host.peripheral_address + DMA_DEBUG + self.0
    }

    /// Start the transfer the control block at `control_block_address` describes: load
    /// its address, then set the active bit.
    pub fn start_transfer(&self, host: &BcmHost, control_block_address: u32) -> (r: Vec<DmaStep>)
        requires
            host.wf(),
            self.wf(),
        ensures
            r@ == seq![
                DmaStep::Write(RegisterWrite { address: self.register(*host, DMA_CONBLK_AD) as usize, value: control_block_address }),
                DmaStep::SetBits { address: self.register(*host, DMA_CS) as usize, mask: 1 },
            ],
    {
        let mut steps: Vec<DmaStep> = Vec::new();
        steps.push(DmaStep::Write(RegisterWrite { address: self.control_block_address(host), value: control_block_address }));
        steps.push(DmaStep::SetBits { address: self.control_and_status(host), mask: 1 });
        steps
    }

    /// Wait until the channel is no longer active.
    pub fn wait_for_idle(&self, host: &BcmHost) -> (r: Vec<DmaStep>)
        requires
            host.wf(),
            self.wf(),
        ensures
            r@ == seq![DmaStep::WaitUntilClear { address: self.register(*host, DMA_CS) as usize, mask: 1 }],
    {
        let mut steps: Vec<DmaStep> = Vec::new();
        steps.push(DmaStep::WaitUntilClear { address: self.control_and_status(host), mask: 1 });
        steps
    }

    /// Wait for the end flag, then clear it (it clears when written with a one).
    pub fn wait_for_end(&self, host: &BcmHost) -> (r: Vec<DmaStep>)
        requires
            host.wf(),
            self.wf(),
        ensures
            r@ == seq![
                DmaStep::WaitUntilSet { address: self.register(*host, DMA_CS) as usize, mask: 2 },
                DmaStep::SetBits { address: self.register(*host, DMA_CS) as usize, mask: 2 },
            ],
    {
        let mut steps: Vec<DmaStep> = Vec::new();
        steps.push(DmaStep::WaitUntilSet { address: self.control_and_status(host), mask: 2 });
        steps.push(DmaStep::SetBits { address: self.control_and_status(host), mask: 2 });
        steps
    }
}

/// The control and status register of a channel.
#[derive(Clone, Copy, PartialEq, Eq, Structural)]
pub struct DmaControlAndStatus(pub u32);

impl DmaControlAndStatus {
    pub const MAX_PRIORITY_LEVEL: u32 = 0xf;

    /// Bit 0: the channel is active.
    pub fn active(&self) -> (r: bool)
        ensures
            r == bit32(self.0, 0),
    {
        bit_test32(self.0, 0)
    }

    /// Bit 1: the current control block is done (write 1 to clear).
    pub fn end(&self) -> (r: bool)
        ensures
            r == bit32(self.0, 1),
    {
        bit_test32(self.0, 1)
    }

    /// Bit 2: interrupt status (write 1 to clear).
    pub fn interrupted(&self) -> (r: bool)
        ensures
            r == bit32(self.0, 2),
    {
        bit_test32(self.0, 2)
    }

    /// Bit 4: the channel is paused.
    pub fn paused(&self) -> (r: bool)
        ensures
            r == bit32(self.0, 4),
    {
        bit_test32(self.0, 4)
    }

    /// Bit 8: the channel has an error flag set.
    pub fn error(&self) -> (r: bool)
        ensures
            r == bit32(self.0, 8),
    {
        bit_test32(self.0, 8)
    }

    /// The AXI priority level, bits 16 to 19.
    pub fn axi_priority_level(&self) -> (r: u32)
        ensures
            r == field32(self.0, 16, 4),
    {
        get_field32(self.0, 16, 4)
    }

    /// The value that clears the interrupt flag when written: this one with bit 2 set.
    pub fn clear_interrupt(&self) -> (r: Self)
        ensures
            bit32(r.0, 2),
            forall|k: u32| k < 32 && k != 2 ==> bit32(r.0, k) == bit32(self.0, k),
    {
        DmaControlAndStatus(with_bit_set32(self.0, 2))
    }
}

/// How a channel moves data.
#[derive(Clone, Copy, PartialEq, Eq, Structural)]
pub struct DmaTransferInformation(pub u32);

impl DmaTransferInformation {
    /// Increment both addresses, 128-bit reads and writes, bursts of 2.
    pub fn wide_copy() -> (r: Self)
        ensures
            r.0 == 0x2330,
    {
        DmaTransferInformation(0x2330)
    }

    /// Increment both addresses, 32-bit reads and writes, bursts of 8.
    pub fn narrow_copy() -> (r: Self)
        ensures
            r.0 == 0x8110,
    {
        DmaTransferInformation(0x8110)
    }

    /// Bit 1: two-dimensional mode.
    pub fn _2d_mode(&self) -> (r: bool)
        ensures
            r == bit32(self.0, 1),
    {
        bit_test32(self.0, 1)
    }

    /// Bit 0: interrupt when done.
    pub fn completion_interrupt(&self) -> (r: bool)
        ensures
            r == bit32(self.0, 0),
    {
        bit_test32(self.0, 0)
    }

    /// This value with two-dimensional mode on.
    pub fn with_2d_mode(self) -> (r: Self)
        ensures
            r.0 == self.0 | 2u32,
            bit32(r.0, 1),
            forall|k: u32| k < 32 && k != 1 ==> bit32(r.0, k) == bit32(self.0, k),
    {
        assert(1u32 << 1u32 == 2u32) by (bit_vector);
        DmaTransferInformation(with_bit_set32(self.0, 1))
    }
}

/// Signed byte strides added after each row, source and destination.
#[derive(Clone, Copy, PartialEq, Eq, Structural)]
pub struct Dma2dStride {
    pub source: i16,
    pub destination: i16,
}

impl Dma2dStride {
    pub fn none() -> (r: Self)
        ensures
            r.source == 0,
            r.destination == 0,
    {
        Dma2dStride { source: 0, destination: 0 }
    }

    pub fn new(source: i16, destination: i16) -> (r: Self)
        ensures
            r.source == source,
            r.destination == destination,
    {
        Dma2dStride { source, destination }
    }

    /// The register word: the source stride in the low half, the destination stride in
    /// the high half, each in two's complement.
    pub fn as_u32(self) -> (r: u32)
        ensures
            r == (if self.source < 0 { self.source + 0x1_0000 } else { self.source as int })
                + 0x1_0000 * (if self.destination < 0 { self.destination + 0x1_0000 } else { self.destination as int }),
    {
        let s: u32 = if self.source < 0 { (self.source as i32 + 0x1_0000) as u32 } else { self.source as u32 };
        let d: u32 = if self.destination < 0 { (self.destination as i32 + 0x1_0000) as u32 } else { self.destination as u32 };
        s + 0x1_0000 * d
    }
}

/// The transfer length word: a byte count for a linear transfer; for a 2D transfer,
/// the row length in bytes in the low half and the row count in the high half.
#[derive(Clone, Copy, PartialEq, Eq, Structural)]
pub struct DmaTransferLength(pub u32);

impl DmaTransferLength {
    /// A 2D length: `y_count` rows of `x_byte_len` bytes.
    pub fn new_2d(x_byte_len: u16, y_count: u16) -> (r: Self)
        requires
            x_byte_len != 0,
            y_count < 0x4000,
        ensures
            r.0 == x_byte_len + 0x1_0000 * y_count,
    {
        DmaTransferLength(x_byte_len as u32 + 0x1_0000 * y_count as u32)
    }

    /// A linear length of `byte_len` bytes, which must be below 2 to the 29th.
    pub fn new_linear(byte_len: u32) -> (r: Self)
        requires
            byte_len != 0,
            byte_len < 0x2000_0000,
        ensures
            r.0 == byte_len,
    {
        DmaTransferLength(byte_len)
    }

    pub fn linear(self) -> (r: u32)
        ensures
            r == self.0,
    {
        self.0
    }

    pub fn x_byte_len(self) -> (r: u16)
        ensures
            r == self.0 % 0x1_0000,
    {
        (self.0 % 0x1_0000) as u16
    }

    pub fn y_count(self) -> (r: u16)
        ensures
            r == self.0 / 0x1_0000,
    {
        (self.0 / 0x1_0000) as u16
    }
}

/// A 2D length reads back the row length and the row count it was made from.
pub proof fn lemma_transfer_length_2d_round_trip(x_byte_len: u16, y_count: u16)
    requires
        x_byte_len != 0,
        y_count < 0x4000,
    ensures
        (x_byte_len + 0x1_0000 * y_count) % 0x1_0000 == x_byte_len,
        (x_byte_len + 0x1_0000 * y_count) / 0x1_0000 == y_count,
{
}

/// A control block: what the channel loads to perform one transfer.
#[derive(Clone, Copy, PartialEq, Eq, Structural)]
pub struct DmaControlBlock {
    pub transfer_information: DmaTransferInformation,
    pub source_address: u32,
    pub destination_address: u32,
    pub transfer_length: DmaTransferLength,
    pub stride: Dma2dStride,
    pub next_control_block_address: u32,
    pub reserved_0: u32,
    pub reserved_1: u32,
}

impl DmaControlBlock {
    pub const MAX_LENGTH: u32 = 0x3FFF_FFFF;
    pub const MAX_HEIGHT: u16 = 0x3FFF;

    /// A linear copy of `length` bytes, a non-zero multiple of four below 2 to the 29th.
    pub fn new_linear_copy(
        transfer_information: DmaTransferInformation,
        source_address: u32,
        destination_address: u32,
        length: u32,
        next_control_block_address: u32,
    ) -> (r: Self)
        requires
            0 < length < 0x2000_0000,
            length % 4 == 0,
        ensures
            r == (DmaControlBlock {
                transfer_information,
                source_address,
                destination_address,
                transfer_length: DmaTransferLength(length),
                stride: Dma2dStride { source: 0, destination: 0 },
                next_control_block_address,
                reserved_0: 0,
                reserved_1: 0,
            }),
    {
        DmaControlBlock {
            transfer_information,
            source_address,
            destination_address,
            transfer_length: DmaTransferLength::new_linear(length),
            stride: Dma2dStride::none(),
            next_control_block_address,
            reserved_0: 0,
            reserved_1: 0,
        }
    }

    /// A 2D copy of `y_count` rows of `x_byte_len` bytes, with the given strides
    /// between rows; the transfer information must have 2D mode on.
    pub fn new_2d_copy(
        transfer_information: DmaTransferInformation,
        source_address: u32,
        destination_address: u32,
        y_count: u16,
        x_byte_len: u16,
        src_stride: i16,
        dst_stride: i16,
        next_control_block_address: u32,
    ) -> (r: Self)
        requires
            y_count <= 0x3FFF,
            x_byte_len != 0,
            bit32(transfer_information.0, 1),
        ensures
            r == (DmaControlBlock {
                transfer_information,
                source_address,
                destination_address,
                transfer_length: DmaTransferLength((x_byte_len + 0x1_0000 * y_count) as u32),
                stride: Dma2dStride { source: src_stride, destination: dst_stride },
                next_control_block_address,
                reserved_0: 0,
                reserved_1: 0,
            }),
    {
        DmaControlBlock {
            transfer_information,
            source_address,
            destination_address,
            transfer_length: DmaTransferLength::new_2d(x_byte_len, y_count),
            stride: Dma2dStride::new(src_stride, dst_stride),
            next_control_block_address,
            reserved_0: 0,
            reserved_1: 0,
        }
    }

    /// A wide linear copy from one slice to another of the same length: `len` elements
    /// of `element_size` bytes, whose total must be a non-zero multiple of four below
    /// 2 to the 29th.
    pub fn copy_slice(source_address: u32, source_len: usize, destination_address: u32, destination_len: usize, element_size: usize) -> (r: Self)
        requires
            source_len == destination_len,
            0 < source_len * element_size < 0x2000_0000,
            (source_len * element_size) % 4 == 0,
        ensures
            r == (DmaControlBlock {
                transfer_information: DmaTransferInformation(0x2330),
                source_address,
                destination_address,
                transfer_length: DmaTransferLength((source_len * element_size) as u32),
                stride: Dma2dStride { source: 0, destination: 0 },
                next_control_block_address: 0,
                reserved_0: 0,
                reserved_1: 0,
            }),
    {
        let bytes: u32 = (source_len as u64 * element_size as u64) as u32;
        DmaControlBlock::new_linear_copy(DmaTransferInformation::wide_copy(), source_address, destination_address, bytes, 0)
    }
}

/// Where a two-dimensional slice lies: the address of its first element, its width and
/// height in elements, its pitch (the elements from the start of one row to the start
/// of the next) and the number of elements of the buffer under it, which starts at the
/// same address.
#[derive(Clone, Copy, PartialEq, Eq, Structural)]
pub struct Slice2dLayout {
    pub address: u32,
    pub width: usize,
    pub height: usize,
    pub pitch: usize,
    pub buffer_len: usize,
}

/// The bytes skipped after each row of `s`, as the 16-bit stride register field holds
/// them (truncated to 16 bits).
pub open spec fn row_skip_bytes(s: Slice2dLayout, element_size: usize) -> i16 {
    ((s.pitch - s.width) * element_size) as i16
}

/// The inputs `DmaControlBlock::copy_slice2d` accepts: each row skip fits in `usize`;
/// without a skip on either side the two buffers are copied whole, and must meet
/// `copy_slice`'s demands; otherwise the slices have the same shape, at most `0x3FFF`
/// rows, and rows of one to `0xFFFF` bytes.
pub open spec fn copy_slice2d_accepts(src: Slice2dLayout, dst: Slice2dLayout, element_size: usize) -> bool {
    &&& src.width <= src.pitch
    &&& dst.width <= dst.pitch
    &&& (src.pitch - src.width) * element_size <= usize::MAX
    &&& (dst.pitch - dst.width) * element_size <= usize::MAX
    &&& if row_skip_bytes(src, element_size) == 0 && row_skip_bytes(dst, element_size) == 0 {
        &&& src.buffer_len == dst.buffer_len
        &&& 0 < src.buffer_len * element_size < 0x2000_0000
        &&& (src.buffer_len * element_size) % 4 == 0
    } else {
        &&& src.width == dst.width
        &&& src.height == dst.height
        &&& src.height <= 0x3FFF
        &&& 0 < src.width * element_size <= 0xFFFF
    }
}

/// The control block `copy_slice2d` makes: a linear copy of the whole buffers when
/// neither side skips bytes between rows, else a 2D copy of `height` rows of `width`
/// elements with the two row skips as strides.
pub open spec fn slice2d_control_block(src: Slice2dLayout, dst: Slice2dLayout, element_size: usize) -> DmaControlBlock {
    if row_skip_bytes(src, element_size) == 0 && row_skip_bytes(dst, element_size) == 0 {
        DmaControlBlock {
            transfer_information: DmaTransferInformation(0x2330),
            source_address: src.address,
            destination_address: dst.address,
            transfer_length: DmaTransferLength((src.buffer_len * element_size) as u32),
            stride: Dma2dStride { source: 0, destination: 0 },
            next_control_block_address: 0,
            reserved_0: 0,
            reserved_1: 0,
        }
    } else {
        DmaControlBlock {
            transfer_information: DmaTransferInformation(0x2332),
            source_address: src.address,
            destination_address: dst.address,
            transfer_length: DmaTransferLength((src.width * element_size + 0x1_0000 * src.height) as u32),
            stride: Dma2dStride { source: row_skip_bytes(src, element_size), destination: row_skip_bytes(dst, element_size) },
            next_control_block_address: 0,
            reserved_0: 0,
            reserved_1: 0,
        }
    }
}

impl DmaControlBlock {
    /// A copy of one two-dimensional slice into another: a linear copy of the whole
    /// buffers when neither side skips bytes between rows, else a 2D copy of `height`
    /// rows of `width` elements with the two row skips as strides.
    pub fn copy_slice2d(src: &Slice2dLayout, dst: &Slice2dLayout, element_size: usize) -> (r: Self)
        requires
            copy_slice2d_accepts(*src, *dst, element_size),
        ensures
            r == slice2d_control_block(*src, *dst, element_size),
    {
        let src_stride: i16 = ((src.pitch - src.width) * element_size) as i16;
        let dst_stride: i16 = ((dst.pitch - dst.width) * element_size) as i16;
        if src_stride == 0 && dst_stride == 0 {
            return DmaControlBlock::copy_slice(src.address, src.buffer_len, dst.address, dst.buffer_len, element_size);
        }
        let x_byte_len: usize = src.width * element_size;
        let transfer_information = DmaTransferInformation::wide_copy().with_2d_mode();
        assert(0x2330u32 | 2u32 == 0x2332u32) by (bit_vector);
        DmaControlBlock::new_2d_copy(
            transfer_information,
            src.address,
            dst.address,
            src.height as u16,
            x_byte_len as u16,
            src_stride,
            dst_stride,
            0,
        )
    }
}

/// The debug register of a channel.
#[derive(Clone, Copy, PartialEq, Eq, Structural)]
pub struct DmaDebug(pub u32);

impl DmaDebug {
    /// Bit 28: a lite channel.
    pub fn dma_lite(&self) -> (r: bool)
        ensures
            r == bit32(self.0, 28),
    {
        bit_test32(self.0, 28)
    }

    /// Bit 2: slave read response error.
    pub fn read_error(&self) -> (r: bool)
        ensures
            r == bit32(self.0, 2),
    {
        bit_test32(self.0, 2)
    }

    /// Bit 1: FIFO error.
    pub fn fifo_error(&self) -> (r: bool)
        ensures
            r == bit32(self.0, 1),
    {
        bit_test32(self.0, 1)
    }

    /// Bit 0: read last not set error.
    pub fn read_last_not_set_error(&self) -> (r: bool)
        ensures
            r == bit32(self.0, 0),
    {
        bit_test32(self.0, 0)
    }
}

/// The steps of a copy on channel 0 with the control block at `control_block_address`:
/// load the block's address, set ACTIVE, wait for END, and clear END by writing it.
pub open spec fn channel0_copy_steps(host: BcmHost, control_block_address: u32) -> Seq<DmaStep> {
    seq![
        DmaStep::Write(RegisterWrite { address: (host.peripheral_address + DMA_CONBLK_AD + DMA_BASE) as usize, value: control_block_address }),
        DmaStep::SetBits { address: (host.peripheral_address + DMA_CS + DMA_BASE) as usize, mask: 1 },
        DmaStep::WaitUntilSet { address: (host.peripheral_address + DMA_CS + DMA_BASE) as usize, mask: 2 },
        DmaStep::SetBits { address: (host.peripheral_address + DMA_CS + DMA_BASE) as usize, mask: 2 },
    ]
}

/// Copy one slice to another with channel 0: the control block, and the steps that
/// start the transfer (with the block at `control_block_address`) and wait for its end.
pub fn dma_copy_slice(
    host: &BcmHost,
    source_address: u32,
    source_len: usize,
    destination_address: u32,
    destination_len: usize,
    element_size: usize,
    control_block_address: u32,
) -> (r: (DmaControlBlock, Vec<DmaStep>))
    requires
        host.wf(),
        source_len == destination_len,
        0 < source_len * element_size < 0x2000_0000,
        (source_len * element_size) % 4 == 0,
    ensures
        r.0 == (DmaControlBlock {
            transfer_information: DmaTransferInformation(0x2330),
            source_address,
            destination_address,
            transfer_length: DmaTransferLength((source_len * element_size) as u32),
            stride: Dma2dStride { source: 0, destination: 0 },
            next_control_block_address: 0,
                reserved_0: 0,
            reserved_1: 0,
        }),
        r.1@ == channel0_copy_steps(*host, control_block_address),
{
    let control_block = DmaControlBlock::copy_slice(source_address, source_len, destination_address, destination_len, element_size);
    let channel = DmaStandardChannel::channel(0);
    let mut steps = channel.start_transfer(host, control_block_address);
    let mut end = channel.wait_for_end(host);
    steps.append(&mut end);
    (control_block, steps)
}

/// Copy one two-dimensional slice to another with channel 0: the control block of
/// `copy_slice2d`, and the steps that start the transfer (with the block at
/// `control_block_address`) and wait for its end.
pub fn dma_copy_slice2d(
    host: &BcmHost,
    src: &Slice2dLayout,
    dst: &Slice2dLayout,
    element_size: usize,
    control_block_address: u32,
) -> (r: (DmaControlBlock, Vec<DmaStep>))
    requires
        host.wf(),
        copy_slice2d_accepts(*src, *dst, element_size),
    ensures
        r.0 == slice2d_control_block(*src, *dst, element_size),
        r.1@ == channel0_copy_steps(*host, control_block_address),
{
    let control_block = DmaControlBlock::copy_slice2d(src, dst, element_size);
    let channel = DmaStandardChannel::channel(0);
    let mut steps = channel.start_transfer(host, control_block_address);
    let mut end = channel.wait_for_end(host);
    steps.append(&mut end);
    (control_block, steps)
}

} // verus!
