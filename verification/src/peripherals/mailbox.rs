use vstd::prelude::*;

verus! {

/// Status word of a property buffer.
#[derive(Clone, Copy, PartialEq, Eq, Structural)]
pub enum RequestResponseStatus {
    Pending,
    Success,
    ErrorParsingRequestBuffer,
}

impl RequestResponseStatus {
    pub open spec fn spec_code(self) -> u32 {
        match self {
            RequestResponseStatus::Pending => 0,
            RequestResponseStatus::Success => 0x8000_0000,
            RequestResponseStatus::ErrorParsingRequestBuffer => 0x8000_0001,
        }
    }

    /// The status a word stands for, if it is one of the three.
    pub fn from_code(code: u32) -> (r: Option<Self>)
        ensures
            r matches Some(s) ==> s.spec_code() == code,
            r is None ==> code != 0 && code != 0x8000_0000 && code != 0x8000_0001,
    {
        if code == 0 {
            Some(RequestResponseStatus::Pending)
        } else if code == 0x8000_0000 {
            Some(RequestResponseStatus::Success)
        } else if code == 0x8000_0001 {
            Some(RequestResponseStatus::ErrorParsingRequestBuffer)
        } else {
            None
        }
    }
}

/// The request/response code field of a property buffer, written by the firmware.
#[derive(Clone, Copy, PartialEq, Eq, Structural)]
pub struct ReqResCode(pub RequestResponseStatus);

impl ReqResCode {
    pub fn cleared() -> (r: Self)
        ensures
            r.0 == RequestResponseStatus::Pending,
    {
        ReqResCode(RequestResponseStatus::Pending)
    }

    pub fn clear(&mut self)
        ensures
            final(self).0 == RequestResponseStatus::Pending,
    {
        self.0 = RequestResponseStatus::Pending;
    }

    pub fn get(&self) -> (r: RequestResponseStatus)
        ensures
            r == self.0,
    {
        self.0
    }
}

#[derive(Clone, Copy, PartialEq, Eq, Structural)]
pub enum MailboxError {
    Unknown,
    RequestResponseError(RequestResponseStatus),
    BufferOverflow,
    BufferSizeMismatch,
    ResponseIterationError,
    ResponseReinterpretationError,
}

/// The mailbox status register.
#[derive(Clone, Copy, PartialEq, Eq, Structural)]
pub struct MboxStatus(pub u32);

impl MboxStatus {
    /// Bit 31: no room to write.
    pub fn is_full(&self) -> (r: bool)
        ensures
            r == (self.0 & 0x8000_0000 != 0),
    {
        self.0 & 0x8000_0000 != 0
    }

    /// Bit 30: nothing to read.
    pub fn is_empty(&self) -> (r: bool)
        ensures
            r == (self.0 & 0x4000_0000 != 0),
    {
        self.0 & 0x4000_0000 != 0
    }
}

#[derive(Clone, Copy, PartialEq, Eq, Structural)]
pub enum PixelOrder {
    Bgr,
    Rgb,
}

#[derive(Clone, Copy, PartialEq, Eq, Structural)]
pub enum AlphaMode {
    Enabled0Opaque,
    Enabled0Transparent,
    Ignored,
}

pub struct FbDepth {
    pub bits_per_pixel: u32,
}

pub struct FbPitch {
    pub bytes_per_line: u32,
}

pub struct FbDimensions {
    pub width_px: u32,
    pub height_px: u32,
}

pub struct FbOffset {
    pub x_px: u32,
    pub y_px: u32,
}

pub struct EdidBlock {
    pub block_number: u32,
    pub status: u32,
    pub data: [u8; 128],
}

pub struct MemoryBlock {
    pub address: u32,
    pub size: u32,
}

pub struct PaletteChange {
    pub offset: u32,
    pub length: u32,
    pub values: Vec<u32>,
}

/// Property tags.
#[derive(Clone, Copy, PartialEq, Eq, Structural)]
pub enum Tag {
    End,
    VcGetFirmwareRevision,
    HwGetBoardModel,
    HwGetBoardRevision,
    HwGetBoardMacAddress,
    HwGetBoardSerial,
    HwGetArmMemory,
    HwGetVcMemory,
    HwGetClocks,
    GetEdidBlock,
    GetOnboardLedStatus,
    TestOnboardLedStatus,
    SetOnboardLedStatus,
}

impl Tag {
    pub open spec fn spec_code(self) -> u32 {
        match self {
            Tag::End => 0,
            Tag::VcGetFirmwareRevision => 0x0000_0001,
            Tag::HwGetBoardModel => 0x0001_0001,
            Tag::HwGetBoardRevision => 0x0001_0002,
            Tag::HwGetBoardMacAddress => 0x0001_0003,
            Tag::HwGetBoardSerial => 0x0001_0004,
            Tag::HwGetArmMemory => 0x0001_0005,
            Tag::HwGetVcMemory => 0x0001_0006,
            Tag::HwGetClocks => 0x0001_0007,
            Tag::GetEdidBlock => 0x0003_0020,
            Tag::GetOnboardLedStatus => 0x0003_0041,
            Tag::TestOnboardLedStatus => 0x0003_4041,
            Tag::SetOnboardLedStatus => 0x0003_8041,
        }
    }

    pub fn code(self) -> (r: u32)
        ensures
            r == self.spec_code(),
    {
        match self {
            Tag::End => 0,
            Tag::VcGetFirmwareRevision => 0x0000_0001,
            Tag::HwGetBoardModel => 0x0001_0001,
            Tag::HwGetBoardRevision => 0x0001_0002,
            Tag::HwGetBoardMacAddress => 0x0001_0003,
            Tag::HwGetBoardSerial => 0x0001_0004,
            Tag::HwGetArmMemory => 0x0001_0005,
            Tag::HwGetVcMemory => 0x0001_0006,
            Tag::HwGetClocks => 0x0001_0007,
            Tag::GetEdidBlock => 0x0003_0020,
            Tag::GetOnboardLedStatus => 0x0003_0041,
            Tag::TestOnboardLedStatus => 0x0003_4041,
            Tag::SetOnboardLedStatus => 0x0003_8041,
        }
    }
}

/// The property channel.
pub const CHANNEL_PROPERTIES: u8 = 8;
/// Size in bytes of a message header: tag, value buffer size, response code.
pub const HEADER_BYTES: u32 = 12;

/// Word written to the mailbox: the buffer address (in units of 16 bytes) above the
/// four bit channel.
pub fn write_value(channel: u8, data: u32) -> (r: u32)
    requires
        channel < 16,
        data < 0x1000_0000,
    ensures
        r == data * 16 + channel,
{
    data * 16 + channel as u32
}

/// A word read from the mailbox holds data for `channel` when its low four bits name it.
pub fn read_value(channel: u8, data: u32) -> (r: Option<u32>)
    ensures
        data % 16 == channel ==> r == Some(data / 16),
        data % 16 != channel ==> r is None,
{
    let read_channel = (data & 0xF) as u8;
    let d = data >> 4;
    assert(read_channel == data % 16 && d == data / 16) by (bit_vector)
        requires read_channel == (data & 0xF) as u8, d == data >> 4;
    if read_channel == channel {
        Some(d)
    } else {
        None
    }
}

/// Number of words of a message whose value buffer holds `value_bytes` bytes.
pub open spec fn message_words(value_bytes: u32) -> int {
    (HEADER_BYTES + value_bytes + 3) / 4
}

/// A property buffer: its size in bytes, the request/response code, and the messages.
pub struct Mailbox {
    pub size: u32,
    pub req_res_code: ReqResCode,
    pub buffer: Vec<u32>,
}

impl Mailbox {
    /// Index of the first free word of the buffer.
    pub open spec fn spec_end_index(&self) -> int {
        (self.size - 12) / 4
    }

    pub open spec fn wf(&self) -> bool {
        &&& 12 <= self.size
        &&& (self.size - 12) % 4 == 0
        &&& 0 < self.buffer@.len() < 0x1000_0000
        &&& self.spec_end_index() <= self.buffer@.len() - 1
    }

    /// An empty buffer of `buffer_size` words: a header and the end tag.
    pub fn new(buffer_size: usize) -> (r: Self)
        requires
            0 < buffer_size < 0x1000_0000,
        ensures
            r.wf(),
            r.size == 12,
            r.req_res_code.0 == RequestResponseStatus::Pending,
            r.buffer@ == Seq::new(buffer_size as nat, |i: int| 0u32),
    {
        let mut buffer: Vec<u32> = Vec::new();
        while buffer.len() < buffer_size
            invariant
                buffer@.len() <= buffer_size,
                buffer@ == Seq::new(buffer@.len(), |i: int| 0u32),
            decreases buffer_size - buffer@.len(),
        {
            buffer.push(0);
            assert(buffer@ =~= Seq::new(buffer@.len(), |i: int| 0u32));
        }
        Mailbox { size: 12, req_res_code: ReqResCode::cleared(), buffer }
    }

    pub fn buffer_end_index(&self) -> (r: usize)
        requires
            self.wf(),
        ensures
            r == self.spec_end_index(),
    {
        ((self.size - 12) / 4) as usize
    }

    /// Appends a message header for `tag` with a value buffer of the given size in bytes,
    /// keeping the last word free for the end tag. Returns the word range of the value
    /// buffer.
    pub fn push_request_raw(&mut self, tag: u32, value_buffer_byte_size: u32) -> (r: Result<(usize, usize), MailboxError>)
        requires
            old(self).wf(),
        ensures
            final(self).wf(),
            final(self).req_res_code == old(self).req_res_code,
            final(self).buffer@.len() == old(self).buffer@.len(),
            ({
                let start = old(self).spec_end_index();
                let end = start + message_words(value_buffer_byte_size);
                if end > old(self).buffer@.len() - 1 {
                    &&& r == Err::<(usize, usize), MailboxError>(MailboxError::BufferOverflow)
                    &&& final(self).size == old(self).size
                    &&& final(self).buffer@ == old(self).buffer@
                } else {
                    &&& r == Ok::<(usize, usize), MailboxError>(((start + 3) as usize, end as usize))
                    &&& final(self).size == old(self).size + 4 * message_words(value_buffer_byte_size)
                    &&& final(self).buffer@ == old(self).buffer@.update(start, tag).update(start + 1, value_buffer_byte_size).update(start + 2, 0)
                }
            }),
    {
        let message_u32_size: usize = ((12 + value_buffer_byte_size as u64 + 3) / 4) as usize;
        let message_start = self.buffer_end_index();
        let message_end = message_start + message_u32_size;
        if message_end > self.buffer.len() - 1 {
            return Err(MailboxError::BufferOverflow);
        }
        self.size = self.size + (message_u32_size * 4) as u32;
        self.buffer.set(message_start, tag);
        self.buffer.set(message_start + 1, value_buffer_byte_size);
        self.buffer.set(message_start + 2, 0);
        Ok((message_start + 3, message_end))
    }

    /// Writes word `index` of the buffer (a word of a request's value buffer).
    pub fn set_word(&mut self, index: usize, value: u32)
        requires
            old(self).wf(),
            index < old(self).buffer@.len(),
        ensures
            final(self).wf(),
            final(self).size == old(self).size,
            final(self).req_res_code == old(self).req_res_code,
            final(self).buffer@ == old(self).buffer@.update(index as int, value),
    {
        self.buffer.set(index, value);
    }

    /// The outcome of an exchange with the firmware, once it has answered: the responses
    /// on success, else the status it left.
    pub fn submit_messages(&self) -> (r: Result<ResponseIterator, MailboxError>)
        ensures
            self.req_res_code.0 == RequestResponseStatus::Success ==> (r matches Ok(it) && it.buffer@ == self.buffer@ && it.position == 0),
            self.req_res_code.0 != RequestResponseStatus::Success ==> r == Err::<ResponseIterator, MailboxError>(MailboxError::RequestResponseError(self.req_res_code.0)),
    {
        match self.req_res_code.get() {
            RequestResponseStatus::Success => Ok(ResponseIterator { buffer: self.buffer.clone(), position: 0 }),
            e => Err(MailboxError::RequestResponseError(e)),
        }
    }
}

#[derive(Clone, Copy, PartialEq, Eq, Structural)]
pub struct MessageHeader {
    pub tag: u32,
    pub value_length: u32,
    pub response_code_length: u32,
}

/// One message of a response: its header, its value buffer, and the index of the
/// value buffer's first word in the property buffer.
pub struct Response {
    pub header: MessageHeader,
    pub value_buffer: Vec<u32>,
    pub value_offset: usize,
}

/// Whether word `index` of the property buffer lies on an `align`-byte boundary: the
/// buffer follows the 8 bytes of size and code at the start of a 16-byte aligned block.
pub open spec fn word_aligned(index: int, align: int) -> bool {
    (8 + 4 * index) % align == 0
}

impl Response {
    /// The first `words` words of the value buffer, read as a value whose alignment is
    /// `align` bytes: `None` when the buffer is shorter or does not start on such a
    /// boundary.
    pub fn try_value_as(&self, words: usize, align: usize) -> (r: Option<Vec<u32>>)
        requires
            align == 4 || align == 8,
        ensures
            words <= self.value_buffer@.len() && word_aligned(self.value_offset as int, align as int)
                ==> (r matches Some(v) && v@ == self.value_buffer@.subrange(0, words as int)),
            !(words <= self.value_buffer@.len() && word_aligned(self.value_offset as int, align as int)) ==> r is None,
    {
        let aligned = align == 4 || self.value_offset % 2 == 0;
        proof {
            let x = self.value_offset as int;
            assert((8 + 4 * x) % 4 == 0) by (nonlinear_arith)
                requires x >= 0;
            assert(x % 2 == 0 <==> (8 + 4 * x) % 8 == 0) by (nonlinear_arith)
                requires x >= 0;
        }
        if words <= self.value_buffer.len() && aligned {
            let mut out: Vec<u32> = Vec::new();
            let mut i: usize = 0;
            while i < words
                invariant
                    i <= words <= self.value_buffer@.len(),
                    out@ == self.value_buffer@.subrange(0, i as int),
                decreases words - i,
            {
                out.push(self.value_buffer[i]);
                i += 1;
                assert(out@ =~= self.value_buffer@.subrange(0, i as int));
            }
            Some(out)
        } else {
            None
        }
    }
}

/// Walks the messages of a property buffer.
pub struct ResponseIterator {
    pub buffer: Vec<u32>,
    pub position: usize,
}

/// A message at word `p` of `s` can be read: its value buffer ends inside `s`.
pub open spec fn response_readable(s: Seq<u32>, p: int) -> bool {
    p + 3 <= s.len() && s[p] != 0 ==> p + message_words(s[p + 1]) <= s.len()
}

impl ResponseIterator {
    /// The next message: none at the end of the buffer or at the end tag (0), an error
    /// when the header does not fit.
    pub fn next(&mut self) -> (r: Option<Result<Response, MailboxError>>)
        requires
            old(self).position <= old(self).buffer@.len(),
            response_readable(old(self).buffer@, old(self).position as int),
        ensures
            final(self).buffer@ == old(self).buffer@,
            final(self).position <= final(self).buffer@.len(),
            ({
                let s = old(self).buffer@;
                let p = old(self).position as int;
                if p >= s.len() || s[p] == 0 {
                    r is None && final(self).position == p
                } else if p + 3 > s.len() {
                    r == Some(Err::<Response, MailboxError>(MailboxError::BufferSizeMismatch)) && final(self).position == p
                } else {
                    let end = p + message_words(s[p + 1]);
                    &&& final(self).position == end
                    &&& r matches Some(Ok(resp))
                    &&& resp.header == (MessageHeader { tag: s[p], value_length: s[p + 1], response_code_length: s[p + 2] })
                    &&& resp.value_buffer@ == s.subrange(p + 3, end)
                    &&& resp.value_offset == p + 3
                }
            }),
    {
        let p = self.position;
        if p >= self.buffer.len() {
            return None;
        }
        let tag = self.buffer[p];
        if tag == 0 {
            return None;
        }
        if self.buffer.len() - p < 3 {
            return Some(Err(MailboxError::BufferSizeMismatch));
        }
        let header = MessageHeader { tag, value_length: self.buffer[p + 1], response_code_length: self.buffer[p + 2] };
        let words: usize = ((12 + header.value_length as u64 + 3) / 4) as usize;
        let end = p + words;
        let mut value_buffer: Vec<u32> = Vec::new();
        let mut i = p + 3;
        while i < end
            invariant
                p + 3 <= i <= end,
                end <= self.buffer@.len(),
                value_buffer@ == self.buffer@.subrange(p + 3, i as int),
            decreases end - i,
        {
            value_buffer.push(self.buffer[i]);
            i += 1;
            assert(value_buffer@ =~= self.buffer@.subrange(p + 3, i as int));
        }
        self.position = end;
        Some(Ok(Response { header, value_buffer, value_offset: p + 3 }))
    }
}

/// Whether the `n` messages from word `p` on can be read one after the other.
pub open spec fn chain_readable(s: Seq<u32>, p: int, n: nat) -> bool
    decreases n,
{
    n == 0 || {
        &&& response_readable(s, p)
        &&& (p + 3 <= s.len() && p < s.len() && s[p] != 0 ==> chain_readable(s, p + message_words(s[p + 1]), (n - 1) as nat))
    }
}

/// Whether the `n` messages from word `p` on each end inside `buffer` (stopping early at
/// the end tag or at a header that does not fit), as the readers of a response need.
pub fn responses_fit(buffer: &[u32], p: usize, n: usize) -> (r: bool)
    requires
        p <= buffer@.len(),
    ensures
        r == chain_readable(buffer@, p as int, n as nat),
    decreases n,
{
    if n == 0 {
        return true;
    }
    if buffer.len() - p < 3 || buffer[p] == 0 {
        return true;
    }
    let words: u64 = (12 + buffer[p + 1] as u64 + 3) / 4;
    if words > (buffer.len() - p) as u64 {
        return false;
    }
    responses_fit(buffer, p + words as usize, n - 1)
}

/// Buffer for a single property call: one message whose value buffer is large enough
/// for the request and for the response (`value_words` words), starting with the
/// request words.
pub fn simple_single_call_request(tag: u32, request: &[u32], value_words: usize) -> (r: Result<Mailbox, MailboxError>)
    requires
        request@.len() <= value_words,
        value_words < 0x1000_0000,
    ensures
        value_words + 4 > 64 ==> r == Err::<Mailbox, MailboxError>(MailboxError::BufferOverflow),
        value_words + 4 <= 64 ==> (r matches Ok(mb) && {
            &&& mb.wf()
            &&& mb.req_res_code.0 == RequestResponseStatus::Pending
            &&& mb.buffer@.len() == 64
            &&& mb.buffer@[0] == tag
            &&& mb.buffer@[1] == 4 * value_words
            &&& mb.buffer@[2] == 0
            &&& mb.buffer@.subrange(3, 3 + request@.len() as int) == request@
            &&& forall|i: int| 3 + request@.len() <= i < 64 ==> mb.buffer@[i] == 0
        }),
{
    let mut mbox = Mailbox::new(64);
    let byte_size = (value_words * 4) as u32;
    match mbox.push_request_raw(tag, byte_size) {
        Err(e) => Err(e),
        Ok((start, _end)) => {
            let mut i: usize = 0;
            while i < request.len()
                invariant
                    mbox.wf(),
                    start == 3,
                    i <= request@.len(),
                    request@.len() <= value_words,
                    value_words + 4 <= 64,
                    mbox.req_res_code.0 == RequestResponseStatus::Pending,
                    mbox.buffer@.len() == 64,
                    mbox.buffer@[0] == tag,
                    mbox.buffer@[1] == byte_size,
                    mbox.buffer@[2] == 0,
                    forall|k: int| 3 <= k < 3 + i ==> mbox.buffer@[k] == request@[k - 3],
                    forall|k: int| 3 + i <= k < 64 ==> mbox.buffer@[k] == 0,
                decreases request@.len() - i,
            {
                mbox.set_word(start + i, request[i]);
                i += 1;
            }
            assert(mbox.buffer@.subrange(3, 3 + request@.len() as int) =~= request@);
            Ok(mbox)
        },
    }
}

/// The reply of a single property call: the first `value_words` words of the first
/// message's value buffer.
pub fn simple_single_call_response(mailbox: &Mailbox, value_words: usize) -> (r: Result<Vec<u32>, MailboxError>)
    requires
        response_readable(mailbox.buffer@, 0),
    ensures
        mailbox.req_res_code.0 != RequestResponseStatus::Success
            ==> r == Err::<Vec<u32>, MailboxError>(MailboxError::RequestResponseError(mailbox.req_res_code.0)),
        mailbox.req_res_code.0 == RequestResponseStatus::Success ==> {
            let s = mailbox.buffer@;
            if s.len() == 0 || s[0] == 0 {
                r == Err::<Vec<u32>, MailboxError>(MailboxError::ResponseIterationError)
            } else if s.len() < 3 {
                r == Err::<Vec<u32>, MailboxError>(MailboxError::BufferSizeMismatch)
            } else if 3 + value_words > message_words(s[1]) {
                r == Err::<Vec<u32>, MailboxError>(MailboxError::ResponseReinterpretationError)
            } else {
                r matches Ok(v) && v@ == s.subrange(3, 3 + value_words)
            }
        },
{
    let mut responses = match mailbox.submit_messages() {
        Ok(it) => it,
        Err(e) => { return Err(e); },
    };
    match responses.next() {
        None => Err(MailboxError::ResponseIterationError),
        Some(Err(e)) => Err(e),
        Some(Ok(response)) => match response.try_value_as(value_words, 4) {
            None => Err(MailboxError::ResponseReinterpretationError),
            Some(v) => {
                proof {
                    assert(v@ =~= mailbox.buffer@.subrange(3, 3 + value_words));
                }
                Ok(v)
            },
        },
    }
}

/// A request pushed into an empty buffer is the first message the buffer reads back as:
/// same tag, same value size, and a value buffer of the pushed length.
pub proof fn lemma_request_read_back(before: Seq<u32>, after: Seq<u32>, tag: u32, value_bytes: u32)
    requires
        tag != 0,
        before.len() >= 3,
        3 <= message_words(value_bytes) <= before.len() - 1,
        after == before.update(0, tag).update(1, value_bytes).update(2, 0),
    ensures
        after[0] == tag,
        after[1] == value_bytes,
        after[2] == 0,
        response_readable(after, 0),
        message_words(after[1]) == message_words(value_bytes),
{
}


/// Where the iterator stands after `next` from word `p` of `s`: past the message when
/// one is read, else where it was.
pub open spec fn next_position(s: Seq<u32>, p: int) -> int {
    if p >= s.len() || s[p] == 0 || p + 3 > s.len() {
        p
    } else {
        p + message_words(s[p + 1])
    }
}

/// Whether the message at word `p` of `s` is present and its value buffer holds at
/// least `k` words.
pub open spec fn message_has(s: Seq<u32>, p: int, k: int) -> bool {
    &&& 0 <= p < s.len()
    &&& s[p] != 0
    &&& p + 3 <= s.len()
    &&& 3 + k <= message_words(s[p + 1])
}

/// The first `k` value words of the message at word `p`, if it is there and long enough.
pub open spec fn response_value(s: Seq<u32>, p: int, k: int) -> Option<Seq<u32>> {
    if message_has(s, p, k) {
        Some(s.subrange(p + 3, p + 3 + k))
    } else {
        None
    }
}

/// The first `k` value words of the next response, if it is there and long enough.
pub fn next_response_value(responses: &mut ResponseIterator, k: usize) -> (r: Option<Vec<u32>>)
    requires
        old(responses).position <= old(responses).buffer@.len(),
        response_readable(old(responses).buffer@, old(responses).position as int),
    ensures
        final(responses).buffer@ == old(responses).buffer@,
        final(responses).position <= final(responses).buffer@.len(),
        final(responses).position == next_position(old(responses).buffer@, old(responses).position as int),
        match response_value(old(responses).buffer@, old(responses).position as int, k as int) {
            Some(v) => r matches Some(w) && w@ == v,
            None => r is None,
        },
{
    match responses.next() {
        None => None,
        Some(Err(_)) => None,
        Some(Ok(response)) => response.try_value_as(k, 4),
    }
}

} // verus!
