use vstd::prelude::*;
use crate::bits::{bit32, bit_test32, with_bit_set32, with_bit_cleared32};
use crate::peripherals::mailbox::{
    Mailbox, MailboxError, RequestResponseStatus, ResponseIterator, chain_readable, message_words,
    response_readable,
};

verus! {

pub const CLK_GET_CLOCK_STATE: u32 = 0x00030001;
pub const CLK_SET_CLOCK_STATE: u32 = 0x00038001;
pub const CLK_GET_CLOCK_RATE: u32 = 0x00030002;
pub const CLK_SET_CLOCK_RATE: u32 = 0x00038002;
pub const CLK_GET_MAX_CLOCK_RATE: u32 = 0x00030004;
pub const CLK_GET_MIN_CLOCK_RATE: u32 = 0x00030007;
pub const CLK_GET_TURBO: u32 = 0x00030009;
pub const CLK_SET_TURBO: u32 = 0x00038009;
pub const CLK_GET_CLOCK_RATE_MEASURED: u32 = 0x00030047;

/// A property request: tag, request words, and the value buffer size in words.
pub struct PropertyRequest {
    pub tag: u32,
    pub words: Vec<u32>,
    pub value_words: usize,
}

/// The second word of a reply, the value that follows the echoed id.
pub open spec fn reply_value(reply: Result<Vec<u32>, MailboxError>) -> Option<u32> {
    match reply {
        Ok(v) => if v@.len() >= 2 { Some(v@[1]) } else { None },
        Err(_) => None,
    }
}

pub fn second_word(reply: &Result<Vec<u32>, MailboxError>) -> (r: Option<u32>)
    ensures
        r == reply_value(*reply),
{
    match reply {
        Ok(v) => if v.len() >= 2 { Some(v[1]) } else { None },
        Err(_) => None,
    }
}

/// Clocks the firmware manages.
#[derive(Clone, Copy, PartialEq, Eq, Structural)]
pub enum Clock {
    Reserved,
    EMMC,
    UART,
    ARM,
    Core,
    V3D,
    H264,
    ISP,
    SDRAM,
    Pixel,
    PWM,
    HEVC,
    EMMC2,
    M2MC,
    PixelBVB,
}

/// On/off state of a clock: bit 0 on, bit 1 set when the clock does not exist.
#[derive(Clone, Copy, PartialEq, Eq, Structural)]
pub struct ClockState(pub u32);

impl ClockState {
    pub fn is_on(self) -> (r: bool)
        ensures
            r == bit32(self.0, 0),
    {
        bit_test32(self.0, 0)
    }

    pub fn with_on(self) -> (r: Self)
        ensures
            bit32(r.0, 0),
            forall|k: u32| 0 < k < 32 ==> bit32(r.0, k) == bit32(self.0, k),
    {
        ClockState(with_bit_set32(self.0, 0))
    }

    pub fn with_off(self) -> (r: Self)
        ensures
            !bit32(r.0, 0),
            forall|k: u32| 0 < k < 32 ==> bit32(r.0, k) == bit32(self.0, k),
    {
        ClockState(with_bit_cleared32(self.0, 0))
    }

    pub fn is_available(self) -> (r: bool)
        ensures
            r == !bit32(self.0, 1),
    {
        !bit_test32(self.0, 1)
    }
}

/// Switching a clock state on or off leaves whether the clock exists unchanged, and the
/// state reads back as set.
pub proof fn lemma_clock_state_switch(s: u32, on: u32, off: u32)
    requires
        bit32(on, 0),
        forall|k: u32| 0 < k < 32 ==> bit32(on, k) == bit32(s, k),
        !bit32(off, 0),
        forall|k: u32| 0 < k < 32 ==> bit32(off, k) == bit32(s, k),
    ensures
        bit32(on, 0) && !bit32(off, 0),
        bit32(on, 1) == bit32(s, 1),
        bit32(off, 1) == bit32(s, 1),
{
}

impl Clock {
    pub open spec fn spec_id(self) -> u32 {
        match self {
            Clock::Reserved => 0x00,
            Clock::EMMC => 0x01,
            Clock::UART => 0x02,
            Clock::ARM => 0x03,
            Clock::Core => 0x04,
            Clock::V3D => 0x05,
            Clock::H264 => 0x06,
            Clock::ISP => 0x07,
            Clock::SDRAM => 0x08,
            Clock::Pixel => 0x09,
            Clock::PWM => 0x0a,
            Clock::HEVC => 0x0b,
            Clock::EMMC2 => 0x0c,
            Clock::M2MC => 0x0d,
            Clock::PixelBVB => 0x0e,
        }
    }

    /// The firmware's clock id.
    pub fn id(&self) -> (r: u32)
        ensures
            r == self.spec_id(),
    {
        match self {
            Clock::Reserved => 0x00,
            Clock::EMMC => 0x01,
            Clock::UART => 0x02,
            Clock::ARM => 0x03,
            Clock::Core => 0x04,
            Clock::V3D => 0x05,
            Clock::H264 => 0x06,
            Clock::ISP => 0x07,
            Clock::SDRAM => 0x08,
            Clock::Pixel => 0x09,
            Clock::PWM => 0x0a,
            Clock::HEVC => 0x0b,
            Clock::EMMC2 => 0x0c,
            Clock::M2MC => 0x0d,
            Clock::PixelBVB => 0x0e,
        }
    }

    /// A request carrying only the clock id; the reply holds the id and one value.
    pub fn query(&self, tag: u32) -> (r: PropertyRequest)
        ensures
            r.tag == tag,
            r.words@ == seq![self.spec_id()],
            r.value_words == 2,
    {
        let mut words: Vec<u32> = Vec::new();
        words.push(self.id());
        PropertyRequest { tag, words, value_words: 2 }
    }

    /// The request that sets the rate (and, unless skipped, the turbo setting).
    pub fn set_rate_request(&self, rate_hz: u32, skip_setting_turbo: bool) -> (r: PropertyRequest)
        ensures
            r.tag == CLK_SET_CLOCK_RATE,
            r.words@ == seq![self.spec_id(), rate_hz, if skip_setting_turbo { 1u32 } else { 0u32 }],
            r.value_words == 3,
    {
        let mut words: Vec<u32> = Vec::new();
        words.push(self.id());
        words.push(rate_hz);
        words.push(if skip_setting_turbo { 1 } else { 0 });
        PropertyRequest { tag: CLK_SET_CLOCK_RATE, words, value_words: 3 }
    }

    /// The request that switches turbo mode.
    pub fn set_turbo_request(&self, turbo: bool) -> (r: PropertyRequest)
        ensures
            r.tag == CLK_SET_TURBO,
            r.words@ == seq![self.spec_id(), if turbo { 1u32 } else { 0u32 }],
            r.value_words == 2,
    {
        let mut words: Vec<u32> = Vec::new();
        words.push(self.id());
        words.push(if turbo { 1 } else { 0 });
        PropertyRequest { tag: CLK_SET_TURBO, words, value_words: 2 }
    }

    /// The request that sets the clock's state.
    pub fn set_state_request(&self, state: ClockState) -> (r: PropertyRequest)
        ensures
            r.tag == CLK_SET_CLOCK_STATE,
            r.words@ == seq![self.spec_id(), state.0],
            r.value_words == 2,
    {
        let mut words: Vec<u32> = Vec::new();
        words.push(self.id());
        words.push(state.0);
        PropertyRequest { tag: CLK_SET_CLOCK_STATE, words, value_words: 2 }
    }

    /// The state in the reply to a state request.
    pub fn state(&self, reply: &Result<Vec<u32>, MailboxError>) -> (r: Option<ClockState>)
        ensures
            r == (match reply_value(*reply) { Some(v) => Some(ClockState(v)), None => None }),
    {
        match second_word(reply) {
            Some(v) => Some(ClockState(v)),
            None => None,
        }
    }

    /// The state in the reply to a set-state request.
    pub fn set_state(&self, reply: &Result<Vec<u32>, MailboxError>) -> (r: Option<ClockState>)
        ensures
            r == (match reply_value(*reply) { Some(v) => Some(ClockState(v)), None => None }),
    {
        self.state(reply)
    }

    /// The rate in hertz in the reply to a rate request.
    pub fn rate(&self, reply: &Result<Vec<u32>, MailboxError>) -> (r: Option<u32>)
        ensures
            r == reply_value(*reply),
    {
        second_word(reply)
    }

    /// The rate actually set, in the reply to a set-rate request.
    pub fn set_rate(&self, reply: &Result<Vec<u32>, MailboxError>) -> (r: Option<u32>)
        ensures
            r == reply_value(*reply),
    {
        second_word(reply)
    }

    pub fn rate_measured(&self, reply: &Result<Vec<u32>, MailboxError>) -> (r: Option<u32>)
        ensures
            r == reply_value(*reply),
    {
        second_word(reply)
    }

    pub fn max_clock_rate(&self, reply: &Result<Vec<u32>, MailboxError>) -> (r: Option<u32>)
        ensures
            r == reply_value(*reply),
    {
        second_word(reply)
    }

    pub fn min_clock_rate(&self, reply: &Result<Vec<u32>, MailboxError>) -> (r: Option<u32>)
        ensures
            r == reply_value(*reply),
    {
        second_word(reply)
    }

    /// Turbo is on when the reply's value is 1.
    pub fn get_turbo(&self, reply: &Result<Vec<u32>, MailboxError>) -> (r: Option<bool>)
        ensures
            r == (match reply_value(*reply) { Some(v) => Some(v == 1), None => None }),
    {
        match second_word(reply) {
            Some(v) => Some(v == 1),
            None => None,
        }
    }

    pub fn set_turbo(&self, reply: &Result<Vec<u32>, MailboxError>) -> (r: Option<bool>)
        ensures
            r == (match reply_value(*reply) { Some(v) => Some(v == 1), None => None }),
    {
        self.get_turbo(reply)
    }
}

/// Everything the firmware reports about a clock.
#[derive(Clone, Copy, PartialEq, Eq, Structural)]
pub struct ClockDescription {
    pub clock: Clock,
    pub available: bool,
    pub on: bool,
    pub rate_hz: u32,
    pub measured_rate_hz: u32,
    pub max_rate_hz: u32,
    pub min_rate_hz: u32,
    pub turbo: bool,
}

/// The tags of the six requests that describe a clock, in order.
pub open spec fn description_tag(i: int) -> u32 {
    if i == 0 { CLK_GET_CLOCK_STATE }
    else if i == 1 { CLK_GET_CLOCK_RATE }
    else if i == 2 { CLK_GET_CLOCK_RATE_MEASURED }
    else if i == 3 { CLK_GET_MAX_CLOCK_RATE }
    else if i == 4 { CLK_GET_MIN_CLOCK_RATE }
    else { CLK_GET_TURBO }
}

/// The buffer of the six description requests for the clock with id `id`: message `i`
/// fills words `5 i` to `5 i + 4` with its tag, the value size 8, a zero code, the id
/// and a zero word.
pub open spec fn clock_description_buffer(id: u32) -> Seq<u32> {
    Seq::new(64, |j: int|
        if j < 30 {
            if j % 5 == 0 { description_tag(j / 5) }
            else if j % 5 == 1 { 8u32 }
            else if j % 5 == 3 { id }
            else { 0u32 }
        } else {
            0u32
        })
}

/// The second value word of each of `n` consecutive responses from word `p` on, or
/// `None` if one of them is missing or too short.
pub open spec fn chain_values(s: Seq<u32>, p: int, n: nat) -> Option<Seq<u32>>
    decreases n,
{
    if n == 0 {
        Some(Seq::empty())
    } else if p >= s.len() || p < 0 || s[p] == 0 || p + 3 > s.len() || message_words(s[p + 1]) < 5 {
        None
    } else {
        match chain_values(s, p + message_words(s[p + 1]), (n - 1) as nat) {
            Some(rest) => Some(seq![s[p + 4]] + rest),
            None => None,
        }
    }
}

/// Reads the second value word of the next response, or `None`.
fn next_value(responses: &mut ResponseIterator, Ghost(n): Ghost<nat>) -> (r: Option<u32>)
    requires
        old(responses).position <= old(responses).buffer@.len(),
        n > 0,
        chain_readable(old(responses).buffer@, old(responses).position as int, n),
    ensures
        r is Some ==> chain_readable(final(responses).buffer@, final(responses).position as int, (n - 1) as nat),
        r is None ==> chain_values(old(responses).buffer@, old(responses).position as int, n) is None,
        r matches Some(v) ==> chain_values(old(responses).buffer@, old(responses).position as int, n) == match chain_values(
            final(responses).buffer@, final(responses).position as int, (n - 1) as nat) {
                Some(rest) => Some(seq![v] + rest),
                None => None::<Seq<u32>>,
            },
        final(responses).buffer@ == old(responses).buffer@,
        final(responses).position <= final(responses).buffer@.len(),
        ({
            let s = old(responses).buffer@;
            let p = old(responses).position as int;
            if p >= s.len() || s[p] == 0 || p + 3 > s.len() {
                r is None
            } else {
                &&& final(responses).position == p + message_words(s[p + 1])
                &&& (if message_words(s[p + 1]) >= 5 { r == Some(s[p + 4]) } else { r is None })
            }
        }),
{
    match responses.next() {
        None => None,
        Some(Err(_)) => None,
        Some(Ok(response)) => match response.try_value_as(2, 4) {
            None => None,
            Some(v) => Some(v[1]),
        },
    }
}

impl ClockDescription {
    /// The buffer with the six requests that describe `clock`: each asks for one value
    /// of the clock (8-byte value buffer holding the clock id), in the order of
    /// `description_tag`.
    pub fn request(clock: Clock) -> (r: Result<Mailbox, MailboxError>)
        ensures
            r matches Ok(mb) && {
                &&& mb.wf()
                &&& mb.size == 12 + 6 * 20
                &&& mb.req_res_code.0 == RequestResponseStatus::Pending
                &&& mb.buffer@ == clock_description_buffer(clock.spec_id())
            },
    {
        let mut mailbox = Mailbox::new(64);
        let id = clock.id();
        let mut i: usize = 0;
        while i < 6
            invariant
                i <= 6,
                id == clock.spec_id(),
                mailbox.wf(),
                mailbox.size == 12 + 20 * i,
                mailbox.req_res_code.0 == RequestResponseStatus::Pending,
                mailbox.buffer@.len() == 64,
                forall|j: int| 0 <= j < 64 ==> #[trigger] mailbox.buffer@[j] ==
                    if j < 5 * i { clock_description_buffer(id)[j] } else { 0u32 },
            decreases 6 - i,
        {
            let tag = if i == 0 { CLK_GET_CLOCK_STATE }
                else if i == 1 { CLK_GET_CLOCK_RATE }
                else if i == 2 { CLK_GET_CLOCK_RATE_MEASURED }
                else if i == 3 { CLK_GET_MAX_CLOCK_RATE }
                else if i == 4 { CLK_GET_MIN_CLOCK_RATE }
                else { CLK_GET_TURBO };
            assert(tag == description_tag(i as int));
            match mailbox.push_request_raw(tag, 8) {
                Err(e) => { return Err(e); },
                Ok((start, _end)) => {
                    mailbox.set_word(start, id);
                },
            }
            i += 1;
        }
        assert(mailbox.buffer@ =~= clock_description_buffer(id));
        Ok(mailbox)
    }

    /// The description in the firmware's answer to `request(clock)`: six responses,
    /// each with the clock id and one value.
    pub fn get(clock: Clock, mailbox: &Mailbox) -> (r: Option<ClockDescription>)
        requires
            chain_readable(mailbox.buffer@, 0, 6),
        ensures
            mailbox.req_res_code.0 != RequestResponseStatus::Success ==> r is None,
            mailbox.req_res_code.0 == RequestResponseStatus::Success ==> r == match chain_values(mailbox.buffer@, 0, 6) {
                None => None,
                Some(v) => Some(ClockDescription {
                    clock,
                    available: !bit32(v[0], 1),
                    on: bit32(v[0], 0),
                    rate_hz: v[1],
                    measured_rate_hz: v[2],
                    max_rate_hz: v[3],
                    min_rate_hz: v[4],
                    turbo: v[5] == 1,
                }),
            },
    {
        let mut responses = match mailbox.submit_messages() {
            Ok(it) => it,
            Err(_) => { return None; },
        };
        let state = match next_value(&mut responses, Ghost(6)) { Some(v) => ClockState(v), None => { return None; } };
        let rate_hz = match next_value(&mut responses, Ghost(5)) { Some(v) => v, None => { return None; } };
        let measured_rate_hz = match next_value(&mut responses, Ghost(4)) { Some(v) => v, None => { return None; } };
        let max_rate_hz = match next_value(&mut responses, Ghost(3)) { Some(v) => v, None => { return None; } };
        let min_rate_hz = match next_value(&mut responses, Ghost(2)) { Some(v) => v, None => { return None; } };
        let turbo_u32 = match next_value(&mut responses, Ghost(1)) { Some(v) => v, None => { return None; } };
        proof {
            let p = responses.position as int;
            assert(chain_values(responses.buffer@, p, 0) == Some(Seq::<u32>::empty()));
            let v = chain_values(mailbox.buffer@, 0, 6).unwrap();
            assert(v =~= seq![state.0, rate_hz, measured_rate_hz, max_rate_hz, min_rate_hz, turbo_u32]);
        }
        Some(ClockDescription {
            clock,
            available: state.is_available(),
            on: state.is_on(),
            rate_hz,
            measured_rate_hz,
            max_rate_hz,
            min_rate_hz,
            turbo: turbo_u32 == 1,
        })
    }
}

} // verus!
