use vstd::prelude::*;
use crate::hal::clocks::PropertyRequest;
use crate::peripherals::mailbox::{MailboxError, Tag};

verus! {

/// On-board LEDs, by firmware pin number.
#[derive(Clone, Copy, PartialEq, Eq, Structural)]
pub enum Led {
    Status,
    Power,
}

impl Led {
    pub open spec fn spec_pin(self) -> u32 {
        match self {
            Led::Status => 42,
            Led::Power => 130,
        }
    }

    pub fn pin(&self) -> (r: u32)
        ensures r == self.spec_pin(),
    {
        match self {
            Led::Status => 42,
            Led::Power => 130,
        }
    }

    /// The request that switches the LED.
    pub fn set(&self, on: bool) -> (r: PropertyRequest)
        ensures
            r.tag == Tag::SetOnboardLedStatus.spec_code(),
            r.words@ == seq![self.spec_pin(), if on { 1u32 } else { 0u32 }],
            r.value_words == 2,
    {
        let mut words: Vec<u32> = Vec::new();
        words.push(self.pin());
        words.push(if on { 1 } else { 0 });
        PropertyRequest { tag: Tag::SetOnboardLedStatus.code(), words, value_words: 2 }
    }

    /// The request that asks for the LED's state.
    pub fn get_request(&self) -> (r: PropertyRequest)
        ensures
            r.tag == Tag::GetOnboardLedStatus.spec_code(),
            r.words@ == seq![self.spec_pin()],
            r.value_words == 2,
    {
        let mut words: Vec<u32> = Vec::new();
        words.push(self.pin());
        PropertyRequest { tag: Tag::GetOnboardLedStatus.code(), words, value_words: 2 }
    }

    /// Whether the reply says the LED is on; a failed call reads as off.
    pub fn get(&self, reply: &Result<Vec<u32>, MailboxError>) -> (r: bool)
        ensures
            r == (match reply {
                Ok(v) => v@.len() >= 2 && v@[1] == 1,
                Err(_) => false,
            }),
    {
        match reply {
            Ok(v) => v.len() >= 2 && v[1] == 1,
            Err(_) => false,
        }
    }

    pub fn on(&self) -> (r: PropertyRequest)
        ensures
            r.tag == Tag::SetOnboardLedStatus.spec_code(),
            r.words@ == seq![self.spec_pin(), 1u32],
            r.value_words == 2,
    {
        self.set(true)
    }

    pub fn off(&self) -> (r: PropertyRequest)
        ensures
            r.tag == Tag::SetOnboardLedStatus.spec_code(),
            r.words@ == seq![self.spec_pin(), 0u32],
            r.value_words == 2,
    {
        self.set(false)
    }

    /// The steps of a blink pattern: for bit 7 first, down to bit 0, switch the LED to the
    /// bit's state and wait `step_nanos` nanoseconds.
    pub fn blink_pattern(&self, pattern: u8, step_nanos: u128) -> (r: Vec<LedStep>)
        ensures
            r@.len() == 16,
            forall|j: int| 0 <= j < 16 ==> #[trigger] r@[j] == pattern_step(pattern, step_nanos, j),
    {
        let mut steps: Vec<LedStep> = Vec::new();
        let mut i: u8 = 0;
        while i < 8
            invariant
                i <= 8,
                steps@.len() == 2 * i,
                forall|j: int| 0 <= j < 2 * i ==> #[trigger] steps@[j] == pattern_step(pattern, step_nanos, j),
            decreases 8 - i,
        {
            let shifted = pattern << i;
            let bit = (shifted & 0x80) != 0;
            proof { lemma_pattern_bit(pattern, i); }
            steps.push(LedStep::Switch(bit));
            steps.push(LedStep::Wait(step_nanos));
            i += 1;
        }
        steps
    }
}

/// Step `j` of a blink pattern: even steps switch the LED to bit `7 - j / 2` of the
/// pattern, odd steps wait.
pub open spec fn pattern_step(pattern: u8, step_nanos: u128, j: int) -> LedStep {
    if j % 2 == 0 {
        LedStep::Switch((pattern >> (7 - j / 2) as u8) & 1 == 1)
    } else {
        LedStep::Wait(step_nanos)
    }
}

/// One step of an LED sequence: switch the LED on or off, or spin for a time.
#[derive(Clone, Copy, PartialEq, Eq, Structural)]
pub enum LedStep {
    Switch(bool),
    Wait(u128),
}

proof fn lemma_pattern_bit(pattern: u8, i: u8)
    requires
        i < 8,
    ensures
        (((pattern << i) & 0x80) != 0) == ((pattern >> (7 - i) as u8) & 1 == 1),
{
    assert((((pattern << i) & 0x80) != 0) == ((pattern >> (7 - i) as u8) & 1 == 1)) by (bit_vector)
        requires i < 8;
}

/// The steps of a double blink of the status LED, whose state is `is_on` at the start:
/// toggle, restore, toggle, restore, with a wait of `interval_msec` milliseconds between
/// each two; the LED ends as it started.
pub fn status_blink_twice(is_on: bool, interval_msec: u64) -> (r: Vec<LedStep>)
    ensures
        r@ == seq![
            LedStep::Switch(!is_on),
            LedStep::Wait((interval_msec * 1_000_000) as u128),
            LedStep::Switch(is_on),
            LedStep::Wait((interval_msec * 1_000_000) as u128),
            LedStep::Switch(!is_on),
            LedStep::Wait((interval_msec * 1_000_000) as u128),
            LedStep::Switch(is_on),
        ],
{
    let nanos: u128 = interval_msec as u128 * 1_000_000;
    let mut steps: Vec<LedStep> = Vec::new();
    steps.push(LedStep::Switch(!is_on));
    steps.push(LedStep::Wait(nanos));
    steps.push(LedStep::Switch(is_on));
    steps.push(LedStep::Wait(nanos));
    steps.push(LedStep::Switch(!is_on));
    steps.push(LedStep::Wait(nanos));
    steps.push(LedStep::Switch(is_on));
    steps
}

} // verus!
