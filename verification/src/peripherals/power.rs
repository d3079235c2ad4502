use vstd::prelude::*;
use crate::bits::{bit32, bit_test32, with_bit_set32, with_bit_cleared32};
use crate::hal::clocks::{PropertyRequest, reply_value, second_word};
use crate::peripherals::mailbox::MailboxError;

verus! {

pub const PWR_GET_STATE: u32 = 0x00020001;
pub const PWR_SET_STATE: u32 = 0x00028001;
pub const PWR_GET_TIMING: u32 = 0x00020002;

/// Devices whose power the firmware switches.
#[derive(Clone, Copy, PartialEq, Eq, Structural)]
pub enum PowerDevice {
    SdCard,
    Uart0,
    Uart1,
    UsbHcd,
    I2C0,
    I2C1,
    I2C2,
    Spi,
    Ccp2Tx,
    Unknown0RPi4,
    Unknown1RPi4,
}

/// Power state: bit 0 on, bit 1 wait (on requests) or "does not exist" (on replies).
#[derive(Clone, Copy, PartialEq, Eq, Structural)]
pub struct PowerState(pub u32);

impl PowerState {
    pub fn is_on(self) -> (r: bool)
        ensures r == bit32(self.0, 0),
    {
        bit_test32(self.0, 0)
    }

    pub fn with_on(self) -> (r: Self)
        ensures
            bit32(r.0, 0),
            forall|k: u32| 0 < k < 32 ==> bit32(r.0, k) == bit32(self.0, k),
    {
        PowerState(with_bit_set32(self.0, 0))
    }

    pub fn with_off(self) -> (r: Self)
        ensures
            !bit32(r.0, 0),
            forall|k: u32| 0 < k < 32 ==> bit32(r.0, k) == bit32(self.0, k),
    {
        PowerState(with_bit_cleared32(self.0, 0))
    }

    pub fn with_wait_set(self) -> (r: Self)
        ensures
            bit32(r.0, 1),
            forall|k: u32| k < 32 && k != 1 ==> bit32(r.0, k) == bit32(self.0, k),
    {
        PowerState(with_bit_set32(self.0, 1))
    }

    pub fn with_wait_cleared(self) -> (r: Self)
        ensures
            !bit32(r.0, 1),
            forall|k: u32| k < 32 && k != 1 ==> bit32(r.0, k) == bit32(self.0, k),
    {
        PowerState(with_bit_cleared32(self.0, 1))
    }

    pub fn wait(self) -> (r: bool)
        ensures r == bit32(self.0, 1),
    {
        bit_test32(self.0, 1)
    }

    pub fn is_available(self) -> (r: bool)
        ensures r == !bit32(self.0, 1),
    {
        !bit_test32(self.0, 1)
    }
}

impl PowerDevice {
    pub open spec fn spec_id(self) -> u32 {
        match self {
            PowerDevice::SdCard => 0,
            PowerDevice::Uart0 => 1,
            PowerDevice::Uart1 => 2,
            PowerDevice::UsbHcd => 3,
            PowerDevice::I2C0 => 4,
            PowerDevice::I2C1 => 5,
            PowerDevice::I2C2 => 6,
            PowerDevice::Spi => 7,
            PowerDevice::Ccp2Tx => 8,
            PowerDevice::Unknown0RPi4 => 9,
            PowerDevice::Unknown1RPi4 => 10,
        }
    }

    pub fn id(&self) -> (r: u32)
        ensures r == self.spec_id(),
    {
        match self {
            PowerDevice::SdCard => 0,
            PowerDevice::Uart0 => 1,
            PowerDevice::Uart1 => 2,
            PowerDevice::UsbHcd => 3,
            PowerDevice::I2C0 => 4,
            PowerDevice::I2C1 => 5,
            PowerDevice::I2C2 => 6,
            PowerDevice::Spi => 7,
            PowerDevice::Ccp2Tx => 8,
            PowerDevice::Unknown0RPi4 => 9,
            PowerDevice::Unknown1RPi4 => 10,
        }
    }

    /// A request carrying only the device id (state or timing queries).
    pub fn query(&self, tag: u32) -> (r: PropertyRequest)
        ensures
            r.tag == tag,
            r.words@ == seq![self.spec_id()],
            r.value_words == 2,
    {
        let mut words: Vec<u32> = Vec::new();
        words.push(self.id());
        PropertyRequest { tag, words, value_words: 2 }
    }

    pub fn set_state_request(&self, state: PowerState) -> (r: PropertyRequest)
        ensures
            r.tag == PWR_SET_STATE,
            r.words@ == seq![self.spec_id(), state.0],
            r.value_words == 2,
    {
        let mut words: Vec<u32> = Vec::new();
        words.push(self.id());
        words.push(state.0);
        PropertyRequest { tag: PWR_SET_STATE, words, value_words: 2 }
    }

    pub fn state(&self, reply: &Result<Vec<u32>, MailboxError>) -> (r: Option<PowerState>)
        ensures
            r == (match reply_value(*reply) { Some(v) => Some(PowerState(v)), None => None }),
    {
        match second_word(reply) {
            Some(v) => Some(PowerState(v)),
            None => None,
        }
    }

    pub fn set_state(&self, reply: &Result<Vec<u32>, MailboxError>) -> (r: Option<PowerState>)
        ensures
            r == (match reply_value(*reply) { Some(v) => Some(PowerState(v)), None => None }),
    {
        self.state(reply)
    }

    /// Milliseconds the device needs to power up.
    pub fn timing_ms(&self, reply: &Result<Vec<u32>, MailboxError>) -> (r: Option<u32>)
        ensures
            r == reply_value(*reply),
    {
        second_word(reply)
    }
}

} // verus!
