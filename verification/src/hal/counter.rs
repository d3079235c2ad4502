use vstd::prelude::*;
use crate::bits::{field64, with_field64, get_field64, set_field64};

verus! {

pub const NANOS_PER_SECOND: u64 = 1_000_000_000;

/// A value of the physical counter together with the counter's frequency in hertz.
#[derive(Clone, Copy, PartialEq, Eq, Structural)]
pub struct PointInTime {
    pub counter_val: u64,
    pub frequency: u32,
}

/// Counter ticks in `nanos` nanoseconds at `frequency` hertz, rounded down and
/// truncated to 64 bits.
pub open spec fn ticks_in(nanos: u128, frequency: u32) -> u64 {
    ((nanos * frequency) / 1_000_000_000) as u64
}

/// Nanoseconds in `ticks` counter ticks at `frequency` hertz, rounded down.
pub open spec fn nanos_in(ticks: u64, frequency: u32) -> int {
    (ticks * 1_000_000_000) / (frequency as int)
}

/// Largest duration in nanoseconds (that of `u64::MAX` seconds and 999_999_999 ns).
pub const MAX_DURATION_NANOS: u128 = 18_446_744_073_709_551_615_999_999_999;

impl PointInTime {
    /// The point in time made of the counter value and the frequency register value
    /// read from the core (the frequency is the register's low 32 bits).
    pub fn now(counter: u64, frequency_register: u64) -> (r: Self)
        ensures
            r.counter_val == counter,
            r.frequency == frequency_register as u32,
    {
        PointInTime { counter_val: counter, frequency: frequency_register as u32 }
    }

    /// As `now`, for values read after an instruction barrier.
    pub fn now_ordered(counter: u64, frequency_register: u64) -> (r: Self)
        ensures
            r.counter_val == counter,
            r.frequency == frequency_register as u32,
    {
        Self::now(counter, frequency_register)
    }

    /// The point `nanos` nanoseconds later.
    pub fn add(self, nanos: u128) -> (r: Self)
        requires
            nanos <= MAX_DURATION_NANOS,
            self.counter_val + ticks_in(nanos, self.frequency) <= u64::MAX,
        ensures
            r.counter_val == self.counter_val + ticks_in(nanos, self.frequency),
            r.frequency == self.frequency,
    {
        proof {
            assert(nanos * self.frequency <= MAX_DURATION_NANOS * 0xFFFF_FFFF) by (nonlinear_arith)
                requires nanos <= MAX_DURATION_NANOS, self.frequency <= 0xFFFF_FFFF;
        }
        let ticks = ((nanos * self.frequency as u128) / 1_000_000_000) as u64;
        PointInTime { counter_val: self.counter_val + ticks, frequency: self.frequency }
    }

    /// Nanoseconds from `earlier` to `self`.
    pub fn sub(self, earlier: Self) -> (r: u64)
        requires
            earlier.frequency == self.frequency,
            self.frequency > 0,
            earlier.counter_val <= self.counter_val,
            (self.counter_val - earlier.counter_val) * 1_000_000_000 <= u64::MAX,
        ensures
            r == nanos_in((self.counter_val - earlier.counter_val) as u64, self.frequency),
    {
        let ticks = self.counter_val - earlier.counter_val;
        (ticks * NANOS_PER_SECOND) / self.frequency as u64
    }

    /// Nanoseconds since this point, given the current point.
    pub fn elapsed(self, now: Self) -> (r: u64)
        requires
            now.frequency == self.frequency,
            self.frequency > 0,
            self.counter_val <= now.counter_val,
            (now.counter_val - self.counter_val) * 1_000_000_000 <= u64::MAX,
        ensures
            r == nanos_in((now.counter_val - self.counter_val) as u64, self.frequency),
    {
        now.sub(self)
    }

    pub fn elapsed_ordered(self, now: Self) -> (r: u64)
        requires
            now.frequency == self.frequency,
            self.frequency > 0,
            self.counter_val <= now.counter_val,
            (now.counter_val - self.counter_val) * 1_000_000_000 <= u64::MAX,
        ensures
            r == nanos_in((now.counter_val - self.counter_val) as u64, self.frequency),
    {
        now.sub(self)
    }

    /// Whether this point lies after the counter value `counter_now`.
    pub fn is_in_the_future(self, counter_now: u64) -> (r: bool)
        ensures
            r == (self.counter_val > counter_now),
    {
        self.counter_val > counter_now
    }

    pub fn is_in_the_future_ordered(self, counter_now: u64) -> (r: bool)
        ensures
            r == (self.counter_val > counter_now),
    {
        self.counter_val > counter_now
    }

    /// The value to write to the timer's compare register (CNTP_CVAL_EL0).
    pub fn set_as_compare_val(self) -> (r: u64)
        ensures
            r == self.counter_val,
    {
        self.counter_val
    }

    /// Nanoseconds since the counter was zero.
    pub fn time_since_zero(self) -> (r: u64)
        requires
            self.frequency > 0,
            self.counter_val * 1_000_000_000 <= u64::MAX,
        ensures
            r == nanos_in(self.counter_val, self.frequency),
    {
        (self.counter_val * NANOS_PER_SECOND) / self.frequency as u64
    }
}

/// Moving forward by a duration and measuring the distance back gives at most that
/// duration: both conversions round down.
pub proof fn lemma_add_then_sub(p: PointInTime, nanos: u128)
    requires
        p.frequency > 0,
        nanos <= MAX_DURATION_NANOS,
        (nanos * p.frequency) / 1_000_000_000 <= u64::MAX - p.counter_val,
    ensures
        nanos_in(ticks_in(nanos, p.frequency), p.frequency) <= nanos,
{
    let f = p.frequency as int;
    let t = (nanos * f) / 1_000_000_000;
    assert(t as u64 == t);
    assert((t * 1_000_000_000) / f <= nanos) by (nonlinear_arith)
        requires f > 0, t == (nanos * f) / 1_000_000_000, nanos >= 0;
}

// CNTP_CTL_EL0: bit 0 ENABLE, bit 1 IMASK, bit 2 ISTATUS.

/// The control register value with the timer enabled.
pub fn enable_interrupt(ctl: u64) -> (r: u64)
    ensures r == with_field64(ctl, 0, 1, 1),
{
    set_field64(ctl, 0, 1, 1)
}

pub fn is_interrupt_enabled(ctl: u64) -> (r: bool)
    ensures r == (field64(ctl, 0, 1) == 1),
{
    get_field64(ctl, 0, 1) == 1
}

pub fn disable_interrupt(ctl: u64) -> (r: u64)
    ensures r == with_field64(ctl, 0, 1, 0),
{
    set_field64(ctl, 0, 1, 0)
}

pub fn mask_interrupt(ctl: u64) -> (r: u64)
    ensures r == with_field64(ctl, 1, 1, 1),
{
    set_field64(ctl, 1, 1, 1)
}

pub fn is_interrupt_masked(ctl: u64) -> (r: bool)
    ensures r == (field64(ctl, 1, 1) == 1),
{
    get_field64(ctl, 1, 1) == 1
}

pub fn unmask_interrupt(ctl: u64) -> (r: u64)
    ensures r == with_field64(ctl, 1, 1, 0),
{
    set_field64(ctl, 1, 1, 0)
}

pub fn is_timer_condition_met(ctl: u64) -> (r: bool)
    ensures r == (field64(ctl, 2, 1) == 1),
{
    get_field64(ctl, 2, 1) == 1
}

/// The timer value (CNTP_TVAL_EL0) for a timeout `nanos` from now at the counter
/// frequency in CNTFRQ_EL0; the value must fit 32 bits.
pub fn set_timer_val(frequency_register: u64, nanos: u128) -> (r: u64)
    requires
        nanos <= MAX_DURATION_NANOS,
        ((frequency_register as u32) as int * nanos) / 1_000_000_000 <= u32::MAX,
    ensures
        r == ((frequency_register as u32) as int * nanos) / 1_000_000_000,
{
    let frequency = frequency_register as u32;
    proof {
        assert(frequency * nanos <= 0xFFFF_FFFF * MAX_DURATION_NANOS) by (nonlinear_arith)
            requires nanos <= MAX_DURATION_NANOS, frequency <= 0xFFFF_FFFF;
    }
    let timer_val = frequency as u128 * nanos / 1_000_000_000;
    timer_val as u64
}

/// The counter frequency in hertz: the low 32 bits of CNTFRQ_EL0.
pub fn frequency(frequency_register: u64) -> (r: u32)
    ensures r == frequency_register as u32,
{
    frequency_register as u32
}

/// Nanoseconds since the counter started.
pub fn uptime(now: PointInTime) -> (r: u64)
    requires
        now.frequency > 0,
        now.counter_val * 1_000_000_000 <= u64::MAX,
    ensures
        r == nanos_in(now.counter_val, now.frequency),
{
    now.time_since_zero()
}

} // verus!
