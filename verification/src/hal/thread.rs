use vstd::prelude::*;
use crate::arm_core::{ExceptionLevel, SystemRegister, TpidrElx, wait_cycles};
use crate::hal::counter::{PointInTime, MAX_DURATION_NANOS, ticks_in};

verus! {

/// The register that holds the running thread's id at the current level.
pub fn id(level: ExceptionLevel) -> (r: SystemRegister)
    ensures
        r == TpidrElx::spec_register(level),
{
    TpidrElx::read_register(level)
}

/// The write that records `thread_id` as the running thread's id.
pub fn set_id(level: ExceptionLevel, thread_id: u64) -> (r: (SystemRegister, u64))
    ensures
        r == (TpidrElx::spec_register(level), thread_id),
{
    TpidrElx::write_register(level, thread_id)
}

/// Spins for `count` rounds.
pub fn spin_wait_cycles(count: usize) {
    wait_cycles(count)
}

/// The point in time at which a wait of `nanos` nanoseconds that starts `now` ends;
/// the wait spins until the counter reaches it.
pub fn spin_wait_for(now: PointInTime, nanos: u128) -> (r: PointInTime)
    requires
        nanos <= MAX_DURATION_NANOS,
        now.counter_val + ticks_in(nanos, now.frequency) <= u64::MAX,
    ensures
        r.counter_val == now.counter_val + ticks_in(nanos, now.frequency),
        r.frequency == now.frequency,
{
    now.add(nanos)
}

/// Whether a wait that ends at `expire_at` is over at counter value `counter_now`.
pub fn spin_wait_done(expire_at: PointInTime, counter_now: u64) -> (r: bool)
    ensures
        r == (expire_at.counter_val <= counter_now),
{
    !expire_at.is_in_the_future(counter_now)
}

} // verus!
