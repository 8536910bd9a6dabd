use vstd::prelude::*;
use std::time::Duration;
use std::time::Instant;

verus! {

/// A point on the system's monotonic clock; nothing of it is visible to
/// the verifier.
#[verifier::external_type_specification]
#[verifier::external_body]
pub struct ExInstant(Instant);

/// A microsecond clock that never runs backwards. It counts from the
/// moment it was made and is tied to no calendar time.
pub struct Clock {
    origin: Instant,
    last_us: u64,
}

/// Calls `Instant::now`. Nothing is claimed of the instant returned.
#[verifier::external_body]
fn monotonic_now() -> (instant: Instant) {
    Instant::now()
}

/// Calls `Instant::elapsed`. Nothing is claimed of the duration returned.
#[verifier::external_body]
fn elapsed_since(origin: &Instant) -> (elapsed: Duration) {
    origin.elapsed()
}

/// Calls `Duration::as_micros`. Nothing is claimed of the number returned.
#[verifier::external_body]
fn whole_micros(elapsed: &Duration) -> (micros: u128) {
    elapsed.as_micros()
}

/// The later of two clock values.
pub open spec fn later(a: u64, b: u64) -> u64 {
    if a >= b {
        a
    } else {
        b
    }
}

/// A microsecond count as a `u64`, held at the largest `u64` beyond it.
pub open spec fn clamped(micros: u128) -> u64 {
    if micros > u64::MAX {
        u64::MAX
    } else {
        micros as u64
    }
}

impl Clock {
    /// The last value the clock gave, zero before the first.
    pub closed spec fn last(&self) -> u64 {
        self.last_us
    }

    /// A clock that starts counting now.
    pub fn new() -> (clock: Clock)
        ensures
            clock.last() == 0,
    {
        Clock { origin: monotonic_now(), last_us: 0 }
    }

    /// Takes a raw sample of elapsed microseconds and gives the clock's
    /// value for it: the sample, or the last value given if the sample is
    /// earlier. The values given never decrease.
    pub fn observe(&mut self, raw_micros: u128) -> (now_us: u64)
        ensures
            now_us == later(old(self).last(), clamped(raw_micros)),
            final(self).last() == now_us,
            now_us >= old(self).last(),
    {
        let sample: u64 = if raw_micros > u64::MAX as u128 {
            u64::MAX
        } else {
            raw_micros as u64
        };
        if sample > self.last_us {
            self.last_us = sample;
        }
        self.last_us
    }
}

/// Reads the monotonic clock: microseconds since the clock was made, never
/// less than any value it gave before.
pub fn get_time_in_us(clock: &mut Clock) -> (now_us: u64)
    ensures
        now_us >= old(clock).last(),
        final(clock).last() == now_us,
{
    let elapsed: Duration = elapsed_since(&clock.origin);
    let micros: u128 = whole_micros(&elapsed);
    clock.observe(micros)
}

} // verus!
