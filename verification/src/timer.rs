//! The frame clock.
//!
//! Animation phase is derived from elapsed wall-clock time, read once per
//! frame from the monotonic clock. The clock's readings are opaque — nothing
//! can be promised about what the machine's clock returns — so the trusted
//! declarations below state nothing beyond the functions' shapes, and no
//! animation decision in this library depends on a particular reading.

use vstd::prelude::*;

verus! {

/// std::time::Instant, an opaque reading of the monotonic clock.
#[verifier::external_type_specification]
#[verifier::external_body]
pub struct ExInstant(std::time::Instant);

/// Relies on std::time::Instant::now: the current reading of the monotonic
/// clock. The reading depends on when it is taken, so nothing is promised
/// of it.
pub assume_specification[ std::time::Instant::now ]() -> std::time::Instant;

/// Relies on std::time::Instant::duration_since: the time elapsed from
/// `earlier` to `this`, or zero if `earlier` is the later reading. Durations
/// are opaque here, so nothing more is promised.
pub assume_specification[ std::time::Instant::duration_since ](
    this: &std::time::Instant,
    earlier: std::time::Instant,
) -> std::time::Duration;

/// Relies on std::time::Duration::as_micros: the whole span in microseconds.
pub assume_specification[ std::time::Duration::as_micros ](
    this: &std::time::Duration,
) -> u128;

/// The clock the frame loop reads: it remembers one instant and reports how
/// long ago that was.
pub struct Timer {
    last: std::time::Instant,
}

impl Timer {
    /// A timer that counts from the moment of its creation.
    pub fn new() -> Timer {
        let now = std::time::Instant::now();
        Timer { last: now }
    }

    /// Microseconds elapsed since the timer was created or last cleared,
    /// truncated to 64 bits; the remembered instant is left as it is.
    pub fn get_elapsed_micros(&mut self) -> (micros: u64)
        ensures
            *final(self) == *old(self),
    {
        let now = std::time::Instant::now();
        let duration = now.duration_since(self.last);
        let interval = #[verifier::truncate] (duration.as_micros() as u64);
        interval
    }

    /// Restarts the count from the current clock reading.
    pub fn clear(&mut self) {
        let now = std::time::Instant::now();
        self.last = now;
    }
}

} // verus!
