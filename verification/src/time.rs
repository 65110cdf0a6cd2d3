//! Time as the facade sees it: spans, clock readings, and the C `timespec`.
//!
//! The clocks themselves are outside. A reading of the monotonic clock comes
//! in as an [`Instant`], a reading of the wall clock as a [`SystemTime`].

use vstd::prelude::*;

verus! {

/// The number of nanoseconds in a second.
pub const NANOS_PER_SEC: u64 = 1_000_000_000;

/// A span of time.
#[derive(Clone, Copy, Debug, PartialEq, Eq, Hash)]
pub struct Duration {
    /// The length of the span in nanoseconds.
    pub nanos: u128,
}

/// A reading of the monotonic clock.
#[derive(Clone, Copy, Debug, PartialEq, Eq, Hash)]
pub struct Instant {
    /// The time that has passed since the clock's origin.
    pub since_origin: Duration,
}

/// A reading of the wall clock.
#[derive(Clone, Copy, Debug, PartialEq, Eq, Hash)]
pub struct SystemTime {
    /// The time that has passed since the Unix epoch.
    pub since_epoch: Duration,
}

/// The C structure `timespec`: seconds and nanoseconds.
#[derive(Clone, Copy, Debug, PartialEq, Eq)]
pub struct Timespec {
    /// Whole seconds.
    pub tv_sec: i64,
    /// Nanoseconds on top of the seconds.
    pub tv_nsec: i64,
}

impl Duration {
    /// The span of `secs` seconds and `nanos` nanoseconds.
    pub open spec fn of(secs: u64, nanos: u32) -> Duration {
        Duration { nanos: (secs * NANOS_PER_SEC + nanos) as u128 }
    }

    /// The span of `secs` seconds and `nanos` nanoseconds. Nanoseconds beyond
    /// a second count as further seconds.
    pub fn new(secs: u64, nanos: u32) -> (d: Duration)
        ensures
            d == Duration::of(secs, nanos),
    {
        let per_sec: u128 = 1_000_000_000;
        Duration { nanos: (secs as u128) * per_sec + (nanos as u128) }
    }

    /// The span of `nanos` nanoseconds.
    pub fn from_nanos(nanos: u64) -> (d: Duration)
        ensures
            d.nanos == nanos,
    {
        Duration { nanos: nanos as u128 }
    }
}

impl Instant {
    /// The time from `earlier` to `self`, or nothing if `earlier` is the later
    /// of the two.
    pub open spec fn elapsed_since(self, earlier: Instant) -> Duration {
        if self.since_origin.nanos >= earlier.since_origin.nanos {
            Duration { nanos: (self.since_origin.nanos - earlier.since_origin.nanos) as u128 }
        } else {
            Duration { nanos: 0 }
        }
    }

    /// The time from `earlier` to `self`, or nothing if `earlier` is the later
    /// of the two.
    pub fn duration_since(&self, earlier: Instant) -> (d: Duration)
        ensures
            d == self.elapsed_since(earlier),
    {
        if self.since_origin.nanos >= earlier.since_origin.nanos {
            Duration { nanos: self.since_origin.nanos - earlier.since_origin.nanos }
        } else {
            Duration { nanos: 0 }
        }
    }
}

/// The span that a relative `timespec` stands for: its seconds read as an
/// unsigned 64-bit number, its nanoseconds as an unsigned 32-bit number.
pub open spec fn timespec_duration(ts: Timespec) -> Duration {
    Duration::of(ts.tv_sec as u64, ts.tv_nsec as u32)
}

/// The number of nanoseconds since the epoch that an absolute `timespec`
/// stands for.
pub open spec fn timespec_nanos(ts: Timespec) -> int {
    ts.tv_sec * NANOS_PER_SEC + ts.tv_nsec
}

/// The deadline that an absolute `timespec` stands for at the moment `now`:
/// none if a component is negative; `now` itself if the nanoseconds since the
/// epoch do not fit in 64 bits; else that many nanoseconds after the epoch.
pub open spec fn timespec_deadline(ts: Timespec, now: SystemTime) -> Option<SystemTime> {
    if ts.tv_sec < 0 || ts.tv_nsec < 0 {
        None
    } else if timespec_nanos(ts) > u64::MAX {
        Some(now)
    } else {
        Some(SystemTime { since_epoch: Duration { nanos: timespec_nanos(ts) as u128 } })
    }
}

/// Converts a relative `timespec` into a span.
pub fn timespec_to_duration(ts: &Timespec) -> (d: Duration)
    ensures
        d == timespec_duration(*ts),
{
    let secs: u64 = #[verifier::truncate]
    (ts.tv_sec as u64);
    let nanos: u32 = #[verifier::truncate]
    (ts.tv_nsec as u32);
    Duration::new(secs, nanos)
}

/// Converts an absolute `timespec` into a deadline; `now` is the wall clock's
/// present reading.
pub fn timespec_to_systemtime(ts: &Timespec, now: SystemTime) -> (deadline: Option<SystemTime>)
    ensures
        deadline == timespec_deadline(*ts, now),
{
    if ts.tv_sec < 0 || ts.tv_nsec < 0 {
        return None;
    }
    let secs: u64 = ts.tv_sec as u64;
    let nanos: u64 = ts.tv_nsec as u64;
    let total: Option<u64> = match secs.checked_mul(NANOS_PER_SEC) {
        Some(whole) => whole.checked_add(nanos),
        None => None,
    };
    match total {
        Some(n) => Some(SystemTime { since_epoch: Duration::from_nanos(n) }),
        None => Some(now),
    }
}

/// A `timespec` with no negative seconds and with nanoseconds below a second
/// stands for just that span.
pub proof fn lemma_timespec_duration_exact(ts: Timespec)
    requires
        0 <= ts.tv_sec,
        0 <= ts.tv_nsec < NANOS_PER_SEC,
    ensures
        timespec_duration(ts).nanos == ts.tv_sec * NANOS_PER_SEC + ts.tv_nsec,
{
}

} // verus!
