//! Spans of time and moments on the monotonic clock of the process.

use vstd::prelude::*;

verus! {

/// The nanoseconds of the longest span: `u64::MAX` seconds and all but one
/// nanosecond of another.
pub const MAX_NANOS: u128 = 18_446_744_073_709_551_615_999_999_999;

/// The standard library's monotonic clock reading.
#[verifier::external_type_specification]
#[verifier::external_body]
pub struct ExStdInstant(std::time::Instant);

/// `std::time::Instant::now`: a reading of the clock, of which nothing is
/// claimed.
pub assume_specification[ std::time::Instant::now ]() -> (r: std::time::Instant)
;

/// `std::time::Instant::elapsed`, in nanoseconds: a span that a standard
/// `Duration` can hold. How long it is rests on the clock.
#[verifier::external_body]
fn elapsed_nanos(origin: &std::time::Instant) -> (r: u128)
    ensures
        r <= MAX_NANOS,
{
    origin.elapsed().as_nanos()
}

/// `time::OffsetDateTime::now_utc` as a Unix timestamp: a reading of the wall
/// clock, of which nothing is claimed.
#[verifier::external_body]
pub(crate) fn current_unix_seconds() -> i64 {
    time::OffsetDateTime::now_utc().unix_timestamp()
}

/// A span of time.
#[derive(Clone, Copy, Debug, PartialEq, Eq, Structural)]
pub struct Duration {
    nanos: u128,
}

impl View for Duration {
    type V = nat;

    /// The length of the span, in nanoseconds.
    closed spec fn view(&self) -> nat {
        self.nanos as nat
    }
}

impl Duration {
    #[verifier::type_invariant]
    spec fn in_range(self) -> bool {
        self.nanos <= MAX_NANOS
    }

    pub fn from_secs(secs: u64) -> (r: Duration)
        ensures
            r@ == secs * 1_000_000_000,
    {
        Duration { nanos: secs as u128 * 1_000_000_000 }
    }

    pub fn from_millis(millis: u64) -> (r: Duration)
        ensures
            r@ == millis * 1_000_000,
    {
        Duration { nanos: millis as u128 * 1_000_000 }
    }

    pub fn as_nanos(&self) -> (r: u128)
        ensures
            r == self@,
            r <= MAX_NANOS,
    {
        proof {
            use_type_invariant(self);
        }
        self.nanos
    }
}

/// A moment, counted from the origin of a clock.
#[derive(Clone, Copy, Debug, PartialEq, Eq, Structural)]
pub struct Instant {
    nanos: u128,
}

impl View for Instant {
    type V = nat;

    /// The nanoseconds since the origin of the clock.
    closed spec fn view(&self) -> nat {
        self.nanos as nat
    }
}

impl Instant {
    #[verifier::type_invariant]
    spec fn in_range(self) -> bool {
        self.nanos <= MAX_NANOS
    }

    /// The moment `span` after the origin.
    pub fn after_origin(span: Duration) -> (r: Instant)
        ensures
            r@ == span@,
    {
        let nanos: u128 = span.as_nanos();
        Instant { nanos }
    }

    /// The moment `span` after this one, if a clock can reach it.
    pub fn checked_add(self, span: Duration) -> (r: Option<Instant>)
        ensures
            r is Some <==> self@ + span@ <= MAX_NANOS,
            r matches Some(later) ==> later@ == self@ + span@,
    {
        let nanos: u128 = self.as_nanos() + span.as_nanos();
        if nanos <= MAX_NANOS {
            Some(Instant { nanos })
        } else {
            None
        }
    }

    pub fn as_nanos(&self) -> (r: u128)
        ensures
            r == self@,
            r <= MAX_NANOS,
    {
        proof {
            use_type_invariant(self);
        }
        self.nanos
    }
}

/// A monotonic clock that counts from the moment it was started.
#[derive(Clone, Copy, Debug)]
pub struct MonotonicClock {
    origin: std::time::Instant,
}

impl MonotonicClock {
    /// A clock that counts from now on.
    pub(crate) fn start() -> MonotonicClock {
        MonotonicClock { origin: std::time::Instant::now() }
    }

    /// The present moment, which a span from the origin can reach. Which moment it
    /// is rests on the clock.
    pub(crate) fn now(&self) -> (r: Instant)
        ensures
            r@ <= MAX_NANOS,
    {
        let nanos: u128 = elapsed_nanos(&self.origin);
        Instant { nanos }
    }
}

} // verus!
