//! Absolute points in time.

use vstd::prelude::*;

verus! {

/// Unix time of 0001-01-01T00:00:00Z, the earliest supported instant.
pub const MIN_UNIX_SECONDS: i64 = -62_135_596_800;

/// Unix time of 9999-12-31T23:59:59Z, the last supported whole second.
pub const MAX_UNIX_SECONDS: i64 = 253_402_300_799;

/// Number of nanoseconds in one second.
pub const NANOS_PER_SECOND: u32 = 1_000_000_000;

/// Whether `seconds` since the Unix epoch plus `nanos` nanoseconds names an
/// instant of the supported span, the years 1 to 9999 in UTC.
pub open spec fn instant_in_range(seconds: int, nanos: int) -> bool {
    &&& MIN_UNIX_SECONDS <= seconds <= MAX_UNIX_SECONDS
    &&& 0 <= nanos < NANOS_PER_SECOND
}

/// An absolute point in time, independent of any time zone: whole seconds
/// since the Unix epoch and the nanoseconds into that second.
#[derive(Clone, Copy, Debug, PartialEq, Eq)]
pub struct Instant {
    seconds: i64,
    nanos: u32,
}

impl Instant {
    #[verifier::type_invariant]
    spec fn in_range(self) -> bool {
        instant_in_range(self.seconds as int, self.nanos as int)
    }

    /// Whole seconds since the Unix epoch.
    pub closed spec fn unix_seconds(self) -> int {
        self.seconds as int
    }

    /// Nanoseconds since the last whole second.
    pub closed spec fn subsec_nanos(self) -> int {
        self.nanos as int
    }

    /// The instant `nanos` nanoseconds after `seconds` seconds since the Unix
    /// epoch, or `None` outside the supported span.
    pub fn new(seconds: i64, nanos: u32) -> (instant: Option<Instant>)
        ensures
            instant is Some <==> instant_in_range(seconds as int, nanos as int),
            instant matches Some(i) ==> i.unix_seconds() == seconds && i.subsec_nanos() == nanos,
    {
        if MIN_UNIX_SECONDS <= seconds && seconds <= MAX_UNIX_SECONDS && nanos < NANOS_PER_SECOND {
            Some(Instant { seconds, nanos })
        } else {
            None
        }
    }

    /// Whole seconds since the Unix epoch.
    pub fn seconds(&self) -> (seconds: i64)
        ensures
            seconds == self.unix_seconds(),
            instant_in_range(self.unix_seconds(), self.subsec_nanos()),
    {
        proof {
            use_type_invariant(self);
        }
        self.seconds
    }

    /// Nanoseconds since the last whole second.
    pub fn nanos(&self) -> (nanos: u32)
        ensures
            nanos == self.subsec_nanos(),
            instant_in_range(self.unix_seconds(), self.subsec_nanos()),
    {
        proof {
            use_type_invariant(self);
        }
        self.nanos
    }
}

} // verus!
