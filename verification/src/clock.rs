//! Wall-clock instants and wait durations, held as plain integers.

use vstd::prelude::*;

verus! {

/// Nanoseconds in one second.
pub const NANOS_PER_SEC: u32 = 1_000_000_000;

/// The largest number of whole seconds since the Unix epoch that an instant
/// may hold: what a signed 64-bit clock can count.
pub const MAX_SECS: u64 = 0x7fff_ffff_ffff_ffff;

pub const SECS_PER_MINUTE: u64 = 60;

pub const SECS_PER_HOUR: u64 = 3600;

/// An instant of wall-clock time: whole seconds since the Unix epoch and the
/// nanoseconds into the running second.
#[derive(Clone, Copy, Debug, PartialEq, Eq, Structural)]
pub struct Timestamp {
    pub secs: u64,
    pub nanos: u32,
}

impl View for Timestamp {
    type V = int;

    /// Nanoseconds since the Unix epoch.
    open spec fn view(&self) -> int {
        self.secs * 1_000_000_000 + self.nanos
    }
}

impl Timestamp {
    /// The seconds fit a signed 64-bit clock and the nanoseconds stay below
    /// one second.
    pub open spec fn well_formed(&self) -> bool {
        self.secs <= MAX_SECS && self.nanos < NANOS_PER_SEC
    }

    /// The instant `secs` seconds and `nanos` nanoseconds after the Unix
    /// epoch, or `None` where the pair is not well formed.
    pub fn new(secs: u64, nanos: u32) -> (r: Option<Timestamp>)
        ensures
            r == if secs <= MAX_SECS && nanos < NANOS_PER_SEC {
                Some(Timestamp { secs, nanos })
            } else {
                None
            },
    {
        if secs <= MAX_SECS && nanos < NANOS_PER_SEC {
            Some(Timestamp { secs, nanos })
        } else {
            None
        }
    }

    /// Whether `self` lies strictly after `other`.
    pub fn is_after(&self, other: &Timestamp) -> (r: bool)
        requires
            self.well_formed(),
            other.well_formed(),
        ensures
            r == (self@ > other@),
    {
        self.secs > other.secs || (self.secs == other.secs && self.nanos > other.nanos)
    }

    /// The later of two instants.
    pub fn later(self, other: Timestamp) -> (r: Timestamp)
        requires
            self.well_formed(),
            other.well_formed(),
        ensures
            r == later_of(self, other),
    {
        if other.is_after(&self) {
            other
        } else {
            self
        }
    }
}

/// The later of two instants; the first where they are equal.
pub open spec fn later_of(a: Timestamp, b: Timestamp) -> Timestamp {
    if b@ > a@ {
        b
    } else {
        a
    }
}

/// Two well-formed instants with the same nanosecond count are the same
/// instant.
pub proof fn lemma_view_injective(a: Timestamp, b: Timestamp)
    requires
        a.well_formed(),
        b.well_formed(),
        a@ == b@,
    ensures
        a == b,
{
}

/// A length of time in whole seconds.
#[derive(Clone, Copy, Debug, PartialEq, Eq, Structural)]
pub struct WaitDuration {
    pub secs: u64,
}

impl View for WaitDuration {
    type V = nat;

    /// The length in seconds.
    open spec fn view(&self) -> nat {
        self.secs as nat
    }
}

impl WaitDuration {
    /// The whole minutes in the duration.
    pub open spec fn whole_minutes(&self) -> nat {
        self@ / 60
    }

    /// The whole hours in the duration.
    pub open spec fn whole_hours(&self) -> nat {
        self@ / 3600
    }

    /// The length in whole seconds.
    pub fn as_secs(&self) -> (r: u64)
        ensures
            r == self@,
    {
        self.secs
    }

    /// The whole minutes in the duration.
    pub fn num_minutes(&self) -> (r: u64)
        ensures
            r == self.whole_minutes(),
    {
        self.secs / SECS_PER_MINUTE
    }

    /// The whole hours in the duration.
    pub fn num_hours(&self) -> (r: u64)
        ensures
            r == self.whole_hours(),
    {
        self.secs / SECS_PER_HOUR
    }
}

} // verus!
