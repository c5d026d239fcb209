//! A span of time, as timeouts are given.

use vstd::prelude::*;

verus! {

pub const NANOS_PER_SEC: u32 = 1_000_000_000;

pub const NANOS_PER_MILLI: u32 = 1_000_000;

pub const MILLIS_PER_SEC: u64 = 1_000;

/// A span of time: whole seconds, and the nanoseconds beyond them.
#[derive(Clone, Copy, Debug, Hash, PartialEq, Eq, PartialOrd, Ord, Structural)]
pub struct Duration {
    pub secs: u64,
    pub nanos: u32,
}

impl Duration {
    /// The nanoseconds make up less than a second.
    pub open spec fn wf(self) -> bool {
        self.nanos < NANOS_PER_SEC
    }

    /// The whole milliseconds of the span.
    pub open spec fn millis(self) -> nat {
        (self.secs * 1_000 + self.nanos / 1_000_000) as nat
    }

    /// The span of `secs` seconds.
    pub fn from_secs(secs: u64) -> (r: Self)
        ensures
            r == (Duration { secs, nanos: 0 }),
            r.wf(),
            r.millis() == secs * 1_000,
    {
        Duration { secs, nanos: 0 }
    }

    /// The span of `millis` milliseconds.
    pub fn from_millis(millis: u64) -> (r: Self)
        ensures
            r == (Duration { secs: millis / 1_000, nanos: ((millis % 1_000) * 1_000_000) as u32 }),
            r.wf(),
            r.millis() == millis,
    {
        let sub: u64 = millis % 1_000;
        Duration { secs: millis / 1_000, nanos: (sub * 1_000_000) as u32 }
    }

    /// The whole seconds of the span.
    pub fn as_secs(&self) -> (r: u64)
        ensures
            r == self.secs,
    {
        self.secs
    }

    /// The nanoseconds of the span beyond its whole seconds.
    pub fn subsec_nanos(&self) -> (r: u32)
        ensures
            r == self.nanos,
    {
        self.nanos
    }

    /// The whole milliseconds of the span.
    pub fn as_millis(&self) -> (r: u128)
        ensures
            r == self.millis(),
    {
        self.secs as u128 * 1_000 + (self.nanos / 1_000_000) as u128
    }
}

} // verus!
