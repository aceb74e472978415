//! Spans of time.
use vstd::prelude::*;

verus! {

/// How many nanoseconds a second has.
pub const NANOS_PER_SEC: u32 = 1_000_000_000;

/// How many nanoseconds a millisecond has.
pub const NANOS_PER_MILLI: u32 = 1_000_000;

/// A span of time, as whole seconds and the nanoseconds beyond them.
///
/// The nanoseconds always make less than a second.
#[derive(Clone, Copy, PartialEq, Eq, Structural, Debug)]
pub struct Duration {
    secs: u64,
    nanos: u32,
}

impl Duration {
    #[verifier::type_invariant]
    spec fn wf(self) -> bool {
        self.nanos < NANOS_PER_SEC
    }

    /// The span in nanoseconds.
    pub closed spec fn nanoseconds(self) -> nat {
        (self.secs * NANOS_PER_SEC + self.nanos) as nat
    }

    /// A span of `secs` seconds and `nanos` nanoseconds, where the latter make less than a second.
    pub fn new(secs: u64, nanos: u32) -> (res: Duration)
        requires
            nanos < NANOS_PER_SEC,
        ensures
            res.nanoseconds() == secs * NANOS_PER_SEC + nanos,
            res.nanoseconds() == secs * 1_000_000_000 + nanos,
    {
        Duration { secs, nanos }
    }

    /// The whole seconds of the span.
    pub fn as_secs(&self) -> (res: u64)
        ensures
            res == self.nanoseconds() / (NANOS_PER_SEC as nat),
            res == self.nanoseconds() / 1_000_000_000,
    {
        proof {
            use_type_invariant(self);
        }
        self.secs
    }

    /// The nanoseconds of the span beyond its whole seconds.
    pub fn subsec_nanos(&self) -> (res: u32)
        ensures
            res == self.nanoseconds() % (NANOS_PER_SEC as nat),
            res == self.nanoseconds() % 1_000_000_000,
    {
        proof {
            use_type_invariant(self);
        }
        self.nanos
    }

    /// The whole milliseconds of the span.
    pub fn as_millis(&self) -> (res: u128)
        ensures
            res == self.nanoseconds() / (NANOS_PER_MILLI as nat),
            res == self.nanoseconds() / 1_000_000,
    {
        proof {
            use_type_invariant(self);
        }
        self.secs as u128 * 1000 + (self.nanos / NANOS_PER_MILLI) as u128
    }
}

} // verus!
