//! A span of time, as whole seconds and the nanoseconds of the last second.

use vstd::prelude::*;

verus! {

/// The number of nanoseconds in a second.
pub const NANOS_PER_SEC: u32 = 1_000_000_000;

/// A span of time: whole seconds, and the nanoseconds of the second that is
/// not complete.
#[derive(Debug, Clone, Copy, PartialEq, Eq, Structural)]
pub struct Duration {
    secs: u64,
    nanos: u32,
}

impl Duration {
    #[verifier::type_invariant]
    spec fn nanos_below_a_second(self) -> bool {
        self.nanos < NANOS_PER_SEC
    }

    /// The whole seconds.
    pub closed spec fn spec_secs(self) -> u64 {
        self.secs
    }

    /// The nanoseconds of the second that is not complete.
    pub closed spec fn spec_nanos(self) -> u32 {
        self.nanos
    }

    /// The span of `secs` seconds and `nanos` nanoseconds. Nanoseconds of a
    /// second or more are carried into the seconds.
    pub fn new(secs: u64, nanos: u32) -> (d: Duration)
        requires
            secs + nanos / NANOS_PER_SEC <= u64::MAX,
        ensures
            d.spec_secs() == secs + nanos / NANOS_PER_SEC,
            d.spec_nanos() == nanos % NANOS_PER_SEC,
    {
        if nanos < NANOS_PER_SEC {
            Duration { secs, nanos }
        } else {
            let extra: u32 = nanos / NANOS_PER_SEC;
            Duration { secs: secs + extra as u64, nanos: nanos % NANOS_PER_SEC }
        }
    }

    /// The whole seconds.
    pub fn as_secs(&self) -> (r: u64)
        ensures
            r == self.spec_secs(),
    {
        self.secs
    }

    /// The nanoseconds of the second that is not complete.
    pub fn subsec_nanos(&self) -> (r: u32)
        ensures
            r == self.spec_nanos(),
            r < NANOS_PER_SEC,
    {
        proof {
            use_type_invariant(self);
        }
        self.nanos
    }
}

} // verus!
