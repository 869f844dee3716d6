//! A span of time, as whole seconds plus a subsecond nanosecond part.
//!
//! Timeout configuration needs exactly this much of a time type: a value
//! that can be handed to the platform's timeout option and tested for
//! zero, since a zero timeout is rejected rather than passed through.

use vstd::prelude::*;

verus! {

pub const NANOS_PER_SEC: u32 = 1_000_000_000;

/// A non-negative span of time: `secs` whole seconds plus `nanos`
/// subsecond nanoseconds, with `nanos` always below one second.
#[derive(Clone, Copy, Debug, PartialEq, Eq, Structural)]
pub struct Duration {
    secs: u64,
    nanos: u32,
}

impl Duration {
    /// The whole-second part.
    pub closed spec fn spec_secs(&self) -> u64 {
        self.secs
    }

    /// The subsecond part, in nanoseconds.
    pub closed spec fn spec_subsec_nanos(&self) -> u32 {
        self.nanos
    }

    /// True of the zero-length span only.
    pub open spec fn spec_is_zero(&self) -> bool {
        self.spec_secs() == 0 && self.spec_subsec_nanos() == 0
    }

    pub fn new(secs: u64, nanos: u32) -> (r: Duration)
        requires
            nanos < NANOS_PER_SEC,
        ensures
            r.spec_secs() == secs,
            r.spec_subsec_nanos() == nanos,
    {
        Duration { secs, nanos }
    }

    pub fn secs(&self) -> (r: u64)
        ensures
            r == self.spec_secs(),
    {
        self.secs
    }

    pub fn subsec_nanos(&self) -> (r: u32)
        ensures
            r == self.spec_subsec_nanos(),
    {
        self.nanos
    }

    pub fn is_zero(&self) -> (r: bool)
        ensures
            r == self.spec_is_zero(),
    {
        self.secs == 0 && self.nanos == 0
    }
}

} // verus!
