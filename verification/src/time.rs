//! Instants on the UTC time line.

use vstd::prelude::*;

verus! {

pub const NANOS_PER_SECOND: i128 = 1_000_000_000;

pub const NANOS_PER_MILLI: i128 = 1_000_000;

/// An instant, in nanoseconds since the Unix epoch.
#[derive(Clone, Copy, Debug, PartialEq, Eq, Hash, Structural)]
pub struct Timestamp {
    nanos: i128,
}

impl View for Timestamp {
    type V = int;

    /// Nanoseconds since the Unix epoch.
    closed spec fn view(&self) -> int {
        self.nanos as int
    }
}

/// Division that drops the fraction, also of negative numbers.
pub open spec fn truncated_div(a: int, b: int) -> int
    recommends
        b > 0,
{
    if a >= 0 {
        a / b
    } else {
        -((-a) / b)
    }
}

impl Timestamp {
    #[verifier::type_invariant]
    spec fn in_range(self) -> bool {
        i64::MIN * 1_000_000_000 <= self.nanos <= i64::MAX * 1_000_000_000 + u32::MAX
    }

    /// The instant that lies whole seconds, then nanoseconds, after the Unix epoch.
    pub fn from_parts(secs: i64, subsec_nanos: u32) -> (t: Self)
        ensures
            t@ == secs * 1_000_000_000 + subsec_nanos,
    {
        Timestamp { nanos: (secs as i128) * NANOS_PER_SECOND + (subsec_nanos as i128) }
    }

    /// Milliseconds from `earlier` to `self`, without the fraction; negative where `earlier` is later.
    pub fn millis_since(&self, earlier: &Timestamp) -> (ms: i128)
        ensures
            ms == truncated_div(self@ - earlier@, 1_000_000),
    {
        proof {
            use_type_invariant(self);
            use_type_invariant(earlier);
        }
        let d: i128 = self.nanos - earlier.nanos;
        if d >= 0 {
            d / NANOS_PER_MILLI
        } else {
            -((-d) / NANOS_PER_MILLI)
        }
    }

    /// Seconds from `earlier` to `self`, without the fraction; negative where `earlier` is later.
    pub fn seconds_since(&self, earlier: &Timestamp) -> (s: i128)
        ensures
            s == truncated_div(self@ - earlier@, 1_000_000_000),
            -0x2_0000_0000_0000_0000 <= s <= 0x2_0000_0000_0000_0000,
    {
        proof {
            use_type_invariant(self);
            use_type_invariant(earlier);
        }
        let d: i128 = self.nanos - earlier.nanos;
        if d >= 0 {
            d / NANOS_PER_SECOND
        } else {
            -((-d) / NANOS_PER_SECOND)
        }
    }

    /// Whether `self` lies before `other`.
    pub fn before(&self, other: &Timestamp) -> (r: bool)
        ensures
            r == (self@ < other@),
    {
        self.nanos < other.nanos
    }
}

} // verus!
