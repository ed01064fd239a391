//! The duration value the adapters convert: a non-negative elapsed time
//! held as whole seconds plus a sub-second remainder in nanoseconds.

use vstd::prelude::*;

verus! {

/// Nanoseconds in one second.
pub const NANOS_PER_SEC: u32 = 1_000_000_000;

/// Nanoseconds in one millisecond.
pub const NANOS_PER_MILLI: u32 = 1_000_000;

/// Milliseconds in one second.
pub const MILLIS_PER_SEC: u64 = 1_000;

/// A non-negative elapsed time with sub-second precision: `secs` whole
/// seconds plus `nanos` nanoseconds, where a well-formed value keeps
/// `nanos` below one second.
#[derive(Clone, Copy, Debug, PartialEq, Eq, Structural)]
pub struct Duration {
    pub secs: u64,
    pub nanos: u32,
}

impl Duration {
    /// The sub-second remainder stays below one full second.
    pub open spec fn wf(self) -> bool {
        self.nanos < NANOS_PER_SEC
    }

    /// Total whole seconds; the sub-second remainder is truncated.
    pub open spec fn spec_secs(self) -> int {
        self.secs as int
    }

    /// Total whole milliseconds; the sub-millisecond remainder is
    /// truncated.
    pub open spec fn spec_millis(self) -> int {
        self.secs as int * (MILLIS_PER_SEC as int) + (self.nanos as int) / (NANOS_PER_MILLI
            as int)
    }

    /// The duration a count of whole seconds denotes.
    pub open spec fn spec_from_secs(secs: u64) -> Duration {
        Duration { secs, nanos: 0 }
    }

    /// The duration a count of whole milliseconds denotes.
    pub open spec fn spec_from_millis(millis: u64) -> Duration {
        Duration {
            secs: ((millis as int) / (MILLIS_PER_SEC as int)) as u64,
            nanos: (((millis as int) % (MILLIS_PER_SEC as int)) * (NANOS_PER_MILLI as int)) as u32,
        }
    }

    pub fn new(secs: u64, nanos: u32) -> (r: Duration)
        requires
            nanos < NANOS_PER_SEC,
        ensures
            r == (Duration { secs, nanos }),
            r.wf(),
    {
        Duration { secs, nanos }
    }

    pub fn from_secs(secs: u64) -> (r: Duration)
        ensures
            r == Duration::spec_from_secs(secs),
            r.spec_secs() == secs,
            r.wf(),
    {
        Duration { secs, nanos: 0 }
    }

    pub fn from_millis(millis: u64) -> (r: Duration)
        ensures
            r == Duration::spec_from_millis(millis),
            r.spec_millis() == millis,
            r.wf(),
    {
        proof {
            Duration::lemma_from_millis_exact(millis);
        }
        let secs: u64 = millis / MILLIS_PER_SEC;
        let rem: u64 = millis % MILLIS_PER_SEC;
        let nanos: u32 = (rem as u32) * NANOS_PER_MILLI;
        Duration { secs, nanos }
    }

    pub fn as_secs(&self) -> (r: u64)
        ensures
            r == self.spec_secs(),
    {
        self.secs
    }

    pub fn as_millis(&self) -> (r: u128)
        ensures
            r == self.spec_millis(),
    {
        proof {
            assert((self.secs as int) * (MILLIS_PER_SEC as int) + (NANOS_PER_SEC as int)
                < u128::MAX as int) by (nonlinear_arith)
                requires
                    self.secs <= u64::MAX,
            ;
        }
        (self.secs as u128) * (MILLIS_PER_SEC as u128) + ((self.nanos / NANOS_PER_MILLI) as u128)
    }

    /// A duration built from a count of whole milliseconds is
    /// well-formed and denotes exactly that count.
    pub proof fn lemma_from_millis_exact(millis: u64)
        ensures
            Duration::spec_from_millis(millis).wf(),
            Duration::spec_from_millis(millis).spec_millis() == millis,
    {
        let rem = (millis as int) % (MILLIS_PER_SEC as int);
        assert(0 <= rem < 1000);
        assert(rem * (NANOS_PER_MILLI as int) < NANOS_PER_SEC as int) by (nonlinear_arith)
            requires
                0 <= rem < 1000,
        ;
        assert(rem * (NANOS_PER_MILLI as int) / (NANOS_PER_MILLI as int) == rem)
            by (nonlinear_arith)
            requires
                0 <= rem < 1000,
        ;
        assert((millis as int) / (MILLIS_PER_SEC as int) * (MILLIS_PER_SEC as int) + (millis
            as int) % (MILLIS_PER_SEC as int) == millis as int);
    }
}

} // verus!
