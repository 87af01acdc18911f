//! Spans of time, counted in whole nanoseconds.

use vstd::prelude::*;

verus! {

/// A span of time that is never negative: whole seconds and the nanoseconds
/// of the second begun. Its view is the span in nanoseconds.
#[derive(Clone, Copy, Debug, Hash, PartialEq, Eq, Structural, PartialOrd, Ord)]
pub struct Duration {
    secs: u64,
    nanos: u32,
}

impl View for Duration {
    type V = nat;

    closed spec fn view(&self) -> nat {
        (self.secs * 1_000_000_000 + self.nanos) as nat
    }
}

impl Duration {
    /// The nanoseconds stay below one second.
    #[verifier::type_invariant]
    pub closed spec fn wf(self) -> bool {
        self.nanos < 1_000_000_000
    }

    /// The longest span a `Duration` holds, in nanoseconds.
    pub open spec fn spec_max_nanos() -> nat {
        (u64::MAX * 1_000_000_000 + 999_999_999) as nat
    }

    /// The span of `nanos` nanoseconds.
    pub closed spec fn spec_from_nanos(nanos: nat) -> Duration {
        Duration {
            secs: (nanos / 1_000_000_000) as u64,
            nanos: (nanos % 1_000_000_000) as u32,
        }
    }

    /// The span of `secs` seconds and `nanos` nanoseconds, where `nanos` may
    /// hold whole seconds too.
    pub fn new(secs: u64, nanos: u32) -> (d: Duration)
        requires
            secs * 1_000_000_000 + nanos <= Duration::spec_max_nanos(),
        ensures
            d@ == secs * 1_000_000_000 + nanos,
            d.wf(),
    {
        let carry: u32 = nanos / 1_000_000_000u32;
        let rest: u32 = nanos % 1_000_000_000u32;
        Duration { secs: secs + carry as u64, nanos: rest }
    }

    /// The empty span.
    pub closed spec fn spec_zero() -> Duration {
        Duration { secs: 0, nanos: 0 }
    }

    /// The empty span.
    #[verifier::when_used_as_spec(spec_zero)]
    pub fn zero() -> (d: Duration)
        ensures
            d == Duration::spec_zero(),
            d@ == 0,
            d.wf(),
    {
        Duration { secs: 0, nanos: 0 }
    }

    pub fn from_secs(secs: u64) -> (d: Duration)
        ensures
            d@ == secs * 1_000_000_000,
            d.wf(),
    {
        Duration { secs, nanos: 0 }
    }

    pub fn from_millis(millis: u64) -> (d: Duration)
        ensures
            d@ == millis * 1_000_000,
            d.wf(),
    {
        let rest: u32 = (millis % 1000) as u32;
        Duration { secs: millis / 1000, nanos: rest * 1_000_000 }
    }

    pub fn from_nanos(nanos: u64) -> (d: Duration)
        ensures
            d@ == nanos,
            d.wf(),
    {
        Duration {
            secs: nanos / 1_000_000_000u64,
            nanos: (nanos % 1_000_000_000u64) as u32,
        }
    }

    /// The span of `nanos` nanoseconds, or `None` where that is longer than
    /// a `Duration` holds.
    pub fn checked_from_nanos(nanos: u128) -> (r: Option<Duration>)
        ensures
            nanos <= Duration::spec_max_nanos() ==> r == Some(
                Duration::spec_from_nanos(nanos as nat),
            ),
            nanos > Duration::spec_max_nanos() ==> r.is_none(),
    {
        if nanos <= 18_446_744_073_709_551_615_999_999_999u128 {
            Some(
                Duration {
                    secs: (nanos / 1_000_000_000u128) as u64,
                    nanos: (nanos % 1_000_000_000u128) as u32,
                },
            )
        } else {
            None
        }
    }

    /// The whole seconds of the span.
    pub fn as_secs(&self) -> (s: u64)
        ensures
            s == self@ / 1_000_000_000nat,
    {
        proof {
            use_type_invariant(self);
        }
        self.secs
    }

    /// What the span holds beyond its whole seconds, in nanoseconds.
    pub fn subsec_nanos(&self) -> (n: u32)
        ensures
            n == self@ % 1_000_000_000nat,
            n < 1_000_000_000,
    {
        proof {
            use_type_invariant(self);
        }
        self.nanos
    }

    pub fn is_zero(&self) -> (r: bool)
        ensures
            r == (self@ == 0),
    {
        self.secs == 0 && self.nanos == 0
    }

    /// Whether `self` is strictly shorter than `other`.
    pub fn lt(&self, other: &Duration) -> (r: bool)
        ensures
            r == (self@ < other@),
    {
        proof {
            use_type_invariant(self);
            use_type_invariant(other);
        }
        self.secs < other.secs || (self.secs == other.secs && self.nanos < other.nanos)
    }

    /// Whether `self` is no longer than `other`.
    pub fn le(&self, other: &Duration) -> (r: bool)
        ensures
            r == (self@ <= other@),
    {
        proof {
            use_type_invariant(self);
            use_type_invariant(other);
        }
        self.secs < other.secs || (self.secs == other.secs && self.nanos <= other.nanos)
    }

    /// Two thirds of the span, rounded down to a whole nanosecond.
    pub fn two_thirds(&self) -> (d: Duration)
        ensures
            d@ == (2 * self@) / 3,
            d.wf(),
    {
        proof {
            use_type_invariant(self);
        }
        let total: u128 = (self.secs as u128) * 1_000_000_000u128 + (self.nanos as u128);
        let part: u128 = (2 * total) / 3;
        Duration {
            secs: (part / 1_000_000_000u128) as u64,
            nanos: (part % 1_000_000_000u128) as u32,
        }
    }
}

/// A span is known by its length: two spans of one length are one value.
pub proof fn lemma_duration_by_length(a: Duration, b: Duration)
    requires
        a.wf(),
        b.wf(),
        a@ == b@,
    ensures
        a == b,
{
}

/// The span of a number of nanoseconds has that length.
pub proof fn lemma_duration_from_nanos(nanos: nat)
    requires
        nanos <= Duration::spec_max_nanos(),
    ensures
        Duration::spec_from_nanos(nanos).wf(),
        Duration::spec_from_nanos(nanos)@ == nanos,
{
}

/// The empty span has no length.
pub proof fn lemma_duration_zero()
    ensures
        Duration::spec_zero()@ == 0,
        Duration::spec_zero().wf(),
{
}

/// No span is longer than `Duration::spec_max_nanos()`.
pub proof fn lemma_duration_bounded(a: Duration)
    requires
        a.wf(),
    ensures
        a@ <= Duration::spec_max_nanos(),
{
}

} // verus!
