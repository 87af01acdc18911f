//! Points in time, as a host chain records them.

use vstd::prelude::*;
use crate::duration::Duration;
use crate::error::Error;

verus! {

/// The first second that a timestamp can name: the start of year 1.
pub const MIN_UNIX_SECS: i64 = -62_135_596_800;

/// The last second that a timestamp can name: the end of year 9999.
pub const MAX_UNIX_SECS: i64 = 253_402_300_799;

/// An instant: seconds since the Unix epoch, and the nanoseconds of the
/// second begun.
#[derive(Clone, Copy, Debug, Hash, PartialEq, Eq, Structural)]
struct Instant {
    secs: i64,
    nanos: u32,
}

/// A point in time that may be left unset. Its view is `None` where it is
/// unset, else the nanoseconds since the Unix epoch.
#[derive(Clone, Copy, Debug, Hash, PartialEq, Eq, Structural)]
pub struct Timestamp {
    time: Option<Instant>,
}

/// The nanoseconds since the Unix epoch at which `secs` seconds and `nanos`
/// nanoseconds have passed.
pub open spec fn unix_nanos(secs: int, nanos: int) -> int {
    secs * 1_000_000_000 + nanos
}

/// The last nanosecond that a timestamp can name.
pub open spec fn max_unix_nanos() -> int {
    unix_nanos(253_402_300_799, 999_999_999)
}

/// The first nanosecond that a timestamp can name.
pub open spec fn min_unix_nanos() -> int {
    unix_nanos(-62_135_596_800, 0)
}

/// The instant `span` nanoseconds after `start`, as seconds and nanoseconds,
/// or `None` where it lies beyond the last one that can be named.
pub open spec fn instant_plus(start: int, span: int) -> Option<(i64, u32)> {
    if start + span <= max_unix_nanos() {
        Some((((start + span) / 1_000_000_000) as i64, ((start + span) % 1_000_000_000) as u32))
    } else {
        None
    }
}

/// Adds a span to an instant with `ibc::timestamp::Timestamp`'s `+`, which
/// leaves the work to `tendermint::Time`.
///
/// Trusted: the sum is exact, and is refused exactly where it would lie
/// beyond year 9999. The instant is handed over through
/// `tendermint::Time::from_unix_timestamp` and read back through the
/// conversion of `tendermint::Time` into its protobuf form.
#[verifier::external_body]
fn instant_checked_add(secs: i64, nanos: u32, span_secs: u64, span_nanos: u32) -> (sum: Option<
    (i64, u32),
>)
    requires
        MIN_UNIX_SECS <= secs <= MAX_UNIX_SECS,
        nanos < 1_000_000_000,
        span_nanos < 1_000_000_000,
    ensures
        sum == instant_plus(
            unix_nanos(secs as int, nanos as int),
            span_secs * 1_000_000_000 + span_nanos,
        ),
{
    let start = ibc::timestamp::Timestamp::from(
        tendermint::Time::from_unix_timestamp(secs, nanos).unwrap(),
    );
    match start + core::time::Duration::new(span_secs, span_nanos) {
        Ok(end) => {
            let at: tendermint_proto::google::protobuf::Timestamp =
                end.into_tm_time().unwrap().into();
            Some((at.seconds, at.nanos as u32))
        },
        Err(_) => None,
    }
}

/// The time `current` is the time `earliest` or later: both unset, or both
/// set with `current` no earlier.
pub open spec fn time_reached(current: Option<int>, earliest: Option<int>) -> bool {
    match (current, earliest) {
        (Some(a), Some(b)) => a >= b,
        (None, None) => true,
        _ => false,
    }
}

impl View for Timestamp {
    type V = Option<int>;

    closed spec fn view(&self) -> Option<int> {
        match self.time {
            Some(t) => Some(unix_nanos(t.secs as int, t.nanos as int)),
            None => None,
        }
    }
}

impl Timestamp {
    /// A set timestamp names an instant between year 1 and year 9999.
    #[verifier::type_invariant]
    pub closed spec fn wf(self) -> bool {
        match self.time {
            Some(t) => MIN_UNIX_SECS <= t.secs <= MAX_UNIX_SECS && t.nanos < 1_000_000_000,
            None => true,
        }
    }

    /// `self` is set and strictly later than `other`, which is set too.
    pub open spec fn spec_after(self, other: Timestamp) -> bool {
        match (self@, other@) {
            (Some(a), Some(b)) => a > b,
            _ => false,
        }
    }

    /// `self` is `other` or later.
    pub open spec fn reached(self, other: Timestamp) -> bool {
        time_reached(self@, other@)
    }

    /// What `self` becomes `span` nanoseconds later: an unset timestamp stays
    /// unset, a set one moves on, and `None` says that the result would lie
    /// beyond the last instant that can be named.
    pub open spec fn spec_plus(self, span: nat) -> Option<Option<int>> {
        match self@ {
            Some(t) => if t + span <= max_unix_nanos() {
                Some(Some(t + span))
            } else {
                None
            },
            None => Some(None),
        }
    }

    /// The unset timestamp.
    pub fn none() -> (t: Timestamp)
        ensures
            t@.is_none(),
            t.wf(),
    {
        Timestamp { time: None }
    }

    /// The timestamp `nanoseconds` after the Unix epoch; zero nanoseconds
    /// stand for "unset".
    pub fn from_nanoseconds(nanoseconds: u64) -> (t: Timestamp)
        ensures
            nanoseconds == 0 ==> t@.is_none(),
            nanoseconds != 0 ==> t@ == Some(nanoseconds as int),
            t.wf(),
    {
        if nanoseconds == 0 {
            Timestamp { time: None }
        } else {
            let secs: u64 = nanoseconds / 1_000_000_000;
            let nanos: u64 = nanoseconds % 1_000_000_000;
            Timestamp { time: Some(Instant { secs: secs as i64, nanos: nanos as u32 }) }
        }
    }

    /// The set timestamp `secs` seconds and `nanos` nanoseconds after the Unix
    /// epoch, if that is an instant between year 1 and year 9999.
    pub fn from_unix_timestamp(secs: i64, nanos: u32) -> (r: Option<Timestamp>)
        ensures
            match r {
                Some(t) => t@ == Some(unix_nanos(secs as int, nanos as int)) && t.wf(),
                None => true,
            },
            r.is_some() <==> (MIN_UNIX_SECS <= secs <= MAX_UNIX_SECS && nanos < 1_000_000_000),
    {
        if MIN_UNIX_SECS <= secs && secs <= MAX_UNIX_SECS && nanos < 1_000_000_000 {
            Some(Timestamp { time: Some(Instant { secs, nanos }) })
        } else {
            None
        }
    }

    pub fn is_set(&self) -> (r: bool)
        ensures
            r == self@.is_some(),
    {
        self.time.is_some()
    }

    /// The whole seconds since the Unix epoch, rounded down, of a set
    /// timestamp.
    pub fn unix_seconds(&self) -> (r: Option<i64>)
        ensures
            match self@ {
                Some(t) => r == Some((t / 1_000_000_000) as i64),
                None => r.is_none(),
            },
    {
        proof {
            use_type_invariant(self);
        }
        match self.time {
            Some(t) => Some(t.secs),
            None => None,
        }
    }

    /// The nanoseconds of the second begun, of a set timestamp.
    pub fn subsec_nanos(&self) -> (r: Option<u32>)
        ensures
            match self@ {
                Some(t) => r == Some((t % 1_000_000_000) as u32),
                None => r.is_none(),
            },
    {
        proof {
            use_type_invariant(self);
        }
        match self.time {
            Some(t) => Some(t.nanos),
            None => None,
        }
    }

    /// Whether `self` is strictly later than `other`, both being set.
    pub fn after(&self, other: &Timestamp) -> (r: bool)
        ensures
            r == self.spec_after(*other),
    {
        proof {
            use_type_invariant(self);
            use_type_invariant(other);
        }
        match (self.time, other.time) {
            (Some(a), Some(b)) => a.secs > b.secs || (a.secs == b.secs && a.nanos > b.nanos),
            _ => false,
        }
    }

    /// Whether `self` is `other` or later than it.
    pub fn at_or_after(&self, other: &Timestamp) -> (r: bool)
        ensures
            r == self.reached(*other),
    {
        proof {
            use_type_invariant(self);
            use_type_invariant(other);
        }
        match (self.time, other.time) {
            (Some(a), Some(b)) => a.secs > b.secs || (a.secs == b.secs && a.nanos >= b.nanos),
            (None, None) => true,
            _ => false,
        }
    }

    /// The timestamp `span` later. An unset timestamp stays unset.
    pub fn checked_add(self, span: Duration) -> (r: Result<Timestamp, Error>)
        ensures
            match self.spec_plus(span@) {
                Some(t) => r.is_ok() && r.unwrap()@ == t && r.unwrap().wf(),
                None => r == Err::<Timestamp, Error>(Error::TimestampOverflow),
            },
    {
        proof {
            use_type_invariant(self);
        }
        match self.time {
            None => Ok(self),
            Some(t) => {
                match instant_checked_add(t.secs, t.nanos, span.as_secs(), span.subsec_nanos()) {
                    Some((secs, nanos)) => Ok(Timestamp { time: Some(Instant { secs, nanos }) }),
                    None => Err(Error::TimestampOverflow),
                }
            },
        }
    }
}

/// A set timestamp names an instant between year 1 and year 9999.
pub proof fn lemma_timestamp_bounded(t: Timestamp)
    requires
        t.wf(),
    ensures
        t@ matches Some(n) ==> min_unix_nanos() <= n <= max_unix_nanos(),
{
}

/// A timestamp is known by its view: two timestamps with one view are one
/// value.
pub proof fn lemma_timestamp_by_view(a: Timestamp, b: Timestamp)
    requires
        a.wf(),
        b.wf(),
        a@ == b@,
    ensures
        a == b,
{
}

} // verus!
