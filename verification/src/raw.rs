//! The wire form of a client state, field by field as protobuf has it, and
//! the way to it and back.

use vstd::prelude::*;
use core::marker::PhantomData;
use crate::chain_id::ChainId;
use crate::client_state::ClientState;
use crate::duration::Duration;
use crate::error::Error;
use crate::height::Height;
use crate::proof_specs::ProofSpecs;
use crate::trust_threshold::{TrustThreshold, is_trust_threshold};

verus! {

/// A fraction on the wire.
#[derive(Clone, Copy, Debug, PartialEq, Eq, Structural)]
pub struct Fraction {
    pub numerator: u64,
    pub denominator: u64,
}

/// A span of time on the wire: it may be negative, and its nanoseconds may
/// hold whole seconds.
#[derive(Clone, Copy, Debug, PartialEq, Eq, Structural)]
pub struct RawDuration {
    pub seconds: i64,
    pub nanos: i32,
}

/// A height on the wire.
#[derive(Clone, Copy, Debug, PartialEq, Eq, Structural)]
pub struct RawHeight {
    pub revision_number: u64,
    pub revision_height: u64,
}

/// A client state on the wire. A field that the wire may leave out is an
/// `Option`.
#[derive(Clone, Debug, PartialEq, Eq)]
pub struct RawClientState {
    pub chain_id: String,
    pub trust_level: Option<Fraction>,
    pub trusting_period: Option<RawDuration>,
    pub unbonding_period: Option<RawDuration>,
    pub max_clock_drift: Option<RawDuration>,
    pub frozen_height: Option<RawHeight>,
    pub latest_height: Option<RawHeight>,
    pub proof_specs: Vec<ibc_proto::ics23::ProofSpec>,
    pub upgrade_path: Vec<String>,
    pub allow_update_after_expiry: bool,
    pub allow_update_after_misbehaviour: bool,
}

/// The length in nanoseconds that `ibc_proto`'s conversion of a wire
/// duration into `core::time::Duration` gives to a duration that is not
/// written in the usual way, or `None` where it finds the duration negative.
pub uninterp spec fn unusual_duration(seconds: i64, nanos: i32) -> Option<u128>;

/// The length in nanoseconds of a wire duration, or `None` where it is
/// negative.
///
/// A duration that is not negative is usually written with both parts not
/// negative and the nanoseconds below a second, and a negative one with both
/// parts not positive: those are read as they stand. So is one so far below
/// zero that no nanoseconds lift it above. Any other is read as
/// `unusual_duration` says.
pub open spec fn wire_duration_nanos(seconds: i64, nanos: i32) -> Option<u128> {
    if seconds >= 0 && 0 <= nanos < 1_000_000_000 {
        Some((seconds * 1_000_000_000 + nanos) as u128)
    } else if seconds < 0 && -1_000_000_000 < nanos <= 0 {
        None
    } else if seconds < i64::MIN + 4 {
        None
    } else {
        unusual_duration(seconds, nanos)
    }
}

/// Reads a wire duration with `ibc_proto`'s
/// `TryFrom<google::protobuf::Duration>` for `core::time::Duration`.
///
/// Trusted: a duration written in the usual way is read as it stands, a
/// negative one being refused; what is made of any other depends on its two
/// parts alone; and the length is one that `core::time::Duration` holds. The
/// conversion negates the seconds of a negative duration, so the few
/// durations near the least `i64` are kept from it.
#[verifier::external_body]
fn duration_from_wire(seconds: i64, nanos: i32) -> (length: Option<u128>)
    requires
        seconds >= i64::MIN + 4,
    ensures
        seconds >= 0 && 0 <= nanos < 1_000_000_000 ==> length == Some(
            (seconds * 1_000_000_000 + nanos) as u128,
        ),
        seconds < 0 && -1_000_000_000 < nanos <= 0 ==> length.is_none(),
        !(seconds >= 0 && 0 <= nanos < 1_000_000_000) && !(seconds < 0 && -1_000_000_000 < nanos
            <= 0) ==> length == unusual_duration(seconds, nanos),
        length matches Some(n) ==> n <= Duration::spec_max_nanos(),
{
    let raw = ibc_proto::google::protobuf::Duration { seconds, nanos };
    match core::time::Duration::try_from(raw) {
        Ok(span) => Some(span.as_nanos()),
        Err(_) => None,
    }
}

/// Writes a span of time for the wire with `ibc_proto`'s
/// `From<core::time::Duration>` for `google::protobuf::Duration`.
///
/// Trusted: the two parts are handed on as they are, but for seconds beyond
/// the largest `i64`, in whose place that largest one is written.
#[verifier::external_body]
fn duration_to_wire(secs: u64, nanos: u32) -> (parts: (i64, i32))
    requires
        nanos < 1_000_000_000,
    ensures
        secs <= i64::MAX ==> parts.0 == secs,
        secs > i64::MAX ==> parts.0 == i64::MAX,
        parts.1 == nanos,
{
    let raw = ibc_proto::google::protobuf::Duration::from(core::time::Duration::new(secs, nanos));
    (raw.seconds, raw.nanos)
}

impl RawDuration {
    /// The wire form of a span of `length` nanoseconds.
    pub open spec fn spec_from(length: nat) -> RawDuration {
        RawDuration {
            seconds: if length / 1_000_000_000 <= i64::MAX {
                (length / 1_000_000_000) as i64
            } else {
                i64::MAX
            },
            nanos: (length % 1_000_000_000) as i32,
        }
    }

    /// The span that the wire duration stands for, or `None` where it is
    /// negative.
    pub open spec fn spec_duration(self) -> Option<Duration> {
        match wire_duration_nanos(self.seconds, self.nanos) {
            Some(n) => Some(Duration::spec_from_nanos(n as nat)),
            None => None,
        }
    }

    /// The wire form of a span of time.
    pub fn from(span: Duration) -> (raw: RawDuration)
        ensures
            raw == RawDuration::spec_from(span@),
    {
        let (seconds, nanos) = duration_to_wire(span.as_secs(), span.subsec_nanos());
        RawDuration { seconds, nanos }
    }

    /// The span that the wire duration stands for, or `None` where it is
    /// negative.
    pub fn duration(&self) -> (r: Option<Duration>)
        ensures
            r == self.spec_duration(),
            match wire_duration_nanos(self.seconds, self.nanos) {
                Some(length) => r.is_some() && r.unwrap()@ == length && r.unwrap().wf(),
                None => r.is_none(),
            },
    {
        if self.seconds < i64::MIN + 4 {
            return None;
        }
        match duration_from_wire(self.seconds, self.nanos) {
            Some(n) => {
                proof {
                    crate::duration::lemma_duration_from_nanos(n as nat);
                }
                Duration::checked_from_nanos(n)
            },
            None => None,
        }
    }
}

impl RawHeight {
    pub open spec fn spec_from(height: Height) -> RawHeight {
        RawHeight {
            revision_number: height.revision_number,
            revision_height: height.revision_height,
        }
    }

    pub open spec fn spec_height(self) -> Height {
        Height { revision_number: self.revision_number, revision_height: self.revision_height }
    }

    /// The wire form of a height.
    pub fn from(height: Height) -> (raw: RawHeight)
        ensures
            raw == RawHeight::spec_from(height),
    {
        RawHeight {
            revision_number: height.revision_number,
            revision_height: height.revision_height,
        }
    }

    /// The height that the wire height stands for.
    pub fn height(&self) -> (h: Height)
        ensures
            h == self.spec_height(),
    {
        Height { revision_number: self.revision_number, revision_height: self.revision_height }
    }
}

/// The height at which the wire says that a client is frozen. The zero
/// height on the wire says, as a height left out does, that it is not.
pub open spec fn frozen_height_of(raw: Option<RawHeight>) -> Option<Height> {
    match raw {
        Some(h) => if h.spec_height() == Height::zero() {
            None
        } else {
            Some(h.spec_height())
        },
        None => None,
    }
}

/// Why a wire form gives no client state, if it gives none: the first field
/// that is left out or cannot be read.
pub open spec fn decode_fault(raw: RawClientState) -> Option<Error> {
    if raw.trust_level.is_none() {
        Some(Error::MissingTrustLevel)
    } else if !is_trust_threshold(
        raw.trust_level.unwrap().numerator,
        raw.trust_level.unwrap().denominator,
    ) {
        Some(
            Error::InvalidTrustThreshold {
                numerator: raw.trust_level.unwrap().numerator,
                denominator: raw.trust_level.unwrap().denominator,
            },
        )
    } else if raw.trusting_period.is_none() {
        Some(Error::MissingTrustingPeriod)
    } else if raw.trusting_period.unwrap().spec_duration().is_none() {
        Some(Error::NegativeTrustingPeriod)
    } else if raw.unbonding_period.is_none() {
        Some(Error::MissingUnbondingPeriod)
    } else if raw.unbonding_period.unwrap().spec_duration().is_none() {
        Some(Error::NegativeUnbondingPeriod)
    } else if raw.max_clock_drift.is_none() {
        Some(Error::MissingMaxClockDrift)
    } else if raw.max_clock_drift.unwrap().spec_duration().is_none() {
        Some(Error::NegativeMaxClockDrift)
    } else if raw.latest_height.is_none() {
        Some(Error::MissingLatestHeight)
    } else {
        None
    }
}

/// The client state that a wire form without a fault stands for. Nothing
/// but the form is checked: the state need not be one that `ClientState::new`
/// would make.
pub open spec fn decoded<H>(raw: RawClientState) -> ClientState<H>
    recommends
        decode_fault(raw).is_none(),
{
    ClientState {
        chain_id: ChainId::spec_from(raw.chain_id),
        trust_level: TrustThreshold::spec_new(
            raw.trust_level.unwrap().numerator,
            raw.trust_level.unwrap().denominator,
        ),
        trusting_period: raw.trusting_period.unwrap().spec_duration().unwrap(),
        unbonding_period: raw.unbonding_period.unwrap().spec_duration().unwrap(),
        max_clock_drift: raw.max_clock_drift.unwrap().spec_duration().unwrap(),
        latest_height: raw.latest_height.unwrap().spec_height(),
        proof_specs: ProofSpecs { specs: raw.proof_specs },
        upgrade_path: raw.upgrade_path,
        frozen_height: frozen_height_of(raw.frozen_height),
        _phantom: PhantomData,
    }
}

/// The wire form of a client state. A client that is not frozen is written
/// with the zero height as its frozen height.
pub open spec fn encoded<H>(state: ClientState<H>) -> RawClientState {
    RawClientState {
        chain_id: state.chain_id.spec_into_string(),
        trust_level: Some(
            Fraction {
                numerator: state.trust_level.spec_numerator(),
                denominator: state.trust_level.spec_denominator(),
            },
        ),
        trusting_period: Some(RawDuration::spec_from(state.trusting_period@)),
        unbonding_period: Some(RawDuration::spec_from(state.unbonding_period@)),
        max_clock_drift: Some(RawDuration::spec_from(state.max_clock_drift@)),
        frozen_height: Some(
            RawHeight::spec_from(
                match state.frozen_height {
                    Some(h) => h,
                    None => Height::zero(),
                },
            ),
        ),
        latest_height: Some(RawHeight::spec_from(state.latest_height)),
        proof_specs: state.proof_specs.specs,
        upgrade_path: state.upgrade_path,
        allow_update_after_expiry: false,
        allow_update_after_misbehaviour: false,
    }
}

/// The seconds of a span of `length` nanoseconds can be written on the wire.
pub open spec fn fits_wire(length: nat) -> bool {
    length / 1_000_000_000 <= i64::MAX
}

/// A span of time written for the wire and read back is the span, where its
/// seconds can be written on the wire.
pub proof fn lemma_duration_round_trip(span: Duration)
    requires
        span.wf(),
        fits_wire(span@),
    ensures
        RawDuration::spec_from(span@).spec_duration() == Some(span),
{
    let raw = RawDuration::spec_from(span@);
    crate::duration::lemma_duration_bounded(span);
    assert(wire_duration_nanos(raw.seconds, raw.nanos) == Some(span@ as u128));
    crate::duration::lemma_duration_from_nanos(span@);
    crate::duration::lemma_duration_by_length(Duration::spec_from_nanos(span@), span);
}

/// A client state written for the wire and read back is the client state:
/// `try_from(from(state))` is `Ok(state)`.
///
/// This holds of every client state that is not frozen at the zero height,
/// so of every valid one, as long as the seconds of its three periods can be
/// written on the wire. Longer periods are cut short on the wire.
pub proof fn lemma_decode_encode<H>(state: ClientState<H>)
    requires
        state.chain_id.wf(),
        state.trust_level.wf(),
        state.trusting_period.wf(),
        state.unbonding_period.wf(),
        state.max_clock_drift.wf(),
        state.frozen_height != Some(Height::zero()),
        fits_wire(state.trusting_period@),
        fits_wire(state.unbonding_period@),
        fits_wire(state.max_clock_drift@),
    ensures
        decode_fault(encoded(state)).is_none(),
        decoded::<H>(encoded(state)) == state,
{
    let raw = encoded(state);
    crate::trust_threshold::lemma_trust_threshold_new(
        state.trust_level.spec_numerator(),
        state.trust_level.spec_denominator(),
    );
    crate::trust_threshold::lemma_trust_threshold_by_fraction(
        TrustThreshold::spec_new(
            state.trust_level.spec_numerator(),
            state.trust_level.spec_denominator(),
        ),
        state.trust_level,
    );
    crate::trust_threshold::lemma_trust_threshold_wf(state.trust_level);
    lemma_duration_round_trip(state.trusting_period);
    lemma_duration_round_trip(state.unbonding_period);
    lemma_duration_round_trip(state.max_clock_drift);
    crate::chain_id::lemma_chain_id_of_its_string(state.chain_id);
    assert(frozen_height_of(raw.frozen_height) == state.frozen_height);
    assert(decoded::<H>(raw).proof_specs == state.proof_specs);
}

impl RawClientState {
    /// The wire form of a client state.
    pub fn from<H>(value: ClientState<H>) -> (raw: RawClientState)
        ensures
            raw == encoded(value),
    {
        let frozen_height = match value.frozen_height {
            Some(h) => h,
            None => Height::zero(),
        };
        RawClientState {
            chain_id: value.chain_id.into_string(),
            trust_level: Some(
                Fraction {
                    numerator: value.trust_level.numerator(),
                    denominator: value.trust_level.denominator(),
                },
            ),
            trusting_period: Some(RawDuration::from(value.trusting_period)),
            unbonding_period: Some(RawDuration::from(value.unbonding_period)),
            max_clock_drift: Some(RawDuration::from(value.max_clock_drift)),
            frozen_height: Some(RawHeight::from(frozen_height)),
            latest_height: Some(RawHeight::from(value.latest_height)),
            proof_specs: value.proof_specs.into_vec(),
            upgrade_path: value.upgrade_path,
            allow_update_after_expiry: false,
            allow_update_after_misbehaviour: false,
        }
    }
}

impl<H> ClientState<H> {
    /// The client state that a wire form stands for.
    pub fn try_from(raw: RawClientState) -> (r: Result<ClientState<H>, Error>)
        ensures
            match decode_fault(raw) {
                Some(e) => r == Err::<ClientState<H>, Error>(e),
                None => r == Ok::<ClientState<H>, Error>(decoded(raw)),
            },
    {
        let fraction = match raw.trust_level {
            Some(f) => f,
            None => { return Err(Error::MissingTrustLevel); },
        };
        let frozen_height = match raw.frozen_height {
            Some(h) => if h.height().is_zero() {
                None
            } else {
                Some(h.height())
            },
            None => None,
        };
        let chain_id = ChainId::from(raw.chain_id);
        let trust_level = match TrustThreshold::new(fraction.numerator, fraction.denominator) {
            Ok(t) => t,
            Err(e) => { return Err(e); },
        };
        let trusting_period = match raw.trusting_period {
            Some(d) => match d.duration() {
                Some(span) => span,
                None => { return Err(Error::NegativeTrustingPeriod); },
            },
            None => { return Err(Error::MissingTrustingPeriod); },
        };
        let unbonding_period = match raw.unbonding_period {
            Some(d) => match d.duration() {
                Some(span) => span,
                None => { return Err(Error::NegativeUnbondingPeriod); },
            },
            None => { return Err(Error::MissingUnbondingPeriod); },
        };
        let max_clock_drift = match raw.max_clock_drift {
            Some(d) => match d.duration() {
                Some(span) => span,
                None => { return Err(Error::NegativeMaxClockDrift); },
            },
            None => { return Err(Error::MissingMaxClockDrift); },
        };
        let latest_height = match raw.latest_height {
            Some(h) => h.height(),
            None => { return Err(Error::MissingLatestHeight); },
        };
        Ok(
            ClientState {
                chain_id,
                trust_level,
                trusting_period,
                unbonding_period,
                max_clock_drift,
                latest_height,
                proof_specs: ProofSpecs::new(raw.proof_specs),
                upgrade_path: raw.upgrade_path,
                frozen_height,
                _phantom: PhantomData,
            },
        )
    }
}

} // verus!
