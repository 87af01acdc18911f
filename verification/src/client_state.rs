//! What a host chain trusts of a remote chain, and the checks made on the
//! strength of it.

use vstd::prelude::*;
use core::marker::PhantomData;
use crate::chain_id::ChainId;
use crate::duration::Duration;
use crate::error::Error;
use crate::height::Height;
use crate::proof_specs::ProofSpecs;
use crate::timestamp::{Timestamp, time_reached};
use crate::trust_threshold::{TrustThreshold, is_verifier_threshold};

verus! {

/// The state of a light client of a remote chain. `H` names the
/// cryptography that verifies the remote chain's headers: it is chosen with
/// the type and nothing here calls it.
#[derive(Debug, PartialEq, Eq)]
pub struct ClientState<H> {
    pub chain_id: ChainId,
    pub trust_level: TrustThreshold,
    pub trusting_period: Duration,
    pub unbonding_period: Duration,
    pub max_clock_drift: Duration,
    pub latest_height: Height,
    pub proof_specs: ProofSpecs,
    pub upgrade_path: Vec<String>,
    pub frozen_height: Option<Height>,
    pub _phantom: PhantomData<H>,
}

impl<H> Clone for ClientState<H> {
    fn clone(&self) -> Self {
        ClientState {
            chain_id: self.chain_id.clone(),
            trust_level: self.trust_level,
            trusting_period: self.trusting_period,
            unbonding_period: self.unbonding_period,
            max_clock_drift: self.max_clock_drift,
            latest_height: self.latest_height,
            proof_specs: self.proof_specs.clone(),
            upgrade_path: self.upgrade_path.clone(),
            frozen_height: self.frozen_height,
            _phantom: PhantomData,
        }
    }
}

/// What is changed when a client is upgraded, beside its chain and height.
#[derive(Clone, Copy, Debug, PartialEq, Eq)]
pub struct UpgradeOptions {
    pub unbonding_period: Duration,
}

/// What a light client verifies a header with.
#[derive(Clone, Copy, Debug, PartialEq, Eq)]
pub struct Options {
    pub trust_threshold: TrustThreshold,
    pub trusting_period: Duration,
    pub clock_drift: Duration,
}

/// What a client state reads of a verified header: the chain that it is of,
/// and the number of its block.
#[derive(Clone, Debug, PartialEq, Eq)]
pub struct Header {
    pub chain_id: ChainId,
    pub height: u64,
}

impl Header {
    /// The height of the header: the revision of its chain, and the number of
    /// its block.
    pub open spec fn spec_height(&self) -> Height {
        Height { revision_number: self.chain_id.spec_version(), revision_height: self.height }
    }

    #[verifier::when_used_as_spec(spec_height)]
    pub fn height(&self) -> (h: Height)
        ensures
            h == self.spec_height(),
    {
        Height::new(self.chain_id.version(), self.height)
    }
}

/// The first fault of the parameters of a new client state, if they have
/// one.
pub open spec fn new_fault(
    trust_level: TrustThreshold,
    trusting_period: Duration,
    unbonding_period: Duration,
    latest_height: Height,
    proof_specs: ProofSpecs,
) -> Option<Error> {
    if trusting_period@ == 0 {
        Some(Error::InvalidTrustingPeriod)
    } else if unbonding_period@ == 0 {
        Some(Error::InvalidUnbondingPeriod)
    } else if trusting_period@ >= unbonding_period@ {
        Some(Error::TrustingPeriodNotShorter)
    } else if latest_height.spec_le(Height::zero()) {
        Some(Error::InvalidLatestHeight)
    } else if trust_level.spec_is_zero() {
        Some(Error::ZeroTrustLevel)
    } else if proof_specs@.len() == 0 {
        Some(Error::EmptyProofSpecs)
    } else {
        None
    }
}

/// The delay has passed: the clock has reached the time of processing moved
/// on by the delay, and the chain the height of processing moved on by the
/// delay in blocks.
pub open spec fn delay_passed(
    current_time: Timestamp,
    current_height: Height,
    processed_time: Timestamp,
    processed_height: Height,
    delay_period_time: Duration,
    delay_period_blocks: u64,
) -> bool {
    match processed_time.spec_plus(delay_period_time@) {
        Some(earliest) => time_reached(current_time@, earliest) && current_height.reaches(
            processed_height,
            delay_period_blocks,
        ),
        None => false,
    }
}

/// A height can be relied on: the client has seen it, and is not frozen at
/// it or below it.
pub open spec fn height_verified(
    latest_height: Height,
    frozen_height: Option<Height>,
    height: Height,
) -> bool {
    height.spec_le(latest_height) && match frozen_height {
        Some(frozen) => height.spec_lt(frozen),
        None => true,
    }
}

/// The parameters of a new client state have no fault exactly where they
/// are those of a valid state: where both periods are longer than nothing,
/// the trusting period is the shorter one, the latest height is above the
/// zero height, the trust level is not the zero threshold, and there is a
/// proof spec. Any one of these missing is a fault.
pub proof fn lemma_new_succeeds_iff_valid(
    trust_level: TrustThreshold,
    trusting_period: Duration,
    unbonding_period: Duration,
    latest_height: Height,
    proof_specs: ProofSpecs,
)
    ensures
        new_fault(
            trust_level,
            trusting_period,
            unbonding_period,
            latest_height,
            proof_specs,
        ).is_none() <==> (trusting_period@ > 0 && unbonding_period@ > 0 && trusting_period@
            < unbonding_period@ && Height::zero().spec_lt(latest_height)
            && !trust_level.spec_is_zero() && proof_specs@.len() > 0),
{
}

/// Where both times are set, the delay has passed exactly where the clock
/// is at or beyond the time of processing plus the delay, and the height at
/// or beyond the height of processing plus the delay in blocks.
pub proof fn lemma_delay_passed_iff_both_bounds(
    current_time: Timestamp,
    current_height: Height,
    processed_time: Timestamp,
    processed_height: Height,
    delay_period_time: Duration,
    delay_period_blocks: u64,
)
    requires
        current_time.wf(),
        current_time@.is_some(),
        processed_time@.is_some(),
    ensures
        delay_passed(
            current_time,
            current_height,
            processed_time,
            processed_height,
            delay_period_time,
            delay_period_blocks,
        ) <==> (current_time@.unwrap() >= processed_time@.unwrap() + delay_period_time@
            && current_height.reaches(processed_height, delay_period_blocks)),
{
    crate::timestamp::lemma_timestamp_bounded(current_time);
}

/// A client frozen at a height stands for no height at or above it,
/// whatever it has seen.
pub proof fn lemma_frozen_refuses(latest_height: Height, frozen_height: Height, height: Height)
    requires
        frozen_height.spec_le(height),
    ensures
        !height_verified(latest_height, Some(frozen_height), height),
{
}

impl<H> ClientState<H> {
    /// What holds of every client state that is in use: the periods are not
    /// empty, the trusting period is the shorter one, a height has been seen,
    /// the trust level is not zero, there are proof specs, and a frozen
    /// client is frozen at a height.
    pub open spec fn valid(self) -> bool {
        &&& self.trusting_period@ > 0
        &&& self.unbonding_period@ > 0
        &&& self.trusting_period@ < self.unbonding_period@
        &&& Height::zero().spec_lt(self.latest_height)
        &&& !self.trust_level.spec_is_zero()
        &&& self.proof_specs@.len() > 0
        &&& self.frozen_height != Some(Height::zero())
    }

    /// A client state of a chain, not frozen.
    pub fn new(
        chain_id: ChainId,
        trust_level: TrustThreshold,
        trusting_period: Duration,
        unbonding_period: Duration,
        max_clock_drift: Duration,
        latest_height: Height,
        proof_specs: ProofSpecs,
        upgrade_path: Vec<String>,
    ) -> (r: Result<ClientState<H>, Error>)
        ensures
            match new_fault(
                trust_level,
                trusting_period,
                unbonding_period,
                latest_height,
                proof_specs,
            ) {
                Some(e) => r == Err::<ClientState<H>, Error>(e),
                None => r == Ok::<ClientState<H>, Error>(
                    ClientState {
                        chain_id,
                        trust_level,
                        trusting_period,
                        unbonding_period,
                        max_clock_drift,
                        latest_height,
                        proof_specs,
                        upgrade_path,
                        frozen_height: None,
                        _phantom: PhantomData,
                    },
                ) && r.unwrap().valid(),
            },
    {
        if trusting_period.is_zero() {
            return Err(Error::InvalidTrustingPeriod);
        }
        if unbonding_period.is_zero() {
            return Err(Error::InvalidUnbondingPeriod);
        }
        if unbonding_period.le(&trusting_period) {
            return Err(Error::TrustingPeriodNotShorter);
        }
        if latest_height.le(Height::zero()) {
            return Err(Error::InvalidLatestHeight);
        }
        if trust_level.is_zero() {
            return Err(Error::ZeroTrustLevel);
        }
        if proof_specs.is_empty() {
            return Err(Error::EmptyProofSpecs);
        }
        Ok(
            ClientState {
                chain_id,
                trust_level,
                trusting_period,
                unbonding_period,
                max_clock_drift,
                latest_height,
                proof_specs,
                upgrade_path,
                frozen_height: None,
                _phantom: PhantomData,
            },
        )
    }

    pub fn latest_height(&self) -> (h: Height)
        ensures
            h == self.latest_height,
    {
        self.latest_height
    }

    /// The state after a header that was verified: the latest height is the
    /// header's where that is later, and stays where it is not.
    pub fn with_header(self, h: Header) -> (r: ClientState<H>)
        ensures
            r == (ClientState { latest_height: self.latest_height.spec_max(h.spec_height()), ..self }),
            self.latest_height.spec_le(r.latest_height),
            self.valid() ==> r.valid(),
    {
        let latest_height = self.latest_height.max(h.height());
        ClientState { latest_height, ..self }
    }

    /// The state frozen at the height `h`, which is not the zero height.
    pub fn with_frozen_height(self, h: Height) -> (r: Result<ClientState<H>, Error>)
        ensures
            h == Height::zero() ==> r == Err::<ClientState<H>, Error>(Error::ZeroFrozenHeight),
            h != Height::zero() ==> r == Ok::<ClientState<H>, Error>(
                ClientState { frozen_height: Some(h), ..self },
            ),
            self.valid() && r.is_ok() ==> r.unwrap().valid(),
    {
        if h.is_zero() {
            return Err(Error::ZeroFrozenHeight);
        }
        Ok(ClientState { frozen_height: Some(h), ..self })
    }

    /// After how long the client is to be updated so that it does not
    /// expire: two thirds of the trusting period.
    pub fn refresh_time(&self) -> (r: Option<Duration>)
        ensures
            r.is_some(),
            r.unwrap()@ == (2 * self.trusting_period@) / 3,
            r.unwrap().wf(),
    {
        Some(self.trusting_period.two_thirds())
    }

    pub fn chain_id(&self) -> (c: ChainId)
        ensures
            c == self.chain_id,
    {
        self.chain_id.clone()
    }

    /// The name of this kind of client.
    pub fn client_type() -> (t: String)
        ensures
            t@ == "07-tendermint"@,
    {
        "07-tendermint".to_owned()
    }

    pub fn frozen_height(&self) -> (h: Option<Height>)
        ensures
            h == self.frozen_height,
    {
        self.frozen_height
    }

    /// The state after the remote chain was upgraded: on the new chain at
    /// the new height, with the new unbonding period, not frozen, and with
    /// its trust level, trusting period and clock drift blank. Proof specs
    /// and upgrade path stay.
    pub fn upgrade(
        self,
        upgrade_height: Height,
        upgrade_options: UpgradeOptions,
        chain_id: ChainId,
    ) -> (r: ClientState<H>)
        ensures
            r == (ClientState {
                chain_id,
                trust_level: TrustThreshold::zero(),
                trusting_period: Duration::zero(),
                unbonding_period: upgrade_options.unbonding_period,
                max_clock_drift: Duration::zero(),
                latest_height: upgrade_height,
                frozen_height: None,
                ..self
            }),
            r.frozen_height.is_none(),
            r.trust_level.spec_is_zero(),
            r.trusting_period@ == 0,
            r.max_clock_drift@ == 0,
    {
        proof {
            crate::duration::lemma_duration_zero();
            crate::trust_threshold::lemma_trust_threshold_zero();
        }
        let mut state = self;
        state.reset();
        state.latest_height = upgrade_height;
        state.unbonding_period = upgrade_options.unbonding_period;
        state.chain_id = chain_id;
        state
    }

    /// Blanks what an upgrade does not carry over.
    fn reset(&mut self)
        ensures
            *final(self) == (ClientState {
                trust_level: TrustThreshold::zero(),
                trusting_period: Duration::zero(),
                max_clock_drift: Duration::zero(),
                frozen_height: None,
                ..*old(self)
            }),
    {
        self.trusting_period = Duration::zero();
        self.trust_level = TrustThreshold::zero();
        self.frozen_height = None;
        self.max_clock_drift = Duration::zero();
    }

    /// Whether the state has expired once `elapsed` has passed since the
    /// time of the latest consensus state.
    pub fn expired(&self, elapsed: Duration) -> (r: bool)
        ensures
            r == (elapsed@ > self.trusting_period@),
    {
        self.trusting_period.lt(&elapsed)
    }

    /// What a light client is to verify a header with on the strength of
    /// this state. The trust level must be one that a light client verifies
    /// with: at least a third.
    pub fn as_light_client_options(&self) -> (r: Result<Options, Error>)
        ensures
            is_verifier_threshold(
                self.trust_level.spec_numerator(),
                self.trust_level.spec_denominator(),
            ) ==> r == Ok::<Options, Error>(
                Options {
                    trust_threshold: self.trust_level,
                    trusting_period: self.trusting_period,
                    clock_drift: self.max_clock_drift,
                },
            ),
            !is_verifier_threshold(
                self.trust_level.spec_numerator(),
                self.trust_level.spec_denominator(),
            ) ==> r == Err::<Options, Error>(
                Error::InvalidTrustThreshold {
                    numerator: self.trust_level.spec_numerator(),
                    denominator: self.trust_level.spec_denominator(),
                },
            ),
    {
        if self.trust_level.is_verifier_threshold() {
            Ok(
                Options {
                    trust_threshold: self.trust_level,
                    trusting_period: self.trusting_period,
                    clock_drift: self.max_clock_drift,
                },
            )
        } else {
            Err(
                Error::InvalidTrustThreshold {
                    numerator: self.trust_level.numerator(),
                    denominator: self.trust_level.denominator(),
                },
            )
        }
    }

    /// Checks that the delay period has passed since a consensus state was
    /// processed, on the clock and in blocks. The clock is looked at first.
    pub fn verify_delay_passed(
        current_time: Timestamp,
        current_height: Height,
        processed_time: Timestamp,
        processed_height: Height,
        delay_period_time: Duration,
        delay_period_blocks: u64,
    ) -> (r: Result<(), Error>)
        ensures
            r.is_ok() <==> delay_passed(
                current_time,
                current_height,
                processed_time,
                processed_height,
                delay_period_time,
                delay_period_blocks,
            ),
            match processed_time.spec_plus(delay_period_time@) {
                None => r == Err::<(), Error>(Error::TimestampOverflow),
                Some(earliest) => if !time_reached(current_time@, earliest) {
                    r matches Err(Error::NotEnoughTimeElapsed { current_time: c, earliest_time: e })
                        && c == current_time && e@ == earliest && e.wf()
                } else if !current_height.reaches(processed_height, delay_period_blocks) {
                    r == Err::<(), Error>(
                        Error::NotEnoughBlocksElapsed {
                            current_height,
                            earliest_height: processed_height.spec_saturating_add(
                                delay_period_blocks,
                            ),
                        },
                    )
                } else {
                    r == Ok::<(), Error>(())
                },
            },
    {
        let earliest_time = match processed_time.checked_add(delay_period_time) {
            Ok(t) => t,
            Err(e) => { return Err(e); },
        };
        if !current_time.at_or_after(&earliest_time) {
            return Err(Error::NotEnoughTimeElapsed { current_time, earliest_time });
        }
        let reached = current_height.revision_number > processed_height.revision_number || (
        current_height.revision_number == processed_height.revision_number
            && delay_period_blocks <= current_height.revision_height
            && processed_height.revision_height <= current_height.revision_height
            - delay_period_blocks);
        if !reached {
            return Err(
                Error::NotEnoughBlocksElapsed {
                    current_height,
                    earliest_height: processed_height.saturating_add(delay_period_blocks),
                },
            );
        }
        Ok(())
    }

    /// Checks that the client has seen the height `height` and is not frozen
    /// at it or below it.
    pub fn verify_height(&self, height: Height) -> (r: Result<(), Error>)
        ensures
            r.is_ok() <==> height_verified(self.latest_height, self.frozen_height, height),
            self.latest_height.spec_lt(height) ==> r == Err::<(), Error>(
                Error::InsufficientHeight { latest_height: self.latest_height, target_height: height },
            ),
            !self.latest_height.spec_lt(height) ==> match self.frozen_height {
                Some(frozen) => frozen.spec_le(height) ==> r == Err::<(), Error>(
                    Error::ClientFrozen { frozen_height: frozen, target_height: height },
                ),
                None => true,
            },
    {
        if self.latest_height.lt(height) {
            return Err(
                Error::InsufficientHeight { latest_height: self.latest_height, target_height: height },
            );
        }
        match self.frozen_height {
            Some(frozen_height) => {
                if frozen_height.le(height) {
                    Err(Error::ClientFrozen { frozen_height, target_height: height })
                } else {
                    Ok(())
                }
            },
            None => Ok(()),
        }
    }
}

} // verus!
