//! What can go wrong.

use vstd::prelude::*;
use crate::height::Height;
use crate::timestamp::Timestamp;

verus! {

/// Why a client state was refused, or why it refuses a request.
#[derive(Clone, Copy, Debug, PartialEq, Eq, Structural)]
pub enum Error {
    /// The trusting period is empty.
    InvalidTrustingPeriod,
    /// The unbonding period is empty.
    InvalidUnbondingPeriod,
    /// The trusting period is not shorter than the unbonding period.
    TrustingPeriodNotShorter,
    /// The latest height is the zero height.
    InvalidLatestHeight,
    /// The trust level is the zero threshold.
    ZeroTrustLevel,
    /// There are no proof specs.
    EmptyProofSpecs,
    /// The height to freeze at is the zero height.
    ZeroFrozenHeight,
    /// The fraction is not a trust threshold, or not one that a light client
    /// can verify with.
    InvalidTrustThreshold { numerator: u64, denominator: u64 },
    /// A timestamp moved on by a delay lies beyond the last instant that can
    /// be named.
    TimestampOverflow,
    /// The delay period has not passed on the clock.
    NotEnoughTimeElapsed { current_time: Timestamp, earliest_time: Timestamp },
    /// The delay period has not passed in blocks.
    NotEnoughBlocksElapsed { current_height: Height, earliest_height: Height },
    /// The client has not seen the height asked for.
    InsufficientHeight { latest_height: Height, target_height: Height },
    /// The client is frozen at or below the height asked for.
    ClientFrozen { frozen_height: Height, target_height: Height },
    /// The wire form holds no trust level.
    MissingTrustLevel,
    /// The wire form holds no trusting period.
    MissingTrustingPeriod,
    /// The wire form holds no unbonding period.
    MissingUnbondingPeriod,
    /// The wire form holds no clock drift.
    MissingMaxClockDrift,
    /// The wire form holds no latest height.
    MissingLatestHeight,
    /// The wire form's trusting period is negative.
    NegativeTrustingPeriod,
    /// The wire form's unbonding period is negative.
    NegativeUnbondingPeriod,
    /// The wire form's clock drift is negative.
    NegativeMaxClockDrift,
}

} // verus!
