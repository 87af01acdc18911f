//! How much of a validator set's voting power must stand behind a header.

use vstd::prelude::*;
use crate::error::Error;

verus! {

/// A fraction of voting power, at least nothing and less than all of it.
/// The zero threshold is written 0/0.
#[derive(Clone, Copy, Debug, PartialEq, Eq, Structural)]
pub struct TrustThreshold {
    numerator: u64,
    denominator: u64,
}

/// The fraction is a trust threshold: less than one, or 0/0.
pub open spec fn is_trust_threshold(numerator: u64, denominator: u64) -> bool {
    numerator < denominator || (numerator == 0 && denominator == 0)
}

/// The fraction is a threshold that a light client verifies with: at least a
/// third, and less than one.
pub open spec fn is_verifier_threshold(numerator: u64, denominator: u64) -> bool {
    numerator < denominator && denominator <= 3 * numerator
}

/// Asks `ibc::core::ics02_client::trust_threshold::TrustThreshold::new`
/// whether it accepts the fraction.
///
/// Trusted: it accepts a fraction below one, and 0/0, and nothing else.
#[verifier::external_body]
fn accepted_by_ibc(numerator: u64, denominator: u64) -> (ok: bool)
    ensures
        ok == is_trust_threshold(numerator, denominator),
{
    ibc::core::ics02_client::trust_threshold::TrustThreshold::new(numerator, denominator).is_ok()
}

/// Asks `tendermint::trust_threshold::TrustThresholdFraction::new` whether it
/// accepts the fraction.
///
/// Trusted: it accepts a fraction that is at least a third and less than
/// one, and nothing else. It multiplies the numerator by three, so a
/// numerator that cannot be tripled is kept from it.
#[verifier::external_body]
fn accepted_by_tendermint(numerator: u64, denominator: u64) -> (ok: bool)
    requires
        3 * numerator <= u64::MAX,
    ensures
        ok == is_verifier_threshold(numerator, denominator),
{
    tendermint::trust_threshold::TrustThresholdFraction::new(numerator, denominator).is_ok()
}

impl TrustThreshold {
    /// The fraction is less than one, or 0/0.
    #[verifier::type_invariant]
    pub closed spec fn wf(self) -> bool {
        is_trust_threshold(self.numerator, self.denominator)
    }

    /// The threshold `numerator / denominator`.
    pub closed spec fn spec_new(numerator: u64, denominator: u64) -> TrustThreshold {
        TrustThreshold { numerator, denominator }
    }

    pub closed spec fn spec_numerator(self) -> u64 {
        self.numerator
    }

    pub closed spec fn spec_denominator(self) -> u64 {
        self.denominator
    }

    /// This is the zero threshold, 0/0.
    pub open spec fn spec_is_zero(self) -> bool {
        self.spec_numerator() == 0 && self.spec_denominator() == 0
    }

    /// The threshold `numerator / denominator`, where that fraction is one.
    pub fn new(numerator: u64, denominator: u64) -> (r: Result<TrustThreshold, Error>)
        ensures
            is_trust_threshold(numerator, denominator) ==> r == Ok::<TrustThreshold, Error>(
                TrustThreshold::spec_new(numerator, denominator),
            ) && r.unwrap().wf(),
            !is_trust_threshold(numerator, denominator) ==> r == Err::<TrustThreshold, Error>(
                Error::InvalidTrustThreshold { numerator, denominator },
            ),
    {
        if accepted_by_ibc(numerator, denominator) {
            Ok(TrustThreshold { numerator, denominator })
        } else {
            Err(Error::InvalidTrustThreshold { numerator, denominator })
        }
    }

    /// A third.
    pub fn one_third() -> (t: TrustThreshold)
        ensures
            t.spec_numerator() == 1,
            t.spec_denominator() == 3,
            t.wf(),
    {
        TrustThreshold { numerator: 1, denominator: 3 }
    }

    /// Two thirds.
    pub fn two_thirds() -> (t: TrustThreshold)
        ensures
            t.spec_numerator() == 2,
            t.spec_denominator() == 3,
            t.wf(),
    {
        TrustThreshold { numerator: 2, denominator: 3 }
    }

    /// The zero threshold, 0/0.
    pub closed spec fn spec_zero() -> TrustThreshold {
        TrustThreshold { numerator: 0, denominator: 0 }
    }

    /// The zero threshold, 0/0.
    #[verifier::when_used_as_spec(spec_zero)]
    pub fn zero() -> (t: TrustThreshold)
        ensures
            t == TrustThreshold::spec_zero(),
            t.spec_is_zero(),
            t.wf(),
    {
        TrustThreshold { numerator: 0, denominator: 0 }
    }

    #[verifier::when_used_as_spec(spec_numerator)]
    pub fn numerator(self) -> (n: u64)
        ensures
            n == self.spec_numerator(),
    {
        self.numerator
    }

    #[verifier::when_used_as_spec(spec_denominator)]
    pub fn denominator(self) -> (d: u64)
        ensures
            d == self.spec_denominator(),
    {
        self.denominator
    }

    #[verifier::when_used_as_spec(spec_is_zero)]
    pub fn is_zero(self) -> (r: bool)
        ensures
            r == self.spec_is_zero(),
    {
        self.numerator == 0 && self.denominator == 0
    }

    /// Whether a light client can verify with this threshold.
    pub fn is_verifier_threshold(self) -> (r: bool)
        ensures
            r == is_verifier_threshold(self.spec_numerator(), self.spec_denominator()),
    {
        proof {
            use_type_invariant(self);
        }
        if self.numerator <= u64::MAX / 3 {
            accepted_by_tendermint(self.numerator, self.denominator)
        } else {
            // Three times the numerator is beyond every denominator.
            true
        }
    }
}

/// The threshold made of a fraction has that fraction, and is a threshold
/// where the fraction is one.
pub proof fn lemma_trust_threshold_new(numerator: u64, denominator: u64)
    ensures
        TrustThreshold::spec_new(numerator, denominator).spec_numerator() == numerator,
        TrustThreshold::spec_new(numerator, denominator).spec_denominator() == denominator,
        TrustThreshold::spec_new(numerator, denominator).wf() == is_trust_threshold(
            numerator,
            denominator,
        ),
{
}

/// The fraction of a trust threshold is less than one, or 0/0.
pub proof fn lemma_trust_threshold_wf(t: TrustThreshold)
    requires
        t.wf(),
    ensures
        is_trust_threshold(t.spec_numerator(), t.spec_denominator()),
{
}

/// The zero threshold is 0/0.
pub proof fn lemma_trust_threshold_zero()
    ensures
        TrustThreshold::spec_zero().spec_is_zero(),
        TrustThreshold::spec_zero().wf(),
{
}

/// A trust threshold is known by its fraction.
pub proof fn lemma_trust_threshold_by_fraction(a: TrustThreshold, b: TrustThreshold)
    requires
        a.spec_numerator() == b.spec_numerator(),
        a.spec_denominator() == b.spec_denominator(),
    ensures
        a == b,
{
}

} // verus!
