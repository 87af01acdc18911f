//! Heights of blocks on a chain that may restart its numbering.

use vstd::prelude::*;

verus! {

/// The position of a block: the revision of the chain, then the block's
/// number within that revision. Heights are ordered by revision first.
#[derive(Clone, Copy, Debug, Hash, PartialEq, Eq, Structural, PartialOrd, Ord)]
pub struct Height {
    pub revision_number: u64,
    pub revision_height: u64,
}

impl Height {
    /// The height that stands for "no height".
    pub open spec fn spec_zero() -> Height {
        Height { revision_number: 0, revision_height: 0 }
    }

    /// `self` comes strictly before `other`.
    pub open spec fn spec_lt(self, other: Height) -> bool {
        self.revision_number < other.revision_number || (self.revision_number
            == other.revision_number && self.revision_height < other.revision_height)
    }

    /// `self` comes before `other` or is `other`.
    pub open spec fn spec_le(self, other: Height) -> bool {
        self.spec_lt(other) || self == other
    }

    /// The later of two heights.
    pub open spec fn spec_max(self, other: Height) -> Height {
        if self.spec_lt(other) {
            other
        } else {
            self
        }
    }

    /// `self` has been reached once `delta` blocks have followed `start`
    /// within `start`'s revision, or a later revision has begun.
    pub open spec fn reaches(self, start: Height, delta: u64) -> bool {
        self.revision_number > start.revision_number || (self.revision_number
            == start.revision_number && self.revision_height >= start.revision_height + delta)
    }

    /// `self` moved on by `delta` blocks, the block number held at the
    /// largest one that can be written down.
    pub open spec fn spec_saturating_add(self, delta: u64) -> Height {
        Height {
            revision_number: self.revision_number,
            revision_height: if self.revision_height + delta <= u64::MAX {
                (self.revision_height + delta) as u64
            } else {
                u64::MAX
            },
        }
    }

    pub open spec fn spec_new(revision_number: u64, revision_height: u64) -> Height {
        Height { revision_number, revision_height }
    }

    #[verifier::when_used_as_spec(spec_new)]
    pub fn new(revision_number: u64, revision_height: u64) -> (h: Height)
        ensures
            h == Height::spec_new(revision_number, revision_height),
    {
        Height { revision_number, revision_height }
    }

    #[verifier::when_used_as_spec(spec_zero)]
    pub fn zero() -> (h: Height)
        ensures
            h == Height::spec_zero(),
    {
        Height { revision_number: 0, revision_height: 0 }
    }

    /// Whether this is the height that stands for "no height".
    pub fn is_zero(&self) -> (r: bool)
        ensures
            r == (*self == Height::spec_zero()),
    {
        self.revision_number == 0 && self.revision_height == 0
    }

    #[verifier::when_used_as_spec(spec_lt)]
    pub fn lt(self, other: Height) -> (r: bool)
        ensures
            r == self.spec_lt(other),
    {
        self.revision_number < other.revision_number || (self.revision_number
            == other.revision_number && self.revision_height < other.revision_height)
    }

    #[verifier::when_used_as_spec(spec_le)]
    pub fn le(self, other: Height) -> (r: bool)
        ensures
            r == self.spec_le(other),
    {
        self.revision_number < other.revision_number || (self.revision_number
            == other.revision_number && self.revision_height <= other.revision_height)
    }

    #[verifier::when_used_as_spec(spec_max)]
    pub fn max(self, other: Height) -> (r: Height)
        ensures
            r == self.spec_max(other),
    {
        if self.lt(other) {
            other
        } else {
            self
        }
    }

    /// The same revision with another block number.
    pub fn with_revision_height(self, revision_height: u64) -> (h: Height)
        ensures
            h.revision_number == self.revision_number,
            h.revision_height == revision_height,
    {
        Height { revision_number: self.revision_number, revision_height }
    }

    /// `self` moved on by `delta` blocks within its revision, the block
    /// number held at the largest one that can be written down.
    #[verifier::when_used_as_spec(spec_saturating_add)]
    pub fn saturating_add(self, delta: u64) -> (h: Height)
        ensures
            h == self.spec_saturating_add(delta),
    {
        if delta <= u64::MAX - self.revision_height {
            Height {
                revision_number: self.revision_number,
                revision_height: self.revision_height + delta,
            }
        } else {
            Height { revision_number: self.revision_number, revision_height: u64::MAX }
        }
    }
}

/// The order of heights is total: of two different heights one comes first.
pub proof fn lemma_height_order_total(a: Height, b: Height)
    ensures
        a.spec_lt(b) || a == b || b.spec_lt(a),
        !(a.spec_lt(b) && b.spec_lt(a)),
        a.spec_le(b) <==> !b.spec_lt(a),
{
}

/// The order of heights is transitive.
pub proof fn lemma_height_order_transitive(a: Height, b: Height, c: Height)
    requires
        a.spec_le(b),
        b.spec_le(c),
    ensures
        a.spec_le(c),
{
}

} // verus!
