//! The formats of the proofs that a remote chain gives of its state.

use vstd::prelude::*;

verus! {

/// One proof format, as `ibc_proto::ics23::ProofSpec` writes it down. What it
/// holds is not read here: it is kept and handed on.
#[verifier::external_type_specification]
#[verifier::external_body]
pub struct ExProofSpec(ibc_proto::ics23::ProofSpec);

/// The proof formats of a chain, in order. Its view is their sequence.
#[derive(Clone, Debug, PartialEq, Eq)]
pub struct ProofSpecs {
    pub specs: Vec<ibc_proto::ics23::ProofSpec>,
}

impl View for ProofSpecs {
    type V = Seq<ibc_proto::ics23::ProofSpec>;

    open spec fn view(&self) -> Seq<ibc_proto::ics23::ProofSpec> {
        self.specs@
    }
}

impl ProofSpecs {
    pub fn new(specs: Vec<ibc_proto::ics23::ProofSpec>) -> (p: ProofSpecs)
        ensures
            p.specs == specs,
    {
        ProofSpecs { specs }
    }

    pub fn is_empty(&self) -> (r: bool)
        ensures
            r == (self@.len() == 0),
    {
        self.specs.len() == 0
    }

    pub fn len(&self) -> (n: usize)
        ensures
            n == self@.len(),
    {
        self.specs.len()
    }

    /// The proof formats themselves.
    pub fn into_vec(self) -> (specs: Vec<ibc_proto::ics23::ProofSpec>)
        ensures
            specs == self.specs,
    {
        self.specs
    }
}

} // verus!
