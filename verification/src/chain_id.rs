//! Names of chains.

use vstd::prelude::*;

verus! {

/// The revision that `ibc`'s `ChainId::from_string` reads off the end of a
/// chain's name, as 10 off `ibc-10`, and 0 where it reads none.
pub uninterp spec fn chain_version(id: Seq<char>) -> u64;

/// Reads the revision off a chain's name with
/// `ibc::core::ics24_host::identifier::ChainId::from_string`.
///
/// Trusted: the revision depends on the name alone.
#[verifier::external_body]
fn version_of(id: &str) -> (version: u64)
    ensures
        version == chain_version(id@),
{
    ibc::core::ics24_host::identifier::ChainId::from_string(id).version()
}

/// The name of a chain, with the revision that the name gives. Its view is
/// the name.
#[derive(Debug, PartialEq, Eq, Hash)]
pub struct ChainId {
    id: String,
    version: u64,
}

impl View for ChainId {
    type V = Seq<char>;

    closed spec fn view(&self) -> Seq<char> {
        self.id@
    }
}

impl ChainId {
    /// The revision held is the one that the name gives.
    #[verifier::type_invariant]
    pub closed spec fn wf(self) -> bool {
        self.version == chain_version(self.id@)
    }

    /// The chain id made of the string `id`.
    pub closed spec fn spec_from(id: String) -> ChainId {
        ChainId { id, version: chain_version(id@) }
    }

    /// The string that the chain id is made of.
    pub closed spec fn spec_into_string(self) -> String {
        self.id
    }

    pub closed spec fn spec_version(&self) -> u64 {
        self.version
    }

    /// The chain id of the name `id`.
    pub fn from_string(id: &str) -> (c: ChainId)
        ensures
            c@ == id@,
            c.spec_version() == chain_version(id@),
            c.wf(),
    {
        let version = version_of(id);
        ChainId { id: id.to_owned(), version }
    }

    /// The chain id made of the string `id`.
    pub fn from(id: String) -> (c: ChainId)
        ensures
            c == ChainId::spec_from(id),
            c@ == id@,
            c.spec_version() == chain_version(id@),
            c.wf(),
    {
        let version = version_of(id.as_str());
        ChainId { id, version }
    }

    /// The name.
    pub fn as_str(&self) -> (s: &str)
        ensures
            s@ == self@,
    {
        self.id.as_str()
    }

    /// The string that the chain id is made of.
    pub fn into_string(self) -> (s: String)
        ensures
            s == self.spec_into_string(),
            s@ == self@,
    {
        self.id
    }

    /// The revision that the name gives.
    #[verifier::when_used_as_spec(spec_version)]
    pub fn version(&self) -> (v: u64)
        ensures
            v == self.spec_version(),
    {
        self.version
    }

}

impl Clone for ChainId {
    fn clone(&self) -> (c: ChainId)
        ensures
            c == *self,
    {
        proof {
            use_type_invariant(self);
        }
        ChainId { id: self.id.clone(), version: self.version }
    }
}

/// A chain id's revision is the one that its name gives.
pub proof fn lemma_version_of_name(c: ChainId)
    requires
        c.wf(),
    ensures
        c.spec_version() == chain_version(c@),
{
}

/// A chain id made of the string of a chain id is that chain id.
pub proof fn lemma_chain_id_of_its_string(c: ChainId)
    requires
        c.wf(),
    ensures
        ChainId::spec_from(c.spec_into_string()) == c,
{
}

} // verus!
