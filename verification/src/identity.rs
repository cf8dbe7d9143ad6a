use vstd::prelude::*;

verus! {

/// The logical identity of a fork: the endpoint the snapshot was taken from,
/// together with the pinned block height. A height of `None` means "latest"
/// and is a distinct identity from every pinned height; the two are never
/// coalesced.
pub struct ForkIdentity {
    pub source_endpoint: String,
    pub pinned_height: Option<u64>,
}

impl ForkIdentity {
    /// The mathematical key of an identity: the endpoint's characters paired
    /// with the pinned height. Two identities denote the same fork exactly
    /// when their keys are equal.
    pub open spec fn key(self) -> (Seq<char>, Option<u64>) {
        (self.source_endpoint@, self.pinned_height)
    }

    /// Decides whether two identities denote the same fork.
    pub fn same_identity(&self, other: &ForkIdentity) -> (r: bool)
        ensures
            r == (self.key() == other.key()),
    {
        let endpoints_equal = self.source_endpoint == other.source_endpoint;
        let heights_equal = match (self.pinned_height, other.pinned_height) {
            (None, None) => true,
            (Some(a), Some(b)) => a == b,
            _ => false,
        };
        endpoints_equal && heights_equal
    }

    /// An identical copy of this identity, with the same key.
    pub fn duplicate(&self) -> (r: ForkIdentity)
        ensures
            r.key() == self.key(),
    {
        ForkIdentity {
            source_endpoint: self.source_endpoint.clone(),
            pinned_height: self.pinned_height,
        }
    }
}

} // verus!
