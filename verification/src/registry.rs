use vstd::prelude::*;
use crate::identity::ForkIdentity;

verus! {

/// The fork registry: every fork created during the session, in order of
/// creation. A fork's handle is its position in this list, so handles are
/// unique per fork and never recycled; entries are never removed. Lookups
/// go by the fork's identity key.
pub struct ForkRegistry {
    pub entries: Vec<ForkIdentity>,
}

impl ForkRegistry {
    /// How many forks have been registered.
    pub open spec fn num_forks(self) -> int {
        self.entries@.len() as int
    }

    /// The identity key registered at a handle.
    pub open spec fn key_at(self, i: int) -> (Seq<char>, Option<u64>) {
        self.entries@[i].key()
    }

    /// Whether some fork has been registered under this key.
    pub open spec fn contains_key(self, k: (Seq<char>, Option<u64>)) -> bool {
        exists|i: int| 0 <= i < self.num_forks() && self.key_at(i) == k
    }

    /// The handle a registered key resolves to. In a well-formed registry it
    /// is the one position holding that key.
    pub open spec fn handle_for(self, k: (Seq<char>, Option<u64>)) -> int {
        choose|i: int| 0 <= i < self.num_forks() && self.key_at(i) == k
    }

    /// Well-formed: no identity key is registered twice, so no key resolves
    /// to two different handles.
    pub open spec fn wf(self) -> bool {
        forall|i: int, j: int|
            0 <= i < j < self.num_forks() ==> self.key_at(i) != self.key_at(j)
    }

    /// A registered key resolves to a handle in range that holds it.
    pub proof fn lemma_resolved_key(self, k: (Seq<char>, Option<u64>))
        requires
            self.contains_key(k),
        ensures
            0 <= self.handle_for(k) < self.num_forks(),
            self.key_at(self.handle_for(k)) == k,
    {
    }

    /// In a well-formed registry, a key found at position `i` resolves to
    /// exactly `i`: resolution is unique.
    pub proof fn lemma_handle_unique(self, k: (Seq<char>, Option<u64>), i: int)
        requires
            self.wf(),
            0 <= i < self.num_forks(),
            self.key_at(i) == k,
        ensures
            self.contains_key(k),
            self.handle_for(k) == i,
    {
        assert(self.contains_key(k));
        self.lemma_resolved_key(k);
        let j = self.handle_for(k);
        if i < j {
            assert(self.key_at(i) != self.key_at(j));
        } else if j < i {
            assert(self.key_at(j) != self.key_at(i));
        }
    }

    /// A fresh, empty registry.
    pub fn new() -> (r: ForkRegistry)
        ensures
            r.wf(),
            r.num_forks() == 0,
    {
        ForkRegistry { entries: Vec::new() }
    }

    /// Looks an identity up: the handle it was registered under, or `None`
    /// if no fork of that identity exists yet.
    pub fn resolve(&self, identity: &ForkIdentity) -> (r: Option<u64>)
        requires
            self.wf(),
        ensures
            (match r {
                Some(h) => {
                    &&& self.contains_key(identity.key())
                    &&& self.handle_for(identity.key()) == h as int
                    &&& (h as int) < self.num_forks()
                },
                None => !self.contains_key(identity.key()),
            }),
    {
        let ghost k = identity.key();
        let n = self.entries.len();
        let mut i: usize = 0;
        while i < n
            invariant
                n == self.num_forks(),
                i <= n,
                self.wf(),
                forall|j: int| 0 <= j < i ==> self.key_at(j) != k,
                k == identity.key(),
            decreases n - i,
        {
            if self.entries[i].same_identity(identity) {
                proof {
                    self.lemma_handle_unique(k, i as int);
                }
                return Some(i as u64);
            }
            i += 1;
        }
        proof {
            assert(!self.contains_key(k));
        }
        None
    }

    /// Registers a new fork under an identity not seen before — callers
    /// consult `resolve` first, which is the idempotency guard — and hands
    /// back its freshly minted handle. Every earlier entry is untouched.
    pub fn register(&mut self, identity: ForkIdentity) -> (handle: u64)
        requires
            old(self).wf(),
            !old(self).contains_key(identity.key()),
        ensures
            final(self).wf(),
            handle as int == old(self).num_forks(),
            final(self).num_forks() == old(self).num_forks() + 1,
            forall|i: int|
                0 <= i < old(self).num_forks() ==> final(self).key_at(i) == old(self).key_at(i),
            final(self).key_at(handle as int) == identity.key(),
            final(self).contains_key(identity.key()),
            final(self).handle_for(identity.key()) == handle as int,
    {
        let ghost k = identity.key();
        let handle = self.entries.len() as u64;
        self.entries.push(identity);
        proof {
            let old_n = old(self).num_forks();
            assert forall|i: int| 0 <= i < old_n implies self.key_at(i) == old(self).key_at(
                i,
            ) by {
                assert(self.entries@[i] == old(self).entries@[i]);
            }
            assert(self.entries@[old_n] == identity);
            assert forall|i: int, j: int|
                0 <= i < j < self.num_forks() implies self.key_at(i) != self.key_at(j) by {
                if j < old_n {
                    assert(old(self).key_at(i) != old(self).key_at(j));
                } else {
                    assert(self.key_at(j) == k);
                    if self.key_at(i) == k {
                        assert(old(self).key_at(i) == k);
                        assert(old(self).contains_key(k));
                    }
                }
            }
            self.lemma_handle_unique(k, handle as int);
        }
        handle
    }
}

} // verus!
