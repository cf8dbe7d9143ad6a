use vstd::prelude::*;
use crate::env::{build_environment, ExecutionEnvironment, ADDRESS_LEN};
use crate::identity::ForkIdentity;
use crate::registry::ForkRegistry;
use crate::result::ForkCallError;
use crate::value::U256;

verus! {

/// What a create-or-select has to do next, decided from the session state
/// alone. The engine work itself — materializing a snapshot, activating a
/// handle — happens outside the session and is reported back through
/// `note_provisioned` and `note_selected`.
#[derive(Clone, Copy, Debug, PartialEq, Eq, Structural)]
pub enum SelectPlan {
    /// The identity resolves to the fork that is already active: nothing to
    /// do, no re-selection, no configuration churn.
    AlreadyActive,
    /// The identity resolves to an existing fork that is not active: ask the
    /// engine to activate `handle`.
    Select { handle: u64 },
    /// The identity is unknown: ask the provisioner to materialize a new
    /// snapshot for it.
    Provision,
}

/// A fork session: the registry of every fork created so far, plus the
/// marker of which fork, if any, is active in the execution engine. At most
/// one fork is active at a time, and every call or write the session
/// dispatches runs against the active one.
pub struct Forker {
    pub registry: ForkRegistry,
    pub active: Option<u64>,
}

impl Forker {
    /// How many forks this session has registered.
    pub open spec fn num_forks(self) -> int {
        self.registry.num_forks()
    }

    /// The identity key of the fork behind a handle.
    pub open spec fn key_at(self, i: int) -> (Seq<char>, Option<u64>) {
        self.registry.key_at(i)
    }

    /// Whether some fork of this session carries this identity key.
    pub open spec fn contains_key(self, k: (Seq<char>, Option<u64>)) -> bool {
        self.registry.contains_key(k)
    }

    /// The handle a registered identity key resolves to.
    pub open spec fn handle_for(self, k: (Seq<char>, Option<u64>)) -> int {
        self.registry.handle_for(k)
    }

    /// Whether the currently active fork is the one this key names.
    pub open spec fn is_active_key(self, k: (Seq<char>, Option<u64>)) -> bool {
        self.active matches Some(h) && self.key_at(h as int) == k
    }

    /// Well-formed: the registry holds no identity twice, and the active
    /// marker, when set, points at a registered fork.
    pub open spec fn wf(self) -> bool {
        &&& self.registry.wf()
        &&& (self.active matches Some(h) ==> (h as int) < self.num_forks())
    }

    /// The decision create-or-select makes for an identity key: a no-op when
    /// that fork is already active, a re-selection when it exists but is not
    /// active, and a provision when no such fork exists yet.
    pub open spec fn plan_spec(self, k: (Seq<char>, Option<u64>)) -> SelectPlan {
        if self.is_active_key(k) {
            SelectPlan::AlreadyActive
        } else if self.contains_key(k) {
            SelectPlan::Select { handle: self.handle_for(k) as u64 }
        } else {
            SelectPlan::Provision
        }
    }

    /// A fresh session: no forks registered, none active.
    pub fn new() -> (r: Forker)
        ensures
            r.wf(),
            r.num_forks() == 0,
            r.active is None,
    {
        Forker { registry: ForkRegistry::new(), active: None }
    }

    /// The handle of the currently active fork, if any.
    pub fn active_fork(&self) -> (r: Option<u64>)
        ensures
            r == self.active,
    {
        self.active
    }

    /// Decides what create-or-select must do for this identity in the
    /// current state. The session itself is untouched; the caller carries
    /// out the plan against the provisioner and the engine and reports
    /// success back through `note_provisioned` or `note_selected`.
    pub fn plan_create_or_select(&self, identity: &ForkIdentity) -> (r: SelectPlan)
        requires
            self.wf(),
        ensures
            r == self.plan_spec(identity.key()),
    {
        let ghost k = identity.key();
        match self.registry.resolve(identity) {
            Some(handle) => {
                proof {
                    self.registry.lemma_resolved_key(k);
                }
                let already_active = match self.active {
                    Some(a) => a == handle,
                    None => false,
                };
                if already_active {
                    SelectPlan::AlreadyActive
                } else {
                    proof {
                        match self.active {
                            Some(a) => {
                                if self.key_at(a as int) == k {
                                    self.registry.lemma_handle_unique(k, a as int);
                                }
                            },
                            None => {},
                        }
                    }
                    SelectPlan::Select { handle }
                }
            },
            None => {
                proof {
                    match self.active {
                        Some(a) => {
                            if self.key_at(a as int) == k && (a as int) < self.num_forks() {
                                assert(self.contains_key(k));
                            }
                        },
                        None => {},
                    }
                }
                SelectPlan::Provision
            },
        }
    }

    /// Records that the engine activated an existing fork. The registry is
    /// untouched: switching forks neither adds nor loses a snapshot.
    pub fn note_selected(&mut self, handle: u64)
        requires
            old(self).wf(),
            (handle as int) < old(self).num_forks(),
        ensures
            final(self).wf(),
            final(self).registry == old(self).registry,
            final(self).active == Some(handle),
            final(self).plan_spec(old(self).key_at(handle as int)) is AlreadyActive,
    {
        self.active = Some(handle);
    }

    /// Records that the provisioner materialized a snapshot for a new
    /// identity and that the engine activated it: the identity is registered
    /// under a fresh handle, every earlier entry is untouched, and the new
    /// fork becomes the active one. On a failed provision nothing is
    /// recorded, so the registry and the active marker are left exactly as
    /// they were.
    pub fn note_provisioned(&mut self, identity: ForkIdentity) -> (handle: u64)
        requires
            old(self).wf(),
            !old(self).contains_key(identity.key()),
        ensures
            final(self).wf(),
            handle as int == old(self).num_forks(),
            final(self).num_forks() == old(self).num_forks() + 1,
            forall|i: int|
                0 <= i < old(self).num_forks() ==> final(self).key_at(i) == old(self).key_at(i),
            final(self).key_at(handle as int) == identity.key(),
            final(self).contains_key(identity.key()),
            final(self).handle_for(identity.key()) == handle as int,
            final(self).active == Some(handle),
            final(self).plan_spec(identity.key()) is AlreadyActive,
    {
        let ghost k = identity.key();
        let handle = self.registry.register(identity);
        self.active = Some(handle);
        handle
    }

    /// Dispatches a non-committing read: both addresses must be exactly 20
    /// bytes — else the call fails with `InvalidAddress` and never reaches
    /// the engine — and the environment carries the calldata unchanged, no
    /// attached value, and `committing == false`, so state changes made
    /// during execution are discarded.
    pub fn call(&self, from: &[u8], to: &[u8], calldata: &[u8]) -> (r: Result<
        ExecutionEnvironment,
        ForkCallError,
    >)
        ensures
            r is Ok <==> (from@.len() == ADDRESS_LEN && to@.len() == ADDRESS_LEN),
            r matches Ok(env) ==> {
                &&& env.wf()
                &&& env.caller@ == from@
                &&& env.callee@ == to@
                &&& env.payload@ == calldata@
                &&& env.value.as_nat() == 0
                &&& env.committing == false
            },
            r matches Err(e) ==> e is InvalidAddress,
    {
        build_environment(from, to, calldata, U256::zero(), false)
    }

    /// Dispatches a committing write: the same address validation as `call`,
    /// the attached value carried through unchanged, and
    /// `committing == true`, so state changes persist in the active fork's
    /// snapshot and stay visible to later calls against that fork.
    pub fn write(&self, from: &[u8], to: &[u8], calldata: &[u8], value: U256) -> (r: Result<
        ExecutionEnvironment,
        ForkCallError,
    >)
        ensures
            r is Ok <==> (from@.len() == ADDRESS_LEN && to@.len() == ADDRESS_LEN),
            r matches Ok(env) ==> {
                &&& env.wf()
                &&& env.caller@ == from@
                &&& env.callee@ == to@
                &&& env.payload@ == calldata@
                &&& env.value == value
                &&& env.committing == true
            },
            r matches Err(e) ==> e is InvalidAddress,
    {
        build_environment(from, to, calldata, value, true)
    }
}

} // verus!
