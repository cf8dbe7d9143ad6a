use vstd::prelude::*;
use crate::session::{Forker, SelectPlan};

verus! {

/// Idempotence of create-or-select. A state in which an identity's own fork
/// is active — the state every successful create-or-select for that
/// identity leaves behind, whether it provisioned or selected — plans the
/// next create-or-select for the same identity as a no-op: no second
/// provision, no re-selection.
pub proof fn lemma_create_or_select_idempotent(
    f: Forker,
    k: (Seq<char>, Option<u64>),
    h: u64,
)
    requires
        f.wf(),
        f.active == Some(h),
        f.key_at(h as int) == k,
    ensures
        f.plan_spec(k) == SelectPlan::AlreadyActive,
{
}

/// A session provisions at most one snapshot per identity: once a fork
/// carries an identity key, no later create-or-select for that key ever
/// plans a provision again — it finds the registered fork and at most
/// re-selects it.
pub proof fn lemma_at_most_one_provision(f: Forker, k: (Seq<char>, Option<u64>))
    requires
        f.wf(),
        f.contains_key(k),
    ensures
        f.plan_spec(k) != SelectPlan::Provision,
{
}

/// Provisioning a fork for a new identity never re-resolves an existing
/// one: every identity registered before keeps exactly the handle it had,
/// so the forks already created — and the state committed to them — stay
/// reachable unchanged.
pub proof fn lemma_provision_preserves_resolution(
    before: Forker,
    after: Forker,
    k: (Seq<char>, Option<u64>),
)
    requires
        before.wf(),
        after.wf(),
        after.num_forks() == before.num_forks() + 1,
        forall|i: int|
            0 <= i < before.num_forks() ==> after.key_at(i) == before.key_at(i),
        before.contains_key(k),
    ensures
        after.contains_key(k),
        after.handle_for(k) == before.handle_for(k),
{
    before.registry.lemma_resolved_key(k);
    let i = before.handle_for(k);
    assert(after.key_at(i) == k);
    after.registry.lemma_handle_unique(k, i);
    before.registry.lemma_handle_unique(k, i);
}

/// Switching which fork is active never changes how identities resolve: two
/// session states over the same registry resolve every identity alike.
/// Selecting fork A, then fork B, then fork A again therefore reaches the
/// same handle — and hence the same snapshot — as the first selection of A.
pub proof fn lemma_resolution_unaffected_by_switching(
    a: Forker,
    b: Forker,
    k: (Seq<char>, Option<u64>),
)
    requires
        a.wf(),
        b.wf(),
        a.registry == b.registry,
    ensures
        a.contains_key(k) == b.contains_key(k),
        a.contains_key(k) ==> a.handle_for(k) == b.handle_for(k),
{
}

} // verus!
