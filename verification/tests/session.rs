use forker::identity::ForkIdentity;
use forker::session::{Forker, SelectPlan};

fn mk_id(endpoint: &str, height: Option<u64>) -> ForkIdentity {
    ForkIdentity { source_endpoint: endpoint.to_owned(), pinned_height: height }
}

#[test]
fn fresh_session_plans_provision() {
    let f = Forker::new();
    assert!(f.active_fork().is_none());
    let plan = f.plan_create_or_select(&mk_id("endpoint-x", Some(100)));
    assert_eq!(plan, SelectPlan::Provision);
}

#[test]
fn create_or_select_is_idempotent() {
    let mut f = Forker::new();
    let id = mk_id("endpoint-x", Some(100));
    let mut provisions: usize = 0;

    // First create-or-select: the identity is unknown, so one provision.
    match f.plan_create_or_select(&id) {
        SelectPlan::Provision => {
            provisions += 1;
            let handle = f.note_provisioned(id.duplicate());
            assert_eq!(handle, 0);
        }
        other => panic!("first plan should provision, got {:?}", other),
    }
    assert_eq!(f.active_fork(), Some(0));

    // Second create-or-select, no intervening switch: a no-op, no provision,
    // no re-selection.
    match f.plan_create_or_select(&id) {
        SelectPlan::AlreadyActive => {}
        other => panic!("second plan should be a no-op, got {:?}", other),
    }
    assert_eq!(provisions, 1);
    assert_eq!(f.active_fork(), Some(0));
}

#[test]
fn latest_is_distinct_from_pinned_height() {
    let mut f = Forker::new();
    let latest = mk_id("endpoint-x", None);
    let pinned = mk_id("endpoint-x", Some(100));
    assert!(!latest.same_identity(&pinned));

    assert_eq!(f.plan_create_or_select(&latest), SelectPlan::Provision);
    let h_latest = f.note_provisioned(latest.duplicate());

    // The pinned identity is still unknown: it must get its own fork.
    assert_eq!(f.plan_create_or_select(&pinned), SelectPlan::Provision);
    let h_pinned = f.note_provisioned(pinned.duplicate());

    assert_ne!(h_latest, h_pinned);
    assert_eq!(f.plan_create_or_select(&latest), SelectPlan::Select { handle: h_latest });
    assert_eq!(f.plan_create_or_select(&pinned), SelectPlan::AlreadyActive);
}

#[test]
fn switching_selects_existing_fork() {
    let mut f = Forker::new();
    let a = mk_id("endpoint-x", Some(100));
    let b = mk_id("endpoint-y", Some(200));
    let ha = f.note_provisioned(a.duplicate());
    let hb = f.note_provisioned(b.duplicate());
    assert_eq!(f.active_fork(), Some(hb));

    // Fork A exists but is not active: the plan is a re-selection, not a
    // provision.
    assert_eq!(f.plan_create_or_select(&a), SelectPlan::Select { handle: ha });
    f.note_selected(ha);
    assert_eq!(f.active_fork(), Some(ha));
    assert_eq!(f.plan_create_or_select(&a), SelectPlan::AlreadyActive);
}

#[test]
fn resolution_survives_switching() {
    let mut f = Forker::new();
    let a = mk_id("endpoint-x", Some(100));
    let b = mk_id("endpoint-y", Some(200));
    let ha = f.note_provisioned(a.duplicate());
    let hb = f.note_provisioned(b.duplicate());

    // A, then B, then A again: every selection of A resolves to the same
    // handle as the first.
    assert_eq!(f.plan_create_or_select(&a), SelectPlan::Select { handle: ha });
    f.note_selected(ha);
    assert_eq!(f.plan_create_or_select(&b), SelectPlan::Select { handle: hb });
    f.note_selected(hb);
    assert_eq!(f.plan_create_or_select(&a), SelectPlan::Select { handle: ha });
    f.note_selected(ha);
    assert_eq!(f.active_fork(), Some(ha));
}
