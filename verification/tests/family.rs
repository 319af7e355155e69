use hydra_umc_twin::contract::SyncReadiness;
use hydra_umc_twin::family::{
    all_present, all_ready, assess_family_sync, check_family_status, expected_children,
    FamilySyncOutcome, EXPECTED_CHILDREN, EXPECTED_CHILD_COUNT,
};
use hydra_umc_twin::manifest::{ChildManifest, MANIFEST_FILE};

/// The manifests a workspace yields when the listed children, and only
/// they, are checked out with the given maturity (version 0.0.1, role library).
fn workspace(checked_out: &[(&str, &str)]) -> Vec<Option<ChildManifest>> {
    EXPECTED_CHILDREN
        .iter()
        .map(|&name| {
            checked_out
                .iter()
                .find(|(repo, _)| *repo == name)
                .map(|(repo, maturity)| ChildManifest {
                    name: repo.to_string(),
                    version: "0.0.1".to_string(),
                    maturity: maturity.to_string(),
                    role: "library".to_string(),
                })
        })
        .collect()
}

#[test]
fn all_children_present() {
    let all: Vec<(&str, &str)> = EXPECTED_CHILDREN.iter().map(|&n| (n, "functional")).collect();
    let statuses = check_family_status(workspace(&all));
    assert_eq!(statuses.len(), 3);
    assert!(statuses.iter().all(|s| s.is_present()));
}

#[test]
fn some_children_missing() {
    let statuses = check_family_status(workspace(&[("HYDRA-UMC-PHYSICS-REPLICA", "functional")]));
    let present: Vec<&str> = statuses
        .iter()
        .filter(|s| s.is_present())
        .map(|s| s.name.as_str())
        .collect();
    assert_eq!(present, vec!["HYDRA-UMC-PHYSICS-REPLICA"]);
}

#[test]
fn none_present_on_empty_workspace() {
    let statuses = check_family_status(workspace(&[]));
    assert!(statuses.iter().all(|s| !s.is_present()));
}

#[test]
fn reports_real_maturity_from_manifest() {
    let statuses = check_family_status(workspace(&[("HYDRA-UMC-HIL-BRIDGE", "scaffolding")]));
    let hil = statuses
        .iter()
        .find(|s| s.name == "HYDRA-UMC-HIL-BRIDGE")
        .unwrap();
    assert_eq!(hil.manifest.as_ref().unwrap().maturity, "scaffolding");
}

#[test]
fn sync_outcome_is_missing_for_an_uncheckedout_child() {
    let statuses = assess_family_sync(workspace(&[]));
    assert!(statuses
        .iter()
        .all(|s| s.outcome == FamilySyncOutcome::Missing));
    assert!(statuses.iter().all(|s| !s.outcome.is_ready()));
}

#[test]
fn sync_outcome_is_ready_for_a_functional_child_at_a_compatible_version() {
    let statuses =
        assess_family_sync(workspace(&[("HYDRA-UMC-PHYSICS-REPLICA", "functional")]));
    let replica = statuses
        .iter()
        .find(|s| s.name == "HYDRA-UMC-PHYSICS-REPLICA")
        .unwrap();
    assert!(replica.outcome.is_ready());
}

#[test]
fn sync_outcome_rejects_a_scaffolding_child_via_the_real_contract() {
    let statuses =
        assess_family_sync(workspace(&[("HYDRA-UMC-SYNTHETIC-DATA-GEN", "scaffolding")]));
    let gen = statuses
        .iter()
        .find(|s| s.name == "HYDRA-UMC-SYNTHETIC-DATA-GEN")
        .unwrap();
    assert!(!gen.outcome.is_ready());
    match &gen.outcome {
        FamilySyncOutcome::Assessed(SyncReadiness::ImmatureMaturity { .. }) => {}
        other => panic!("expected Assessed(ImmatureMaturity), got {other:?}"),
    }
}

// ---------------------------------------------------------------------------
// Further cases
// ---------------------------------------------------------------------------

#[test]
fn expected_children_are_listed_in_order() {
    let names = expected_children();
    assert_eq!(names.len(), EXPECTED_CHILD_COUNT);
    assert_eq!(names, EXPECTED_CHILDREN.iter().map(|s| s.to_string()).collect::<Vec<_>>());
    assert_eq!(MANIFEST_FILE, "hydra-umc.project.json");
}

#[test]
fn status_names_follow_the_expected_order_and_keep_manifests() {
    let ws = workspace(&[("HYDRA-UMC-HIL-BRIDGE", "established")]);
    let statuses = check_family_status(ws.clone());
    for (i, s) in statuses.iter().enumerate() {
        assert_eq!(s.name, EXPECTED_CHILDREN[i]);
        assert_eq!(s.manifest, ws[i]);
    }
}

#[test]
fn sync_missing_exactly_where_status_is_absent() {
    let ws = workspace(&[
        ("HYDRA-UMC-PHYSICS-REPLICA", "functional"),
        ("HYDRA-UMC-SYNTHETIC-DATA-GEN", "andamiaje"),
    ]);
    let statuses = check_family_status(ws.clone());
    let sync = assess_family_sync(ws);
    for (s, y) in statuses.iter().zip(sync.iter()) {
        assert_eq!(s.name, y.name);
        assert_eq!(!s.is_present(), y.outcome == FamilySyncOutcome::Missing);
        if y.outcome.is_ready() {
            assert!(s.is_present());
        }
    }
    assert!(matches!(
        sync[2].outcome,
        FamilySyncOutcome::Assessed(SyncReadiness::UnparseableManifest { .. })
    ));
}

#[test]
fn all_ready_and_all_present_summaries() {
    let all: Vec<(&str, &str)> = EXPECTED_CHILDREN.iter().map(|&n| (n, "established")).collect();
    let ws = workspace(&all);
    assert!(all_present(&check_family_status(ws.clone())));
    assert!(all_ready(&assess_family_sync(ws)));

    let mixed = workspace(&[
        ("HYDRA-UMC-PHYSICS-REPLICA", "functional"),
        ("HYDRA-UMC-HIL-BRIDGE", "scaffolding"),
        ("HYDRA-UMC-SYNTHETIC-DATA-GEN", "functional"),
    ]);
    assert!(all_present(&check_family_status(mixed.clone())));
    assert!(!all_ready(&assess_family_sync(mixed)));

    let partial = workspace(&[("HYDRA-UMC-PHYSICS-REPLICA", "functional")]);
    assert!(!all_present(&check_family_status(partial.clone())));
    assert!(!all_ready(&assess_family_sync(partial)));
}
