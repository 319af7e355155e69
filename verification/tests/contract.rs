use hydra_umc_twin::contract::{
    assess, parse_major, MaturityLevel, SyncReadiness, SyncSnapshot, MAX_COMPATIBLE_MAJOR,
    MIN_MATURITY,
};
use hydra_umc_twin::manifest::ChildManifest;

fn manifest(name: &str, version: &str, maturity: &str) -> ChildManifest {
    ChildManifest {
        name: name.to_string(),
        version: version.to_string(),
        maturity: maturity.to_string(),
        role: "library".to_string(),
    }
}

#[test]
fn functional_child_at_compatible_major_is_ready() {
    let m = manifest("HYDRA-UMC-PHYSICS-REPLICA", "0.0.5", "functional");
    let outcome = assess(&m);
    assert!(outcome.is_ready());
    assert_eq!(
        outcome,
        SyncReadiness::Ready(SyncSnapshot {
            child: "HYDRA-UMC-PHYSICS-REPLICA".to_string(),
            version: "0.0.5".to_string(),
            maturity: "functional".to_string(),
        })
    );
}

#[test]
fn established_child_is_also_ready() {
    let m = manifest("HYDRA-UMC-HIL-BRIDGE", "0.1.2", "established");
    assert!(assess(&m).is_ready());
}

#[test]
fn scaffolding_child_is_rejected_as_immature() {
    let m = manifest("HYDRA-UMC-SYNTHETIC-DATA-GEN", "0.0.1", "scaffolding");
    let outcome = assess(&m);
    assert!(!outcome.is_ready());
    match outcome {
        SyncReadiness::ImmatureMaturity { reason } => {
            assert!(reason.contains("HYDRA-UMC-SYNTHETIC-DATA-GEN"));
        }
        other => panic!("expected ImmatureMaturity, got {other:?}"),
    }
}

#[test]
fn major_version_at_the_compatibility_ceiling_is_ready() {
    let m = manifest("HYDRA-UMC-PHYSICS-REPLICA", "0.9.9", "functional");
    assert!(assess(&m).is_ready());
}

#[test]
fn major_version_past_the_compatibility_ceiling_is_rejected() {
    let m = manifest("HYDRA-UMC-PHYSICS-REPLICA", "1.0.0", "functional");
    let outcome = assess(&m);
    assert!(!outcome.is_ready());
    match outcome {
        SyncReadiness::IncompatibleVersion { reason } => {
            assert!(reason.contains("major version 1"));
        }
        other => panic!("expected IncompatibleVersion, got {other:?}"),
    }
}

#[test]
fn immaturity_is_checked_before_version_compatibility() {
    let m = manifest("HYDRA-UMC-PHYSICS-REPLICA", "3.0.0", "scaffolding");
    match assess(&m) {
        SyncReadiness::ImmatureMaturity { .. } => {}
        other => panic!("expected ImmatureMaturity to win, got {other:?}"),
    }
}

#[test]
fn unrecognized_maturity_string_is_rejected_honestly() {
    let m = manifest("HYDRA-UMC-PHYSICS-REPLICA", "0.0.1", "andamiaje");
    match assess(&m) {
        SyncReadiness::UnparseableManifest { reason } => {
            assert!(reason.contains("andamiaje"));
        }
        other => panic!("expected UnparseableManifest, got {other:?}"),
    }
}

#[test]
fn unparseable_version_string_is_rejected_honestly() {
    let m = manifest("HYDRA-UMC-PHYSICS-REPLICA", "not-a-version", "functional");
    match assess(&m) {
        SyncReadiness::UnparseableManifest { reason } => {
            assert!(reason.contains("not-a-version"));
        }
        other => panic!("expected UnparseableManifest, got {other:?}"),
    }
}

#[test]
fn maturity_level_ordering_is_scaffolding_lowest_established_highest() {
    assert!(MaturityLevel::Scaffolding < MaturityLevel::Functional);
    assert!(MaturityLevel::Functional < MaturityLevel::Established);
}

// ---------------------------------------------------------------------------
// Further cases
// ---------------------------------------------------------------------------

#[test]
fn maturity_words_parse_exactly() {
    assert_eq!(MaturityLevel::parse("scaffolding"), Some(MaturityLevel::Scaffolding));
    assert_eq!(MaturityLevel::parse("functional"), Some(MaturityLevel::Functional));
    assert_eq!(MaturityLevel::parse("established"), Some(MaturityLevel::Established));
    assert_eq!(MaturityLevel::parse("Functional"), None);
    assert_eq!(MaturityLevel::parse(""), None);
    assert_eq!(MaturityLevel::parse("functional "), None);
}

#[test]
fn maturity_rank_follows_declaration_order() {
    assert_eq!(MaturityLevel::Scaffolding.rank(), 0);
    assert_eq!(MaturityLevel::Functional.rank(), 1);
    assert_eq!(MaturityLevel::Established.rank(), 2);
    assert!(MaturityLevel::Scaffolding.rank() < MIN_MATURITY.rank());
    assert_eq!(MIN_MATURITY, MaturityLevel::Functional);
    assert_eq!(MaturityLevel::Scaffolding.name(), format!("{:?}", MaturityLevel::Scaffolding));
    assert_eq!(MaturityLevel::Established.name(), format!("{:?}", MaturityLevel::Established));
}

#[test]
fn major_is_read_from_a_complete_numeric_version() {
    assert_eq!(parse_major("0.0.5"), Some(0));
    assert_eq!(parse_major("12.3.4"), Some(12));
    assert_eq!(parse_major("+2.0.0"), Some(2));
    assert_eq!(parse_major("4294967295.0.0"), Some(4294967295));
    assert_eq!(parse_major("4294967296.0.0"), None);
    assert_eq!(parse_major("1"), None);
    assert_eq!(parse_major("1.0"), None);
    assert_eq!(parse_major("1.0.0.0"), None);
    assert_eq!(parse_major("1.x.0"), None);
    assert_eq!(parse_major("1.0."), None);
    assert_eq!(parse_major(".0.0"), None);
    assert_eq!(parse_major("-1.0.0"), None);
    assert_eq!(parse_major(""), None);
}

#[test]
fn incomplete_version_is_unparseable_not_assessed_by_first_component() {
    let m = manifest("HYDRA-UMC-PHYSICS-REPLICA", "0.1", "functional");
    match assess(&m) {
        SyncReadiness::UnparseableManifest { reason } => {
            assert_eq!(
                reason,
                "HYDRA-UMC-PHYSICS-REPLICA reports an unparseable version \"0.1\""
            );
        }
        other => panic!("expected UnparseableManifest, got {other:?}"),
    }
}

#[test]
fn reasons_are_spelled_out_in_full() {
    let immature = assess(&manifest("A", "0.0.1", "scaffolding"));
    assert_eq!(
        immature,
        SyncReadiness::ImmatureMaturity {
            reason: "A maturity is Scaffolding, below the minimum Functional required for state sync"
                .to_string()
        }
    );
    let unknown = assess(&manifest("B", "0.0.1", "andamiaje"));
    assert_eq!(
        unknown,
        SyncReadiness::UnparseableManifest {
            reason: "B reports unrecognized maturity \"andamiaje\" - refusing to sync against an unknown contract"
                .to_string()
        }
    );
    let incompatible = assess(&manifest("C", "10.2.3", "established"));
    assert_eq!(MAX_COMPATIBLE_MAJOR, 0);
    assert_eq!(
        incompatible,
        SyncReadiness::IncompatibleVersion {
            reason: "C reports major version 10 - this Twin's sync contract is only verified up to major 0 (incompatible simulator version)"
                .to_string()
        }
    );
}

#[test]
fn role_does_not_affect_the_verdict() {
    let mut a = manifest("A", "0.2.0", "functional");
    let mut b = a.clone();
    a.role = "library".to_string();
    b.role = "tool".to_string();
    assert_eq!(assess(&a), assess(&b));
}

#[test]
fn escaped_text_is_quoted_like_debug_output() {
    let m = manifest("D", "0.0.1", "we\"ird\n");
    match assess(&m) {
        SyncReadiness::UnparseableManifest { reason } => {
            assert!(reason.contains(&format!("{:?}", "we\"ird\n")));
        }
        other => panic!("expected UnparseableManifest, got {other:?}"),
    }
}

#[test]
fn plain_words_are_quoted_verbatim_in_reasons() {
    match assess(&manifest("E", "not-a-version", "functional")) {
        SyncReadiness::UnparseableManifest { reason } => {
            assert_eq!(reason, "E reports an unparseable version \"not-a-version\"");
        }
        other => panic!("expected UnparseableManifest, got {other:?}"),
    }
}
