//! The family-readiness check of the Digital Twin integration parent: which
//! of its expected children are checked out, what each reports about
//! itself, and which of them the sync contract accepts.
//!
//! Reading each child's manifest from the workspace is done by the caller,
//! in the order of `EXPECTED_CHILDREN`; a child whose manifest could not be
//! read (missing checkout, missing file, malformed manifest) is `None`.

use vstd::prelude::*;

use crate::contract::{assess, spec_assess, sync_eligible, ReadinessView, SyncReadiness};
use crate::manifest::{ChildManifest, ManifestView};

verus! {

/// The children of the Digital Twin family, in the order they are reported.
pub const EXPECTED_CHILDREN: [&'static str; 3] = [
    "HYDRA-UMC-PHYSICS-REPLICA",
    "HYDRA-UMC-HIL-BRIDGE",
    "HYDRA-UMC-SYNTHETIC-DATA-GEN",
];

/// How many children the family has.
pub const EXPECTED_CHILD_COUNT: usize = 3;

/// The name of the `i`-th expected child.
pub open spec fn expected_child(i: int) -> Seq<char> {
    if i == 0 {
        "HYDRA-UMC-PHYSICS-REPLICA"@
    } else if i == 1 {
        "HYDRA-UMC-HIL-BRIDGE"@
    } else {
        "HYDRA-UMC-SYNTHETIC-DATA-GEN"@
    }
}

/// The names of the expected children, in order.
pub fn expected_children() -> (r: Vec<String>)
    ensures
        r.len() == EXPECTED_CHILD_COUNT,
        forall|i: int| 0 <= i < EXPECTED_CHILD_COUNT ==> #[trigger] r@[i]@ == expected_child(i),
{
    let mut r: Vec<String> = Vec::new();
    r.push(String::from_str("HYDRA-UMC-PHYSICS-REPLICA"));
    r.push(String::from_str("HYDRA-UMC-HIL-BRIDGE"));
    r.push(String::from_str("HYDRA-UMC-SYNTHETIC-DATA-GEN"));
    r
}

/// The manifest of an optional record, as text.
pub open spec fn manifest_view(m: Option<ChildManifest>) -> Option<ManifestView> {
    match m {
        Some(x) => Some(x@),
        None => None,
    }
}

/// One expected child and, when it is checked out, its manifest.
#[derive(Debug, Clone, PartialEq)]
pub struct ChildStatus {
    pub name: String,
    pub manifest: Option<ChildManifest>,
}

impl ChildStatus {
    /// Whether the child's manifest was found.
    pub fn is_present(&self) -> (r: bool)
        ensures
            r == self.manifest is Some,
    {
        self.manifest.is_some()
    }
}

/// Pairs every expected child with the manifest read for it.
pub fn check_family_status(manifests: Vec<Option<ChildManifest>>) -> (r: Vec<ChildStatus>)
    requires
        manifests.len() == EXPECTED_CHILD_COUNT,
    ensures
        r.len() == EXPECTED_CHILD_COUNT,
        forall|i: int|
            0 <= i < EXPECTED_CHILD_COUNT ==> {
                &&& #[trigger] r@[i].name@ == expected_child(i)
                &&& r@[i].manifest == manifests@[i]
            },
{
    let names = expected_children();
    let mut out: Vec<ChildStatus> = Vec::new();
    let mut i: usize = 0;
    for m in it: manifests.into_iter()
        invariant
            it.seq() == manifests@,
            manifests.len() == EXPECTED_CHILD_COUNT,
            names.len() == EXPECTED_CHILD_COUNT,
            forall|j: int| 0 <= j < EXPECTED_CHILD_COUNT ==> #[trigger] names@[j]@ == expected_child(j),
            i == it.index(),
            out.len() == i,
            forall|j: int|
                0 <= j < i ==> {
                    &&& #[trigger] out@[j].name@ == expected_child(j)
                    &&& out@[j].manifest == manifests@[j]
                },
    {
        out.push(ChildStatus { name: names[i].clone(), manifest: m });
        i = i + 1;
    }
    out
}

/// A child's sync readiness: missing, or the contract's verdict on its manifest.
#[derive(Debug, Clone, PartialEq)]
pub enum FamilySyncOutcome {
    Missing,
    Assessed(SyncReadiness),
}

/// An outcome with its texts taken as character sequences.
pub enum OutcomeView {
    Missing,
    Assessed(ReadinessView),
}

impl View for FamilySyncOutcome {
    type V = OutcomeView;

    open spec fn view(&self) -> OutcomeView {
        match self {
            FamilySyncOutcome::Missing => OutcomeView::Missing,
            FamilySyncOutcome::Assessed(r) => OutcomeView::Assessed(r@),
        }
    }
}

/// The outcome for a child whose manifest read gave `m`.
pub open spec fn sync_outcome(m: Option<ManifestView>) -> OutcomeView {
    match m {
        None => OutcomeView::Missing,
        Some(v) => OutcomeView::Assessed(spec_assess(v)),
    }
}

/// An outcome that lets the Twin sync with the child.
pub open spec fn outcome_ready(o: OutcomeView) -> bool {
    o matches OutcomeView::Assessed(r) && r is Ready
}

impl FamilySyncOutcome {
    /// Whether the child is present and accepted by the sync contract.
    pub fn is_ready(&self) -> (r: bool)
        ensures
            r == outcome_ready(self@),
    {
        match self {
            FamilySyncOutcome::Assessed(r) => r.is_ready(),
            FamilySyncOutcome::Missing => false,
        }
    }
}

/// One expected child and its sync outcome.
#[derive(Debug, Clone, PartialEq)]
pub struct FamilySyncStatus {
    pub name: String,
    pub outcome: FamilySyncOutcome,
}

/// Every expected child, run through the sync contract when it is checked out.
pub fn assess_family_sync(manifests: Vec<Option<ChildManifest>>) -> (r: Vec<FamilySyncStatus>)
    requires
        manifests.len() == EXPECTED_CHILD_COUNT,
    ensures
        r.len() == EXPECTED_CHILD_COUNT,
        forall|i: int|
            0 <= i < EXPECTED_CHILD_COUNT ==> {
                &&& #[trigger] r@[i].name@ == expected_child(i)
                &&& r@[i].outcome@ == sync_outcome(manifest_view(manifests@[i]))
            },
{
    let ghost ms = manifests@;
    let statuses = check_family_status(manifests);
    let mut out: Vec<FamilySyncStatus> = Vec::new();
    let n = statuses.len();
    let mut i: usize = 0;
    while i < n
        invariant
            i <= n,
            n == statuses.len(),
            statuses.len() == EXPECTED_CHILD_COUNT,
            ms.len() == EXPECTED_CHILD_COUNT,
            forall|j: int|
                0 <= j < EXPECTED_CHILD_COUNT ==> {
                    &&& #[trigger] statuses@[j].name@ == expected_child(j)
                    &&& statuses@[j].manifest == ms[j]
                },
            out.len() == i,
            forall|j: int|
                0 <= j < i ==> {
                    &&& #[trigger] out@[j].name@ == expected_child(j)
                    &&& out@[j].outcome@ == sync_outcome(manifest_view(ms[j]))
                },
        decreases n - i,
    {
        let status = &statuses[i];
        assert(statuses@[i as int].name@ == expected_child(i as int));
        assert(status.manifest == ms[i as int]);
        let outcome = match &status.manifest {
            None => FamilySyncOutcome::Missing,
            Some(m) => FamilySyncOutcome::Assessed(assess(m)),
        };
        out.push(FamilySyncStatus { name: status.name.clone(), outcome });
        assert(out@[i as int].outcome@ == sync_outcome(manifest_view(ms[i as int])));
        i = i + 1;
    }
    out
}

/// Whether every listed child is checked out.
pub fn all_present(statuses: &Vec<ChildStatus>) -> (r: bool)
    ensures
        r == forall|i: int| 0 <= i < statuses.len() ==> (#[trigger] statuses@[i]).manifest is Some,
{
    let n = statuses.len();
    for i in 0..n
        invariant
            n == statuses.len(),
            forall|j: int| 0 <= j < i ==> (#[trigger] statuses@[j]).manifest is Some,
    {
        if !statuses[i].is_present() {
            return false;
        }
    }
    true
}

/// Whether every listed child is sync-ready.
pub fn all_ready(statuses: &Vec<FamilySyncStatus>) -> (r: bool)
    ensures
        r == forall|i: int| 0 <= i < statuses.len() ==> outcome_ready((#[trigger] statuses@[i]).outcome@),
{
    let n = statuses.len();
    for i in 0..n
        invariant
            n == statuses.len(),
            forall|j: int| 0 <= j < i ==> outcome_ready((#[trigger] statuses@[j]).outcome@),
    {
        if !statuses[i].outcome.is_ready() {
            return false;
        }
    }
    true
}

// ---------------------------------------------------------------------------
// Laws
// ---------------------------------------------------------------------------

/// A child is reported missing by the sync check exactly when its manifest
/// was not found, and it is sync-ready exactly when it was found and its
/// manifest clears both gates of the sync contract.
pub proof fn law_sync_outcome_tracks_presence(m: Option<ManifestView>)
    ensures
        (sync_outcome(m) is Missing) <==> (m is None),
        outcome_ready(sync_outcome(m)) <==> (m matches Some(v) && sync_eligible(v)),
{
    if let Some(v) = m {
        crate::contract::law_ready_iff_both_gates(v);
    }
}

/// If every child of a family is sync-ready, every child is present.
pub proof fn law_all_ready_implies_all_present(ms: Seq<Option<ManifestView>>)
    requires
        forall|i: int| 0 <= i < ms.len() ==> outcome_ready(#[trigger] sync_outcome(ms[i])),
    ensures
        forall|i: int| 0 <= i < ms.len() ==> (#[trigger] ms[i]) is Some,
{
    assert forall|i: int| 0 <= i < ms.len() implies (#[trigger] ms[i]) is Some by {
        assert(outcome_ready(sync_outcome(ms[i])));
    }
}

} // verus!
