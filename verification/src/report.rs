//! The text the `family-status` and `family-sync` subcommands print, and the
//! exit code each ends with: `0` when every child is present (respectively
//! sync-ready), `1` otherwise.

use vstd::prelude::*;

use crate::contract::{ReadinessView, SyncReadiness};
use crate::family::{
    all_present,
    all_ready,
    manifest_view,
    outcome_ready,
    ChildStatus,
    FamilySyncOutcome,
    FamilySyncStatus,
    OutcomeView,
};
use crate::manifest::ManifestView;
use crate::text::{decimal, push_decimal};

verus! {

/// Every listed child is checked out.
pub open spec fn every_present(statuses: Seq<ChildStatus>) -> bool {
    forall|i: int| 0 <= i < statuses.len() ==> (#[trigger] statuses[i]).manifest is Some
}

/// Every listed child is sync-ready.
pub open spec fn every_ready(statuses: Seq<FamilySyncStatus>) -> bool {
    forall|i: int| 0 <= i < statuses.len() ==> outcome_ready((#[trigger] statuses[i]).outcome@)
}

/// First line of the `family-status` report.
pub open spec fn status_header_text(workspace: Seq<char>) -> Seq<char> {
    "Digital Twin family status (workspace: "@ + workspace + "):"@
}

/// The `family-status` line for one child.
pub open spec fn status_line_text(
    name: Seq<char>,
    manifest: Option<ManifestView>,
    expected_at: Seq<char>,
) -> Seq<char> {
    match manifest {
        Some(m) => "  "@ + name + ": v"@ + m.version + ", maturity="@ + m.maturity + ", role="@
            + m.role,
        None => "  "@ + name + ": NOT FOUND (expected at "@ + expected_at + ")"@,
    }
}

/// Last line of the `family-status` report.
pub open spec fn status_summary_text(statuses: Seq<ChildStatus>) -> Seq<char> {
    if every_present(statuses) {
        "All "@ + decimal(statuses.len()) + " children present."@
    } else {
        "Some children are missing - see NOT FOUND lines above."@
    }
}

/// First line of the `family-sync` report.
pub open spec fn sync_header_text(workspace: Seq<char>) -> Seq<char> {
    "Digital Twin family sync contract (workspace: "@ + workspace + "):"@
}

/// The `family-sync` line for one child.
pub open spec fn sync_line_text(name: Seq<char>, outcome: OutcomeView) -> Seq<char> {
    "  "@ + name + match outcome {
        OutcomeView::Missing => ": MISSING (not checked out)"@,
        OutcomeView::Assessed(ReadinessView::Ready { child, version, maturity }) => ": READY (v"@
            + version + ", maturity="@ + maturity + ")"@,
        OutcomeView::Assessed(ReadinessView::ImmatureMaturity { reason }) =>
            ": REJECTED (immature) - "@ + reason,
        OutcomeView::Assessed(ReadinessView::IncompatibleVersion { reason }) =>
            ": REJECTED (incompatible version) - "@ + reason,
        OutcomeView::Assessed(ReadinessView::UnparseableManifest { reason }) =>
            ": REJECTED (unparseable manifest) - "@ + reason,
    }
}

/// Last line of the `family-sync` report.
pub open spec fn sync_summary_text(statuses: Seq<FamilySyncStatus>) -> Seq<char> {
    if every_ready(statuses) {
        "All "@ + decimal(statuses.len()) + " children are sync-ready."@
    } else {
        "Not every child is sync-ready - see the lines above."@
    }
}

/// First line of the `family-status` report for `workspace`.
pub fn family_status_header(workspace: &str) -> (r: String)
    ensures
        r@ == status_header_text(workspace@),
{
    let mut out = String::new();
    out.append("Digital Twin family status (workspace: ");
    out.append(workspace);
    out.append("):");
    out
}

/// The report line for one child; `expected_at` is where its checkout was looked for.
pub fn family_status_line(status: &ChildStatus, expected_at: &str) -> (r: String)
    ensures
        r@ == status_line_text(status.name@, manifest_view(status.manifest), expected_at@),
{
    let mut out = String::new();
    out.append("  ");
    out.append(status.name.as_str());
    match &status.manifest {
        Some(m) => {
            out.append(": v");
            out.append(m.version.as_str());
            out.append(", maturity=");
            out.append(m.maturity.as_str());
            out.append(", role=");
            out.append(m.role.as_str());
        },
        None => {
            out.append(": NOT FOUND (expected at ");
            out.append(expected_at);
            out.append(")");
        },
    }
    out
}

/// Closing line of the `family-status` report.
pub fn family_status_summary(statuses: &Vec<ChildStatus>) -> (r: String)
    ensures
        r@ == status_summary_text(statuses@),
        (forall|i: int| 0 <= i < statuses.len() ==> (#[trigger] statuses@[i]).manifest is Some)
            ==> r@ == "All "@ + decimal(statuses.len() as nat) + " children present."@,
        (exists|i: int| 0 <= i < statuses.len() && (#[trigger] statuses@[i]).manifest is None)
            ==> r@ == "Some children are missing - see NOT FOUND lines above."@,
{
    if all_present(statuses) {
        let mut out = String::new();
        out.append("All ");
        push_decimal(&mut out, statuses.len() as u64);
        out.append(" children present.");
        out
    } else {
        String::from_str("Some children are missing - see NOT FOUND lines above.")
    }
}

/// Exit code of `family-status`: `0` when every child is present, else `1`.
pub fn family_status_exit_code(statuses: &Vec<ChildStatus>) -> (r: u8)
    ensures
        r == (if every_present(statuses@) {
            0u8
        } else {
            1u8
        }),
        (r == 0) <==> (forall|i: int|
            0 <= i < statuses.len() ==> (#[trigger] statuses@[i]).manifest is Some),
        (exists|i: int| 0 <= i < statuses.len() && (#[trigger] statuses@[i]).manifest is None)
            ==> r == 1,
{
    if all_present(statuses) {
        0
    } else {
        1
    }
}

/// First line of the `family-sync` report for `workspace`.
pub fn family_sync_header(workspace: &str) -> (r: String)
    ensures
        r@ == sync_header_text(workspace@),
{
    let mut out = String::new();
    out.append("Digital Twin family sync contract (workspace: ");
    out.append(workspace);
    out.append("):");
    out
}

/// The report line for one child's sync outcome.
pub fn family_sync_line(status: &FamilySyncStatus) -> (r: String)
    ensures
        r@ == sync_line_text(status.name@, status.outcome@),
{
    let mut out = String::new();
    out.append("  ");
    out.append(status.name.as_str());
    match &status.outcome {
        FamilySyncOutcome::Missing => {
            out.append(": MISSING (not checked out)");
        },
        FamilySyncOutcome::Assessed(SyncReadiness::Ready(snapshot)) => {
            out.append(": READY (v");
            out.append(snapshot.version.as_str());
            out.append(", maturity=");
            out.append(snapshot.maturity.as_str());
            out.append(")");
        },
        FamilySyncOutcome::Assessed(SyncReadiness::ImmatureMaturity { reason }) => {
            out.append(": REJECTED (immature) - ");
            out.append(reason.as_str());
        },
        FamilySyncOutcome::Assessed(SyncReadiness::IncompatibleVersion { reason }) => {
            out.append(": REJECTED (incompatible version) - ");
            out.append(reason.as_str());
        },
        FamilySyncOutcome::Assessed(SyncReadiness::UnparseableManifest { reason }) => {
            out.append(": REJECTED (unparseable manifest) - ");
            out.append(reason.as_str());
        },
    }
    out
}

/// Closing line of the `family-sync` report.
pub fn family_sync_summary(statuses: &Vec<FamilySyncStatus>) -> (r: String)
    ensures
        r@ == sync_summary_text(statuses@),
        (forall|i: int|
            0 <= i < statuses.len() ==> (#[trigger] statuses@[i]).outcome@ matches OutcomeView::Assessed(
                ReadinessView::Ready { .. },
            )) ==> r@ == "All "@ + decimal(statuses.len() as nat) + " children are sync-ready."@,
        (exists|i: int|
            0 <= i < statuses.len() && !((#[trigger] statuses@[i]).outcome@ matches OutcomeView::Assessed(
                ReadinessView::Ready { .. },
            ))) ==> r@ == "Not every child is sync-ready - see the lines above."@,
{
    if all_ready(statuses) {
        let mut out = String::new();
        out.append("All ");
        push_decimal(&mut out, statuses.len() as u64);
        out.append(" children are sync-ready.");
        out
    } else {
        String::from_str("Not every child is sync-ready - see the lines above.")
    }
}

/// Exit code of `family-sync`: `0` when every child is sync-ready, else `1`.
pub fn family_sync_exit_code(statuses: &Vec<FamilySyncStatus>) -> (r: u8)
    ensures
        r == (if every_ready(statuses@) {
            0u8
        } else {
            1u8
        }),
        (r == 0) <==> (forall|i: int|
            0 <= i < statuses.len() ==> (#[trigger] statuses@[i]).outcome@ matches OutcomeView::Assessed(
                ReadinessView::Ready { .. },
            )),
        (exists|i: int| 0 <= i < statuses.len() && (#[trigger] statuses@[i]).outcome@ is Missing)
            ==> r == 1,
{
    if all_ready(statuses) {
        0
    } else {
        1
    }
}

// ---------------------------------------------------------------------------
// Laws
// ---------------------------------------------------------------------------

/// `family-status` reports success (the "All N children present." line and
/// exit code 0) exactly when every listed child has a manifest; a single
/// absent child turns both into failure.
pub proof fn law_status_success_iff_all_present(statuses: Seq<ChildStatus>, absent: int)
    ensures
        every_present(statuses) <==> (forall|i: int|
            0 <= i < statuses.len() ==> (#[trigger] statuses[i]).manifest is Some),
        0 <= absent < statuses.len() && statuses[absent].manifest is None ==> {
            &&& !every_present(statuses)
            &&& status_summary_text(statuses)
                == "Some children are missing - see NOT FOUND lines above."@
        },
{
}

/// `family-sync` reports success (the "All N children are sync-ready." line
/// and exit code 0) exactly when every listed child was assessed and found
/// ready; a missing child, or a refused one, turns both into failure.
pub proof fn law_sync_success_iff_all_ready(statuses: Seq<FamilySyncStatus>, bad: int)
    ensures
        every_ready(statuses) <==> (forall|i: int|
            0 <= i < statuses.len() ==> (#[trigger] statuses[i]).outcome@ matches OutcomeView::Assessed(
                ReadinessView::Ready { .. },
            )),
        0 <= bad < statuses.len() && !(statuses[bad].outcome@ matches OutcomeView::Assessed(
            ReadinessView::Ready { .. },
        )) ==> {
            &&& !every_ready(statuses)
            &&& sync_summary_text(statuses)
                == "Not every child is sync-ready - see the lines above."@
        },
        0 <= bad < statuses.len() && statuses[bad].outcome@ is Missing ==> !every_ready(statuses),
{
    if 0 <= bad < statuses.len() && !(statuses[bad].outcome@ matches OutcomeView::Assessed(
        ReadinessView::Ready { .. },
    )) {
        assert(!outcome_ready(statuses[bad].outcome@));
    }
}

} // verus!
