//! The state-sync contract a child must meet before this Twin syncs state
//! with it. Two gates, both required, checked in this order:
//!   - its maturity must be at least `MIN_MATURITY` (`functional`);
//!   - its version must be a complete numeric `MAJOR.MINOR.PATCH` whose
//!     major does not exceed `MAX_COMPATIBLE_MAJOR`.
//! A child that clears both gets a `SyncSnapshot` of its manifest.

use vstd::prelude::*;

use crate::manifest::{ChildManifest, ManifestView};
use crate::text::{debug_escaped, debug_string, decimal, parse_u32, plain_text, push_decimal, quoted, split_all};
use crate::text::{chars_of, parse_u32_chars, split_chars, str_eq};

verus! {

/// How far along a child reports itself to be, from least to most mature.
#[derive(Debug, Clone, Copy, PartialEq, Eq, PartialOrd, Ord)]
pub enum MaturityLevel {
    Scaffolding,
    Functional,
    Established,
}

/// The minimum maturity required before syncing state with a child.
pub const MIN_MATURITY: MaturityLevel = MaturityLevel::Functional;

/// The highest child major version the sync contract has been verified against.
pub const MAX_COMPATIBLE_MAJOR: u32 = 0;

/// The manifest word for each maturity level.
pub open spec fn maturity_label(level: MaturityLevel) -> Seq<char> {
    match level {
        MaturityLevel::Scaffolding => "scaffolding"@,
        MaturityLevel::Functional => "functional"@,
        MaturityLevel::Established => "established"@,
    }
}

/// The level a manifest word names, if it names one.
pub open spec fn parse_maturity(s: Seq<char>) -> Option<MaturityLevel> {
    if s == "scaffolding"@ {
        Some(MaturityLevel::Scaffolding)
    } else if s == "functional"@ {
        Some(MaturityLevel::Functional)
    } else if s == "established"@ {
        Some(MaturityLevel::Established)
    } else {
        None
    }
}

/// Position of a level in the maturity order (the order of declaration).
pub open spec fn maturity_rank(level: MaturityLevel) -> nat {
    match level {
        MaturityLevel::Scaffolding => 0,
        MaturityLevel::Functional => 1,
        MaturityLevel::Established => 2,
    }
}

/// The name of a level as `{:?}` prints it.
pub open spec fn maturity_name(level: MaturityLevel) -> Seq<char> {
    match level {
        MaturityLevel::Scaffolding => "Scaffolding"@,
        MaturityLevel::Functional => "Functional"@,
        MaturityLevel::Established => "Established"@,
    }
}

impl MaturityLevel {
    /// Reads a manifest's maturity word; anything but the three exact words is `None`.
    pub fn parse(value: &str) -> (r: Option<Self>)
        ensures
            r == parse_maturity(value@),
    {
        if str_eq(value, "scaffolding") {
            Some(MaturityLevel::Scaffolding)
        } else if str_eq(value, "functional") {
            Some(MaturityLevel::Functional)
        } else if str_eq(value, "established") {
            Some(MaturityLevel::Established)
        } else {
            None
        }
    }

    /// Position in the maturity order.
    pub fn rank(&self) -> (r: u8)
        ensures
            r as nat == maturity_rank(*self),
    {
        match self {
            MaturityLevel::Scaffolding => 0,
            MaturityLevel::Functional => 1,
            MaturityLevel::Established => 2,
        }
    }

    /// The level's name, as `{:?}` prints it.
    pub fn name(&self) -> (r: &'static str)
        ensures
            r@ == maturity_name(*self),
    {
        match self {
            MaturityLevel::Scaffolding => "Scaffolding",
            MaturityLevel::Functional => "Functional",
            MaturityLevel::Established => "Established",
        }
    }
}

/// What this Twin would exchange with a sync-ready child.
#[derive(Debug, Clone, PartialEq)]
pub struct SyncSnapshot {
    pub child: String,
    pub version: String,
    pub maturity: String,
}

/// The verdict of the sync contract on one child's manifest.
#[derive(Debug, Clone, PartialEq)]
pub enum SyncReadiness {
    Ready(SyncSnapshot),
    ImmatureMaturity { reason: String },
    IncompatibleVersion { reason: String },
    UnparseableManifest { reason: String },
}

/// A verdict with its texts taken as character sequences.
pub enum ReadinessView {
    Ready { child: Seq<char>, version: Seq<char>, maturity: Seq<char> },
    ImmatureMaturity { reason: Seq<char> },
    IncompatibleVersion { reason: Seq<char> },
    UnparseableManifest { reason: Seq<char> },
}

impl View for SyncReadiness {
    type V = ReadinessView;

    open spec fn view(&self) -> ReadinessView {
        match self {
            SyncReadiness::Ready(s) => ReadinessView::Ready {
                child: s.child@,
                version: s.version@,
                maturity: s.maturity@,
            },
            SyncReadiness::ImmatureMaturity { reason } => ReadinessView::ImmatureMaturity {
                reason: reason@,
            },
            SyncReadiness::IncompatibleVersion { reason } => ReadinessView::IncompatibleVersion {
                reason: reason@,
            },
            SyncReadiness::UnparseableManifest { reason } => ReadinessView::UnparseableManifest {
                reason: reason@,
            },
        }
    }
}

/// The major of a complete numeric `MAJOR.MINOR.PATCH` version: exactly
/// three `.`-separated parts, each a `u32` as `u32::from_str` reads it.
pub open spec fn version_major(v: Seq<char>) -> Option<u32> {
    let parts = split_all(v, '.');
    if parts.len() == 3 && parse_u32(parts[0]) is Some && parse_u32(parts[1]) is Some && parse_u32(
        parts[2],
    ) is Some {
        parse_u32(parts[0])
    } else {
        None
    }
}

/// Reason given for a maturity word that names no level.
pub open spec fn unknown_maturity_reason(name: Seq<char>, maturity: Seq<char>) -> Seq<char> {
    name + " reports unrecognized maturity "@ + debug_escaped(maturity)
        + " - refusing to sync against an unknown contract"@
}

/// Reason given for a level below the minimum.
pub open spec fn immature_reason(name: Seq<char>, level: MaturityLevel) -> Seq<char> {
    name + " maturity is "@ + maturity_name(level) + ", below the minimum "@ + maturity_name(
        MIN_MATURITY,
    ) + " required for state sync"@
}

/// Reason given for a version that is not a complete numeric `MAJOR.MINOR.PATCH`.
pub open spec fn unparseable_version_reason(name: Seq<char>, version: Seq<char>) -> Seq<char> {
    name + " reports an unparseable version "@ + debug_escaped(version)
}

/// Reason given for a major version above the compatibility ceiling.
pub open spec fn incompatible_reason(name: Seq<char>, major: u32) -> Seq<char> {
    name + " reports major version "@ + decimal(major as nat)
        + " - this Twin's sync contract is only verified up to major "@ + decimal(
        MAX_COMPATIBLE_MAJOR as nat,
    ) + " (incompatible simulator version)"@
}

/// The sync contract: the maturity gate first, then the version gate.
pub open spec fn spec_assess(m: ManifestView) -> ReadinessView {
    match parse_maturity(m.maturity) {
        None => ReadinessView::UnparseableManifest {
            reason: unknown_maturity_reason(m.name, m.maturity),
        },
        Some(level) => if maturity_rank(level) < maturity_rank(MIN_MATURITY) {
            ReadinessView::ImmatureMaturity { reason: immature_reason(m.name, level) }
        } else {
            match version_major(m.version) {
                None => ReadinessView::UnparseableManifest {
                    reason: unparseable_version_reason(m.name, m.version),
                },
                Some(major) => if major > MAX_COMPATIBLE_MAJOR {
                    ReadinessView::IncompatibleVersion { reason: incompatible_reason(m.name, major) }
                } else {
                    ReadinessView::Ready { child: m.name, version: m.version, maturity: m.maturity }
                },
            }
        },
    }
}

/// A child passes both gates.
pub open spec fn sync_eligible(m: ManifestView) -> bool {
    &&& parse_maturity(m.maturity) matches Some(level)
    &&& maturity_rank(level) >= maturity_rank(MIN_MATURITY)
    &&& version_major(m.version) matches Some(major)
    &&& major <= MAX_COMPATIBLE_MAJOR
}

impl SyncReadiness {
    /// Whether the verdict lets the Twin sync with the child.
    pub fn is_ready(&self) -> (r: bool)
        ensures
            r == (self@ is Ready),
    {
        match self {
            SyncReadiness::Ready(_) => true,
            _ => false,
        }
    }
}

/// The major of a complete numeric `MAJOR.MINOR.PATCH` version, or `None`.
pub fn parse_major(version: &str) -> (r: Option<u32>)
    ensures
        r == version_major(version@),
        ({
            let parts = split_all(version@, '.');
            parts.len() == 3 && parse_u32(parts[0]) is Some && parse_u32(parts[1]) is Some
                && parse_u32(parts[2]) is Some ==> r == parse_u32(parts[0])
        }),
        ({
            let parts = split_all(version@, '.');
            r is Some ==> parts.len() == 3 && parse_u32(parts[1]) is Some && parse_u32(
                parts[2],
            ) is Some && r == parse_u32(parts[0])
        }),
{
    let chars = chars_of(version);
    let parts = split_chars(&chars, '.');
    proof {
        assert(parts@.map_values(|p: Vec<char>| p@).len() == parts@.len());
    }
    if parts.len() != 3 {
        return None;
    }
    let ghost views = parts@.map_values(|p: Vec<char>| p@);
    assert(views[0] == parts@[0]@);
    assert(views[1] == parts@[1]@);
    assert(views[2] == parts@[2]@);
    let major = parse_u32_chars(&parts[0]);
    let minor = parse_u32_chars(&parts[1]);
    let patch = parse_u32_chars(&parts[2]);
    if major.is_some() && minor.is_some() && patch.is_some() {
        major
    } else {
        None
    }
}

fn unknown_maturity_message(manifest: &ChildManifest) -> (r: String)
    ensures
        r@ == unknown_maturity_reason(manifest.name@, manifest.maturity@),
        plain_text(manifest.maturity@) ==> r@ == manifest.name@
            + " reports unrecognized maturity "@ + quoted(manifest.maturity@)
            + " - refusing to sync against an unknown contract"@,
{
    let mut out = String::new();
    out.append(manifest.name.as_str());
    out.append(" reports unrecognized maturity ");
    let quoted = debug_string(manifest.maturity.as_str());
    out.append(quoted.as_str());
    out.append(" - refusing to sync against an unknown contract");
    out
}

fn immature_message(manifest: &ChildManifest, level: MaturityLevel) -> (r: String)
    ensures
        r@ == immature_reason(manifest.name@, level),
{
    let mut out = String::new();
    out.append(manifest.name.as_str());
    out.append(" maturity is ");
    out.append(level.name());
    out.append(", below the minimum ");
    out.append(MIN_MATURITY.name());
    out.append(" required for state sync");
    out
}

fn unparseable_version_message(manifest: &ChildManifest) -> (r: String)
    ensures
        r@ == unparseable_version_reason(manifest.name@, manifest.version@),
        plain_text(manifest.version@) ==> r@ == manifest.name@
            + " reports an unparseable version "@ + quoted(manifest.version@),
{
    let mut out = String::new();
    out.append(manifest.name.as_str());
    out.append(" reports an unparseable version ");
    let quoted = debug_string(manifest.version.as_str());
    out.append(quoted.as_str());
    out
}

fn incompatible_message(manifest: &ChildManifest, major: u32) -> (r: String)
    ensures
        r@ == incompatible_reason(manifest.name@, major),
{
    let mut out = String::new();
    out.append(manifest.name.as_str());
    out.append(" reports major version ");
    push_decimal(&mut out, major as u64);
    out.append(" - this Twin's sync contract is only verified up to major ");
    push_decimal(&mut out, MAX_COMPATIBLE_MAJOR as u64);
    out.append(" (incompatible simulator version)");
    out
}

/// Assesses one child's manifest against the sync contract. Maturity is
/// checked before the version, so the reason always names the most
/// fundamental gate that failed.
pub fn assess(manifest: &ChildManifest) -> (r: SyncReadiness)
    ensures
        r@ == spec_assess(manifest@),
        (r@ is Ready) == sync_eligible(manifest@),
        parse_maturity(manifest.maturity@) is None && plain_text(manifest.maturity@) ==> r@
            == (ReadinessView::UnparseableManifest {
            reason: manifest.name@ + " reports unrecognized maturity "@ + quoted(
                manifest.maturity@,
            ) + " - refusing to sync against an unknown contract"@,
        }),
        parse_maturity(manifest.maturity@) matches Some(level) && maturity_rank(level)
            >= maturity_rank(MIN_MATURITY) && version_major(manifest.version@) is None
            && plain_text(manifest.version@) ==> r@ == (ReadinessView::UnparseableManifest {
            reason: manifest.name@ + " reports an unparseable version "@ + quoted(
                manifest.version@,
            ),
        }),
{
    let maturity = match MaturityLevel::parse(manifest.maturity.as_str()) {
        Some(m) => m,
        None => {
            return SyncReadiness::UnparseableManifest { reason: unknown_maturity_message(manifest) };
        },
    };
    if maturity.rank() < MIN_MATURITY.rank() {
        return SyncReadiness::ImmatureMaturity { reason: immature_message(manifest, maturity) };
    }
    let major = match parse_major(manifest.version.as_str()) {
        Some(m) => m,
        None => {
            return SyncReadiness::UnparseableManifest {
                reason: unparseable_version_message(manifest),
            };
        },
    };
    if major > MAX_COMPATIBLE_MAJOR {
        return SyncReadiness::IncompatibleVersion { reason: incompatible_message(manifest, major) };
    }
    SyncReadiness::Ready(
        SyncSnapshot {
            child: manifest.name.clone(),
            version: manifest.version.clone(),
            maturity: manifest.maturity.clone(),
        },
    )
}

// ---------------------------------------------------------------------------
// Laws
// ---------------------------------------------------------------------------

/// A child is sync-ready exactly when it clears both gates: a recognised
/// maturity at least `MIN_MATURITY`, and a complete numeric version whose
/// major is at most `MAX_COMPATIBLE_MAJOR`.
pub proof fn law_ready_iff_both_gates(m: ManifestView)
    ensures
        (spec_assess(m) is Ready) == sync_eligible(m),
{
}

/// Maturity is checked before the version: a child below the minimum
/// maturity is refused as immature, with the same reason, whatever version
/// it reports.
pub proof fn law_maturity_gate_first(m1: ManifestView, m2: ManifestView)
    requires
        m1.name == m2.name,
        m1.maturity == m2.maturity,
        parse_maturity(m1.maturity) matches Some(level) && maturity_rank(level) < maturity_rank(
            MIN_MATURITY,
        ),
    ensures
        spec_assess(m1) is ImmatureMaturity,
        spec_assess(m1) == spec_assess(m2),
{
}

/// A ready verdict's snapshot is exactly the name, version and maturity
/// the child reported.
pub proof fn law_ready_snapshot_echoes_manifest(m: ManifestView)
    requires
        spec_assess(m) is Ready,
    ensures
        spec_assess(m) == (ReadinessView::Ready {
            child: m.name,
            version: m.version,
            maturity: m.maturity,
        }),
{
}

/// Which verdict a child gets depends on its maturity and version alone;
/// its name only enters the reason text, its role not at all.
pub proof fn law_verdict_kind_ignores_name_and_role(m1: ManifestView, m2: ManifestView)
    requires
        m1.maturity == m2.maturity,
        m1.version == m2.version,
    ensures
        (spec_assess(m1) is Ready) == (spec_assess(m2) is Ready),
        (spec_assess(m1) is ImmatureMaturity) == (spec_assess(m2) is ImmatureMaturity),
        (spec_assess(m1) is IncompatibleVersion) == (spec_assess(m2) is IncompatibleVersion),
        (spec_assess(m1) is UnparseableManifest) == (spec_assess(m2) is UnparseableManifest),
{
}

/// The compatibility ceiling is inclusive: a child at or above the minimum
/// maturity whose version has major exactly `MAX_COMPATIBLE_MAJOR` is
/// ready, and one whose major is past it is refused as incompatible.
pub proof fn law_version_ceiling(m: ManifestView, major: u32)
    requires
        parse_maturity(m.maturity) matches Some(level) && maturity_rank(level) >= maturity_rank(
            MIN_MATURITY,
        ),
        version_major(m.version) == Some(major),
    ensures
        major == MAX_COMPATIBLE_MAJOR ==> spec_assess(m) is Ready,
        major > MAX_COMPATIBLE_MAJOR ==> spec_assess(m) == (ReadinessView::IncompatibleVersion {
            reason: incompatible_reason(m.name, major),
        }),
{
}

/// Maturity levels are ordered `Scaffolding < Functional < Established`,
/// and only `Scaffolding` falls below the minimum.
pub proof fn law_maturity_order(level: MaturityLevel)
    ensures
        maturity_rank(MaturityLevel::Scaffolding) < maturity_rank(MaturityLevel::Functional),
        maturity_rank(MaturityLevel::Functional) < maturity_rank(MaturityLevel::Established),
        (maturity_rank(level) < maturity_rank(MIN_MATURITY)) <==> (level
            == MaturityLevel::Scaffolding),
{
}

/// Each level's manifest word reads back as that level, and it is the only
/// word that does.
pub proof fn law_maturity_words(level: MaturityLevel, s: Seq<char>)
    ensures
        parse_maturity(maturity_label(level)) == Some(level),
        parse_maturity(s) == Some(level) ==> s == maturity_label(level),
{
    reveal_strlit("scaffolding");
    reveal_strlit("functional");
    reveal_strlit("established");
    assert("established"@[0] != "scaffolding"@[0]);
    assert("established"@[0] != "functional"@[0]);
    assert("functional"@.len() != "scaffolding"@.len());
}

/// The major of a version is the value of its first `.`-part: a version of
/// exactly three parts that each read as a `u32` always yields the first,
/// whatever the minor and patch are, and only such versions yield a major.
pub proof fn law_major_is_first_part(v: Seq<char>)
    ensures
        ({
            let parts = split_all(v, '.');
            parts.len() == 3 && parse_u32(parts[0]) is Some && parse_u32(parts[1]) is Some
                && parse_u32(parts[2]) is Some ==> version_major(v) == parse_u32(parts[0])
        }),
        ({
            let parts = split_all(v, '.');
            version_major(v) is Some ==> parts.len() == 3 && parse_u32(parts[1]) is Some
                && parse_u32(parts[2]) is Some && version_major(v) == parse_u32(parts[0])
        }),
{
}

/// A functional-or-better child whose version has three numeric parts and
/// major at most `MAX_COMPATIBLE_MAJOR` is ready, for every minor and patch.
pub proof fn law_any_minor_patch_under_ceiling_is_ready(m: ManifestView)
    requires
        parse_maturity(m.maturity) matches Some(level) && maturity_rank(level) >= maturity_rank(
            MIN_MATURITY,
        ),
        split_all(m.version, '.').len() == 3,
        parse_u32(split_all(m.version, '.')[0]) matches Some(major) && major
            <= MAX_COMPATIBLE_MAJOR,
        parse_u32(split_all(m.version, '.')[1]) is Some,
        parse_u32(split_all(m.version, '.')[2]) is Some,
    ensures
        spec_assess(m) == (ReadinessView::Ready {
            child: m.name,
            version: m.version,
            maturity: m.maturity,
        }),
{
}

} // verus!
