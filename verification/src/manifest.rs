//! What a sibling repository reports about itself in its own
//! `hydra-umc.project.json`. Reading the file and decoding its JSON happen
//! at the program's edge; the library works on the decoded record.

use vstd::prelude::*;

verus! {

/// Name of the manifest file each child repository carries at its root.
pub const MANIFEST_FILE: &'static str = "hydra-umc.project.json";

/// A child's self-description, field for field as its manifest states it.
#[derive(Debug, Clone, PartialEq)]
pub struct ChildManifest {
    pub name: String,
    pub version: String,
    pub maturity: String,
    pub role: String,
}

/// The text of each manifest field.
pub struct ManifestView {
    pub name: Seq<char>,
    pub version: Seq<char>,
    pub maturity: Seq<char>,
    pub role: Seq<char>,
}

impl View for ChildManifest {
    type V = ManifestView;

    open spec fn view(&self) -> ManifestView {
        ManifestView {
            name: self.name@,
            version: self.version@,
            maturity: self.maturity@,
            role: self.role@,
        }
    }
}

} // verus!
