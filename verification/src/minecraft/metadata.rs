//! Typed Mojang metadata: the global version manifest and per-version
//! documents. JSON objects keyed by name are held as lists of pairs, each
//! name once.

use vstd::prelude::*;

verus! {

/// Mojang's global version manifest.
#[derive(Debug, Clone, PartialEq, Eq)]
pub struct VersionManifest {
    pub latest: LatestVersions,
    pub versions: Vec<VersionSummary>,
}

#[derive(Debug, Clone, PartialEq, Eq)]
pub struct LatestVersions {
    pub release: String,
    pub snapshot: String,
}

#[derive(Debug, Clone, PartialEq, Eq)]
pub struct VersionSummary {
    pub id: String,
    pub kind: VersionKind,
    pub url: String,
    pub time: String,
    pub release_time: String,
    pub sha1: String,
    pub compliance_level: u8,
}

#[derive(Debug, Clone, Copy, PartialEq, Eq, Structural)]
pub enum VersionKind {
    Release,
    Snapshot,
    OldBeta,
    OldAlpha,
    Unknown,
}

impl VersionKind {
    /// The human-readable name of the kind.
    pub open spec fn label_spec(self) -> Seq<char> {
        match self {
            VersionKind::Release => "release"@,
            VersionKind::Snapshot => "snapshot"@,
            VersionKind::OldBeta => "old beta"@,
            VersionKind::OldAlpha => "old alpha"@,
            VersionKind::Unknown => "unknown"@,
        }
    }

    /// The human-readable name of the kind, as shown in the catalog.
    pub fn label(&self) -> (r: &'static str)
        ensures
            r@ == self.label_spec(),
    {
        match self {
            VersionKind::Release => "release",
            VersionKind::Snapshot => "snapshot",
            VersionKind::OldBeta => "old beta",
            VersionKind::OldAlpha => "old alpha",
            VersionKind::Unknown => "unknown",
        }
    }
}

/// Per-version metadata. Optional fields preserve compatibility across eras.
#[derive(Debug, Clone)]
pub struct VersionMetadata {
    pub id: String,
    pub kind: VersionKind,
    pub main_class: String,
    pub arguments: Option<ModernArguments>,
    pub minecraft_arguments: Option<String>,
    pub asset_index: Option<AssetIndexReference>,
    pub assets: Option<String>,
    pub downloads: Vec<(String, ArtifactDownload)>,
    pub libraries: Vec<Library>,
    pub java_version: Option<JavaVersionRequirement>,
    pub logging: Option<LoggingConfiguration>,
    pub inherits_from: Option<String>,
}

#[derive(Debug, Clone)]
pub struct ModernArguments {
    pub game: Vec<ArgumentValue>,
    pub jvm: Vec<ArgumentValue>,
}

#[derive(Debug, Clone)]
pub enum ArgumentValue {
    Plain(String),
    Conditional { rules: Vec<Rule>, value: StringOrList },
}

#[derive(Debug, Clone)]
pub enum StringOrList {
    One(String),
    Many(Vec<String>),
}

#[derive(Debug, Clone)]
pub struct ArtifactDownload {
    pub url: String,
    pub sha1: Option<String>,
    pub size: Option<u64>,
    pub path: Option<String>,
}

#[derive(Debug, Clone)]
pub struct AssetIndexReference {
    pub id: String,
    pub url: String,
    pub sha1: String,
    pub size: u64,
    pub total_size: u64,
}

#[derive(Debug, Clone)]
pub struct Library {
    pub name: String,
    pub downloads: Option<LibraryDownloads>,
    pub rules: Vec<Rule>,
    pub natives: Vec<(String, String)>,
    pub extract: Option<ExtractRules>,
}

#[derive(Debug, Clone)]
pub struct LibraryDownloads {
    pub artifact: Option<ArtifactDownload>,
    pub classifiers: Vec<(String, ArtifactDownload)>,
}

#[derive(Debug, Clone)]
pub struct ExtractRules {
    pub exclude: Vec<String>,
}

#[derive(Debug, Clone)]
pub struct JavaVersionRequirement {
    pub component: String,
    pub major_version: u16,
}

#[derive(Debug, Clone)]
pub struct LoggingConfiguration {
    pub client: Option<ClientLoggingConfiguration>,
}

#[derive(Debug, Clone)]
pub struct ClientLoggingConfiguration {
    pub argument: String,
    pub file: LoggingFile,
    pub kind: String,
}

#[derive(Debug, Clone)]
pub struct LoggingFile {
    pub id: String,
    pub url: String,
    pub sha1: String,
    pub size: u64,
}

#[derive(Debug, Clone, Copy, PartialEq, Eq, Structural)]
pub enum RuleAction {
    Allow,
    Disallow,
}

/// One Mojang rule: an action that applies when the OS conditions and every
/// listed feature flag match.
#[derive(Debug, Clone)]
pub struct Rule {
    pub action: RuleAction,
    pub os: Option<OsRule>,
    pub features: Vec<(String, bool)>,
}

#[derive(Debug, Clone)]
pub struct OsRule {
    pub name: Option<String>,
    pub arch: Option<String>,
    pub version: Option<String>,
}

} // verus!
