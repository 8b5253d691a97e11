//! Official Minecraft metadata, catalog validation and rule evaluation.

pub mod catalog;
pub mod metadata;
pub mod rules;

pub use catalog::{CatalogSource, CatalogUpdate, VersionCatalogService};
pub use metadata::{
    ArgumentValue, ArtifactDownload, AssetIndexReference, ClientLoggingConfiguration, ExtractRules,
    JavaVersionRequirement, LatestVersions, Library, LibraryDownloads, LoggingConfiguration,
    LoggingFile, ModernArguments, OsRule, Rule, RuleAction, StringOrList, VersionKind,
    VersionManifest, VersionMetadata, VersionSummary,
};
pub use rules::{evaluate_rules, RuleContext, RuleDecision};
