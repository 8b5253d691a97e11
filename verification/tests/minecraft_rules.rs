use andromeda_client::minecraft::catalog::{
    conditional_etag,
    classify_catalog_status, fallback, not_modified, usable_cache, validate_manifest,
    CachedManifest, CatalogSource, CatalogStatus, VersionCatalogService,
};
use andromeda_client::minecraft::metadata::{
    LatestVersions, OsRule, Rule, RuleAction, VersionKind, VersionManifest, VersionSummary,
};
use andromeda_client::minecraft::rules::{architecture_matches, evaluate_rules, RuleContext, RuleDecision};

#[test]
fn no_rules_means_allowed() {
    let features = Vec::new();
    let context = RuleContext {
        os_name: "windows",
        architecture: "x86_64",
        os_version: "10.0",
        features: &features,
    };
    assert_eq!(evaluate_rules(&[], &context), RuleDecision::Allow);
}

#[test]
fn last_matching_rule_wins() {
    let features = vec![("is_demo_user".to_owned(), false)];
    let rules = vec![
        Rule { action: RuleAction::Allow, os: None, features: Vec::new() },
        Rule {
            action: RuleAction::Disallow,
            os: Some(OsRule { name: Some("windows".to_owned()), arch: None, version: None }),
            features: Vec::new(),
        },
    ];
    let context = RuleContext {
        os_name: "windows",
        architecture: "x86_64",
        os_version: "10.0",
        features: &features,
    };
    assert_eq!(evaluate_rules(&rules, &context), RuleDecision::Disallow);
}

#[test]
fn required_features_must_match() {
    let features = vec![("has_custom_resolution".to_owned(), false)];
    let rules = vec![Rule {
        action: RuleAction::Allow,
        os: None,
        features: vec![("has_custom_resolution".to_owned(), true)],
    }];
    let context = RuleContext {
        os_name: "linux",
        architecture: "x86_64",
        os_version: "6.0",
        features: &features,
    };
    assert_eq!(evaluate_rules(&rules, &context), RuleDecision::Disallow);
}

#[test]
fn os_conditions_and_architectures() {
    let features = Vec::new();
    let context = RuleContext { os_name: "osx", architecture: "i686", os_version: "10.14.6", features: &features };
    let rule = |name: Option<&str>, arch: Option<&str>, version: Option<&str>| Rule {
        action: RuleAction::Allow,
        os: Some(OsRule {
            name: name.map(str::to_owned),
            arch: arch.map(str::to_owned),
            version: version.map(str::to_owned),
        }),
        features: Vec::new(),
    };
    assert_eq!(evaluate_rules(&[rule(Some("osx"), Some("x86"), Some("10.14"))], &context), RuleDecision::Allow);
    assert_eq!(evaluate_rules(&[rule(Some("osx"), None, Some("^10\\.5"))], &context), RuleDecision::Disallow);
    assert_eq!(evaluate_rules(&[rule(Some("linux"), None, None)], &context), RuleDecision::Disallow);
    assert!(architecture_matches("x86", "i386"));
    assert!(!architecture_matches("x86", "x86_64"));
    assert!(architecture_matches("arm64", "arm64"));
    let absent = vec![Rule { action: RuleAction::Allow, os: None, features: vec![("is_demo_user".to_owned(), false)] }];
    assert_eq!(evaluate_rules(&absent, &context), RuleDecision::Allow);
}

fn summary(id: &str, url: &str, sha1: &str) -> VersionSummary {
    VersionSummary {
        id: id.into(),
        kind: VersionKind::Release,
        url: url.into(),
        time: "2025-07-17T12:00:00+00:00".into(),
        release_time: "2025-07-17T12:00:00+00:00".into(),
        sha1: sha1.into(),
        compliance_level: 1,
    }
}

fn manifest(versions: Vec<VersionSummary>) -> VersionManifest {
    VersionManifest {
        latest: LatestVersions { release: "1.21.8".into(), snapshot: "25w31a".into() },
        versions,
    }
}

const SHA: &str = "0123456789abcdef0123456789ABCDEF01234567";

#[test]
fn manifest_validation_messages() {
    let good = manifest(vec![summary("1.21.8", "https://piston-meta.mojang.com/v1/1.21.8.json", SHA)]);
    assert!(validate_manifest(&good).is_ok());
    assert_eq!(validate_manifest(&manifest(Vec::new())).unwrap_err(), "Mojang version manifest contained no versions");
    assert_eq!(
        validate_manifest(&manifest(vec![summary("../x", "https://e.com/x", SHA)])).unwrap_err(),
        "version manifest contains an unsafe version ID: \"../x\""
    );
    assert_eq!(
        validate_manifest(&manifest(vec![summary("1.0", "http://e.com/x", SHA)])).unwrap_err(),
        "version 1.0 metadata does not use HTTPS"
    );
    assert_eq!(
        validate_manifest(&manifest(vec![summary("1.0", "https://e.com/x", "abc")])).unwrap_err(),
        "version 1.0 has an invalid SHA-1"
    );
    assert_eq!(
        validate_manifest(&manifest(vec![summary("1.0", "not a url", SHA)])).unwrap_err(),
        "version 1.0 has an invalid metadata URL: relative URL without a base"
    );
    assert_eq!(VersionKind::OldBeta.label(), "old beta");
}

#[test]
fn catalog_falls_back_to_a_usable_cache() {
    let good = manifest(vec![summary("1.21.8", "https://piston-meta.mojang.com/v1/1.21.8.json", SHA)]);
    let cache = CachedManifest { schema_version: 1, etag: Some("\"x\"".into()), manifest: good.clone() };
    let update = fallback(Some(cache.clone()), "offline".into()).unwrap();
    assert_eq!(update.source, CatalogSource::Cache);
    assert_eq!(update.warning.as_deref(), Some("offline"));
    assert_eq!(update.manifest, good);
    assert_eq!(fallback(None, "offline".into()).unwrap_err(), "offline");
    assert_eq!(not_modified(Some(cache.clone())).unwrap().source, CatalogSource::NotModified);
    assert_eq!(
        not_modified(None).unwrap_err(),
        "Mojang returned not-modified but no valid cache exists"
    );
    assert_eq!(conditional_etag(&Some(cache.clone())), Some("\"x\""));
    assert_eq!(conditional_etag(&Some(CachedManifest { etag: None, ..cache.clone() })), None);
    assert_eq!(conditional_etag(&None), None);
    let old_schema = CachedManifest { schema_version: 2, ..cache.clone() };
    assert!(usable_cache(Some(old_schema)).is_none());
    assert!(usable_cache(Some(cache)).is_some());
    assert_eq!(classify_catalog_status(304), CatalogStatus::NotModified);
    assert_eq!(classify_catalog_status(200), CatalogStatus::Success);
    assert_eq!(classify_catalog_status(500), CatalogStatus::Failure);
    let service = VersionCatalogService::new("/cache").expect("the HTTP client builds");
    assert_eq!(service.cache_path(), "/cache/metadata/version_manifest_v2.json");
    assert_eq!(service.client_settings().connect_timeout_ms, 10000);
    assert_eq!(service.client_settings().total_timeout_ms, Some(30000));
    assert_eq!(service.client_settings().max_redirects, 5);
    assert_eq!(service.client_settings().user_agent, "Andromeda-Client/0.1.0");
}

#[test]
fn features_read_as_a_map_from_names_to_flags() {
    let features = vec![("is_demo_user".to_owned(), false), ("has_custom_resolution".to_owned(), true)];
    let context = RuleContext { os_name: "linux", architecture: "x86_64", os_version: "6.0", features: &features };
    let requiring = |name: &str, value: bool| {
        vec![Rule { action: RuleAction::Allow, os: None, features: vec![(name.to_owned(), value)] }]
    };
    assert_eq!(evaluate_rules(&requiring("has_custom_resolution", true), &context), RuleDecision::Allow);
    assert_eq!(evaluate_rules(&requiring("is_demo_user", false), &context), RuleDecision::Allow);
    assert_eq!(evaluate_rules(&requiring("is_demo_user", true), &context), RuleDecision::Disallow);
    assert_eq!(evaluate_rules(&requiring("has_quick_plays_support", false), &context), RuleDecision::Allow);
    assert_eq!(evaluate_rules(&requiring("has_quick_plays_support", true), &context), RuleDecision::Disallow);
}
