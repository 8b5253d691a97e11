use andromeda_client::config::{
    settings_load_step, AppSettings, LoadStep, SettingsFile, SettingsRepository, ThemePreference,
};
use andromeda_client::domain::{AppError, ErrorCategory};
use andromeda_client::platform::AppPaths;
use andromeda_client::domain::{TaskProgress, TaskState};
use andromeda_client::minecraft::catalog::{CatalogSource, CatalogUpdate};
use andromeda_client::minecraft::{LatestVersions, VersionKind, VersionManifest, VersionSummary};
use andromeda_client::state::{
    count_kind, visible_versions, window_title, AppState, CatalogState, Page, UiEffect, UiEvent,
};
use andromeda_client::telemetry::Secret;

#[test]
fn secrets_never_format_the_inner_value() {
    let secret = Secret::new("canary-token");
    assert_eq!(secret.redacted(), "[REDACTED]");
    assert_eq!(secret.expose(), "canary-token");
}

#[test]
fn progress_is_bounded() {
    let progress = TaskProgress { state: TaskState::Running, completed: 150, total: 100, phase: String::new() };
    assert_eq!(progress.bounded_completed(), progress.total);
}

#[test]
fn demo_task_runs_to_completion_in_fifty_ticks() {
    let mut state = AppState::new(AppSettings::default(), None);
    assert_eq!(state.page, Page::Home);
    state.start_demo();
    for _ in 0..49 {
        state.tick();
    }
    let task = state.task.as_ref().unwrap();
    assert_eq!(task.completed, 98);
    assert_eq!(task.state, TaskState::Running);
    assert_eq!(task.phase, "Finalizing");
    state.tick();
    let task = state.task.as_ref().unwrap();
    assert_eq!((task.completed, task.state), (100, TaskState::Completed));
    state.tick();
    state.cancel_demo();
    assert_eq!(state.task.as_ref().unwrap().state, TaskState::Completed);
}

#[test]
fn cancelling_stops_the_demo() {
    let mut state = AppState::new(AppSettings::default(), Some("notice".into()));
    state.start_demo();
    for _ in 0..13 {
        state.tick();
    }
    assert_eq!(state.task.as_ref().unwrap().phase, "Downloading libraries");
    state.cancel_demo();
    state.tick();
    let task = state.task.as_ref().unwrap();
    assert_eq!((task.state, task.completed), (TaskState::Cancelled, 26));
    assert_eq!(task.phase, "Cancelled safely");
    assert_eq!(state.recovery_notice.as_deref(), Some("notice"));
}

#[test]
fn settings_validation_and_load_decisions() {
    let defaults = AppSettings::default();
    assert_eq!(defaults.theme, ThemePreference::System);
    assert_eq!(defaults.download_concurrency, 8);
    assert!(defaults.validate().is_ok());
    let schema = AppSettings { schema_version: 2, ..defaults };
    assert_eq!(schema.validate(), Err("unsupported settings schema"));
    let busy = AppSettings { download_concurrency: 33, ..defaults };
    assert_eq!(busy.validate(), Err("download concurrency must be between 1 and 32"));

    let shown = AppSettings { show_snapshots: true, ..defaults };
    match settings_load_step(SettingsFile::Parsed(shown)) {
        LoadStep::Ready(outcome) => {
            assert_eq!(outcome.settings, shown);
            assert!(outcome.recovery_notice.is_none());
        }
        other => panic!("unexpected {other:?}"),
    }
    assert!(matches!(settings_load_step(SettingsFile::Missing), LoadStep::Ready(o) if o.settings == defaults));
    assert!(matches!(settings_load_step(SettingsFile::Parsed(busy)), LoadStep::Recover("Settings validation failed")));
    assert!(matches!(settings_load_step(SettingsFile::Unparsable), LoadStep::Recover("Settings were corrupt")));

    let repository = SettingsRepository::new("/cfg/settings.json".into());
    let outcome = repository.recover("Settings were corrupt", Some("/cfg/settings.corrupt".into()));
    assert_eq!(outcome.settings, defaults);
    assert_eq!(
        outcome.recovery_notice.as_deref(),
        Some("Settings were corrupt. Safe defaults are active; the original was preserved at /cfg/settings.corrupt.")
    );
    let outcome = repository.recover("Settings validation failed", None);
    assert_eq!(
        outcome.recovery_notice.as_deref(),
        Some("Settings validation failed. Safe defaults are active; the original was preserved at /cfg/settings.json.")
    );
}

#[test]
fn paths_and_errors() {
    let paths = AppPaths::isolated("/tmp/andromeda");
    assert_eq!(paths.config, "/tmp/andromeda/config");
    assert_eq!(paths.logs, "/tmp/andromeda/logs");
    let trailing = AppPaths::isolated("/tmp/root/");
    assert_eq!(trailing.cache, "/tmp/root/cache");
    let platform = AppPaths::from_platform("c".into(), "d".into(), "k".into());
    assert_eq!(platform.logs, "d/logs");

    let error = AppError::FileSystem {
        operation: "read",
        path: "x".into(),
        source: std::io::Error::new(std::io::ErrorKind::Other, "boom"),
    };
    assert_eq!(error.category(), ErrorCategory::FileSystem);
    assert!(error.retryable());
    assert_eq!(AppError::MissingDataDirectory.category(), ErrorCategory::FileSystem);
    assert!(!AppError::MissingDataDirectory.retryable());
}

fn version(id: &str, kind: VersionKind) -> VersionSummary {
    VersionSummary {
        id: id.into(),
        kind,
        url: format!("https://e.com/{id}.json"),
        time: String::new(),
        release_time: String::new(),
        sha1: "0".repeat(40),
        compliance_level: 0,
    }
}

#[test]
fn catalog_list_filters_snapshots_and_caps_at_forty() {
    let mut versions = Vec::new();
    for i in 0..30 {
        versions.push(version(&format!("r{i}"), VersionKind::Release));
        versions.push(version(&format!("s{i}"), VersionKind::Snapshot));
    }
    let releases = visible_versions(&versions, false);
    assert_eq!(releases.len(), 30);
    assert!(releases.iter().all(|&i| versions[i].kind == VersionKind::Release));
    let all = visible_versions(&versions, true);
    assert_eq!(all, (0..40).collect::<Vec<usize>>());
    assert_eq!(count_kind(&versions, VersionKind::Snapshot), 30);
    assert_eq!(count_kind(&versions, VersionKind::OldAlpha), 0);
}

#[test]
fn events_update_the_state_and_request_effects() {
    let mut state = AppState::new(AppSettings::default(), Some("notice".into()));
    assert_eq!(state.update(UiEvent::Navigate(Page::Settings)), UiEffect::Nothing);
    assert_eq!(window_title(state.page), "Andromeda Client — Settings");
    assert_eq!(state.update(UiEvent::SetTheme(ThemePreference::Dark)), UiEffect::PersistSettings);
    assert_eq!(state.settings.theme, ThemePreference::Dark);
    assert_eq!(state.update(UiEvent::ToggleSnapshots), UiEffect::PersistSettings);
    assert!(state.settings.show_snapshots);
    assert_eq!(state.update(UiEvent::DismissNotice), UiEffect::Nothing);
    assert!(state.recovery_notice.is_none());
    assert_eq!(state.update(UiEvent::StartDemo), UiEffect::Nothing);
    assert_eq!(state.page, Page::Downloads);
    assert!(state.task_running());
    state.update(UiEvent::Tick);
    assert_eq!(state.task.as_ref().unwrap().completed, 2);
    state.update(UiEvent::CancelDemo);
    assert!(!state.task_running());
    assert_eq!(state.update(UiEvent::RefreshCatalog), UiEffect::RefreshCatalog);
    assert!(matches!(state.catalog, CatalogState::Loading));
    let manifest = VersionManifest {
        latest: LatestVersions { release: "1.21.8".into(), snapshot: "25w31a".into() },
        versions: Vec::new(),
    };
    state.update(UiEvent::CatalogLoaded(Ok(CatalogUpdate { manifest, source: CatalogSource::Network, warning: None })));
    assert!(matches!(state.catalog, CatalogState::Ready { source: CatalogSource::Network, .. }));
    state.update(UiEvent::CatalogLoaded(Err("offline".into())));
    assert!(matches!(&state.catalog, CatalogState::Failed(e) if e == "offline"));
    state.report_save_failure("disk full");
    assert_eq!(state.recovery_notice.as_deref(), Some("Your settings could not be saved: disk full"));
}

#[test]
fn ticks_are_allowed_until_the_counter_would_overflow() {
    let mut state = AppState::new(AppSettings::default(), None);
    assert!(state.can_tick());
    state.start_demo();
    assert!(state.can_tick());
    state.task = Some(TaskProgress {
        state: TaskState::Running,
        completed: u64::MAX - 1,
        total: u64::MAX,
        phase: "late".into(),
    });
    assert!(!state.can_tick());
    state.task.as_mut().map(|task| task.state = TaskState::Cancelled);
    assert!(state.can_tick());
}
