//! Launcher settings: their schema, validation and the recovery of a
//! settings file that cannot be used.

use vstd::prelude::*;

verus! {

/// Schema version written into every settings document.
pub const SETTINGS_SCHEMA_VERSION: u32 = 1;

#[derive(Debug, Clone, Copy, PartialEq, Eq, Structural)]
pub enum ThemePreference {
    Light,
    Dark,
    System,
}

impl Default for ThemePreference {
    /// Follow the system theme.
    fn default() -> (r: Self)
        ensures
            r == ThemePreference::System,
    {
        ThemePreference::System
    }
}

/// The persisted launcher settings.
#[derive(Debug, Clone, Copy, PartialEq, Eq, Structural)]
pub struct AppSettings {
    pub schema_version: u32,
    pub theme: ThemePreference,
    pub download_concurrency: u8,
    pub show_snapshots: bool,
}

/// The settings used when none can be loaded.
pub open spec fn default_settings() -> AppSettings {
    AppSettings {
        schema_version: 1,
        theme: ThemePreference::System,
        download_concurrency: 8,
        show_snapshots: false,
    }
}

impl Default for AppSettings {
    /// The current schema, the system theme, eight concurrent downloads and
    /// snapshots hidden.
    fn default() -> (r: Self)
        ensures
            r == default_settings(),
    {
        AppSettings {
            schema_version: SETTINGS_SCHEMA_VERSION,
            theme: ThemePreference::System,
            download_concurrency: 8,
            show_snapshots: false,
        }
    }
}

impl AppSettings {
    /// Settings are usable when they have the current schema and between 1 and
    /// 32 concurrent downloads.
    pub open spec fn is_valid(self) -> bool {
        self.schema_version == 1 && 1 <= self.download_concurrency <= 32
    }

    /// Checks the settings; the error names the first broken rule.
    pub fn validate(&self) -> (r: Result<(), &'static str>)
        ensures
            self.is_valid() ==> r is Ok,
            self.schema_version != 1 ==> (r matches Err(m) && m@ == "unsupported settings schema"@),
            self.schema_version == 1 && !(1 <= self.download_concurrency <= 32) ==> (r matches Err(m)
                && m@ == "download concurrency must be between 1 and 32"@),
    {
        if self.schema_version != SETTINGS_SCHEMA_VERSION {
            return Err("unsupported settings schema");
        }
        if !(1 <= self.download_concurrency && self.download_concurrency <= 32) {
            return Err("download concurrency must be between 1 and 32");
        }
        Ok(())
    }
}

/// The default settings pass validation.
pub proof fn law_default_settings_are_valid()
    ensures
        default_settings().is_valid(),
{
}

/// Loaded settings, with a notice for the user when recovery was needed.
#[derive(Debug, Clone)]
pub struct LoadOutcome {
    pub settings: AppSettings,
    pub recovery_notice: Option<String>,
}

/// What was found at the settings location.
#[derive(Debug, Clone, Copy)]
pub enum SettingsFile {
    /// No file exists.
    Missing,
    /// The file parsed as settings.
    Parsed(AppSettings),
    /// The file exists but is not a settings document.
    Unparsable,
}

/// The next step of loading: an outcome, or recovery of the file with a reason.
#[derive(Debug, Clone)]
pub enum LoadStep {
    Ready(LoadOutcome),
    Recover(&'static str),
}

/// What a load answers for what was found: defaults for a missing file,
/// the settings when they parse and validate, and recovery otherwise.
pub open spec fn load_step_spec(found: SettingsFile) -> Result<AppSettings, Seq<char>> {
    match found {
        SettingsFile::Missing => Ok(default_settings()),
        SettingsFile::Parsed(s) => if s.is_valid() {
            Ok(s)
        } else {
            Err("Settings validation failed"@)
        },
        SettingsFile::Unparsable => Err("Settings were corrupt"@),
    }
}

/// Decides how a load proceeds from what was found at the settings location.
pub fn settings_load_step(found: SettingsFile) -> (r: LoadStep)
    ensures
        match load_step_spec(found) {
            Ok(s) => r matches LoadStep::Ready(o) && o.settings == s && o.recovery_notice is None,
            Err(reason) => r matches LoadStep::Recover(m) && m@ == reason,
        },
{
    match found {
        SettingsFile::Missing => LoadStep::Ready(LoadOutcome { settings: AppSettings::default(), recovery_notice: None }),
        SettingsFile::Parsed(s) => {
            if s.validate().is_ok() {
                LoadStep::Ready(LoadOutcome { settings: s, recovery_notice: None })
            } else {
                LoadStep::Recover("Settings validation failed")
            }
        },
        SettingsFile::Unparsable => LoadStep::Recover("Settings were corrupt"),
    }
}

/// Saved settings load back unchanged: settings that pass validation (as
/// `save` requires) are used as they are when read again.
pub proof fn law_valid_settings_round_trip(s: AppSettings)
    requires
        s.is_valid(),
    ensures
        load_step_spec(SettingsFile::Parsed(s)) == Ok::<AppSettings, Seq<char>>(s),
{
}

/// Loading never yields settings that fail validation.
pub proof fn law_loaded_settings_are_valid(found: SettingsFile)
    ensures
        load_step_spec(found) matches Ok(s) ==> s.is_valid(),
{
}

/// Where the settings live.
#[derive(Debug, Clone)]
pub struct SettingsRepository {
    path: String,
}

/// The notice shown after a recovery: the reason, that defaults are active,
/// and where the original file was kept.
pub open spec fn recovery_notice_text(message: Seq<char>, location: Seq<char>) -> Seq<char> {
    message + ". Safe defaults are active; the original was preserved at "@ + location + "."@
}

impl SettingsRepository {
    pub closed spec fn path_view(&self) -> Seq<char> {
        self.path@
    }

    /// A repository for the settings file at `path`.
    pub fn new(path: String) -> (r: SettingsRepository)
        ensures
            r.path_view() == path@,
    {
        SettingsRepository { path }
    }

    /// The settings file's location.
    pub fn path(&self) -> (r: &str)
        ensures
            r@ == self.path_view(),
    {
        self.path.as_str()
    }

    /// The outcome after the unusable file was moved aside (to `quarantined`,
    /// when it still existed): default settings and a notice naming where the
    /// original is kept.
    pub fn recover(&self, message: &str, quarantined: Option<String>) -> (r: LoadOutcome)
        ensures
            r.settings == default_settings(),
            r.recovery_notice matches Some(n) && n@ == recovery_notice_text(
                message@,
                match quarantined {
                    Some(q) => q@,
                    None => self.path_view(),
                },
            ),
    {
        let mut notice = String::from_str(message);
        notice.append(". Safe defaults are active; the original was preserved at ");
        match &quarantined {
            Some(q) => notice.append(q.as_str()),
            None => notice.append(self.path.as_str()),
        }
        notice.append(".");
        LoadOutcome { settings: AppSettings::default(), recovery_notice: Some(notice) }
    }
}

} // verus!
