//! The download manager's configuration, its events and its final summary.

use vstd::prelude::*;

use super::DownloadError;
use crate::http::{http_client, http_error_text, ClientSettings, USER_AGENT};

verus! {

/// Runtime policy. Limits are checked by [`DownloadManager::new`]. Durations
/// are whole milliseconds.
#[derive(Debug, Clone, Copy, PartialEq, Eq, Structural)]
pub struct DownloadConfig {
    pub concurrency: usize,
    pub max_attempts: usize,
    pub connect_timeout_ms: u64,
    pub idle_timeout_ms: u64,
    pub attempt_timeout_ms: u64,
    pub initial_backoff_ms: u64,
}

impl DownloadConfig {
    /// Whether the limits are usable: 1 to 64 concurrent jobs, 1 to 16 attempts.
    pub open spec fn within_limits(self) -> bool {
        1 <= self.concurrency <= 64 && 1 <= self.max_attempts <= 16
    }
}

impl Default for DownloadConfig {
    /// Eight concurrent jobs, four attempts, a 10 s connect timeout, a 30 s
    /// idle timeout, a 5 min attempt timeout and a 250 ms initial backoff.
    fn default() -> (r: Self)
        ensures
            r == (DownloadConfig {
                concurrency: 8,
                max_attempts: 4,
                connect_timeout_ms: 10000,
                idle_timeout_ms: 30000,
                attempt_timeout_ms: 300000,
                initial_backoff_ms: 250,
            }),
    {
        DownloadConfig {
            concurrency: 8,
            max_attempts: 4,
            connect_timeout_ms: 10000,
            idle_timeout_ms: 30000,
            attempt_timeout_ms: 300000,
            initial_backoff_ms: 250,
        }
    }
}

/// The default configuration is within the limits.
pub proof fn law_default_config_is_valid()
    ensures
        (DownloadConfig {
            concurrency: 8,
            max_attempts: 4,
            connect_timeout_ms: 10000,
            idle_timeout_ms: 30000,
            attempt_timeout_ms: 300000,
            initial_backoff_ms: 250,
        }).within_limits(),
{
}

/// Where downloads go, under which policy, and the HTTP client they use.
#[derive(Debug)]
pub struct DownloadManager {
    root: String,
    config: DownloadConfig,
    client: reqwest::Client,
    client_settings: ClientSettings,
}

/// Redirects a download follows at most.
pub const DOWNLOAD_MAX_REDIRECTS: usize = 5;

impl DownloadManager {
    pub closed spec fn root_view(&self) -> Seq<char> {
        self.root@
    }

    pub closed spec fn config_view(&self) -> DownloadConfig {
        self.config
    }

    /// A manager writing below `root`, when the configuration is within its
    /// limits; otherwise an `InvalidPlan` error naming the broken limit. Within
    /// the limits, building the HTTP client (connect timeout from the
    /// configuration, no total deadline, at most five redirects) may still
    /// fail on the machine, which answers a `Network` error.
    pub fn new(root: String, config: DownloadConfig) -> (r: Result<DownloadManager, DownloadError>)
        ensures
            config.within_limits() ==> (r matches Ok(m) && m.root_view() == root@ && m.config_view()
                == config) || r matches Err(DownloadError::Network(_)),
            r is Ok ==> config.within_limits(),
            r matches Ok(m) ==> m.client_settings_view().describes(
                USER_AGENT@,
                config.connect_timeout_ms,
                None,
                DOWNLOAD_MAX_REDIRECTS,
            ),
            !(1 <= config.concurrency <= 64) ==> (r matches Err(DownloadError::InvalidPlan(e))
                && e@ == "concurrency must be between 1 and 64"@),
            (1 <= config.concurrency <= 64) && !(1 <= config.max_attempts <= 16) ==> (r matches Err(
                DownloadError::InvalidPlan(e),
            ) && e@ == "max_attempts must be between 1 and 16"@),
    {
        if !(1 <= config.concurrency && config.concurrency <= 64) {
            return Err(DownloadError::InvalidPlan(String::from_str("concurrency must be between 1 and 64")));
        }
        if !(1 <= config.max_attempts && config.max_attempts <= 16) {
            return Err(DownloadError::InvalidPlan(String::from_str("max_attempts must be between 1 and 16")));
        }
        let (client_settings, built) = http_client(config.connect_timeout_ms, None, DOWNLOAD_MAX_REDIRECTS);
        match built {
            Ok(client) => Ok(DownloadManager { root, config, client, client_settings }),
            Err(error) => Err(DownloadError::Network(http_error_text(&error))),
        }
    }

    pub closed spec fn client_settings_view(&self) -> ClientSettings {
        self.client_settings
    }

    /// The settings the HTTP client was built with.
    pub fn client_settings(&self) -> (r: &ClientSettings)
        ensures
            *r == self.client_settings_view(),
    {
        &self.client_settings
    }

    pub closed spec fn client_view(&self) -> reqwest::Client {
        self.client
    }

    /// The HTTP client of the downloads.
    pub fn client(&self) -> (r: &reqwest::Client)
        ensures
            *r == self.client_view(),
    {
        &self.client
    }

    /// The destination root.
    pub fn root(&self) -> (r: &str)
        ensures
            r@ == self.root_view(),
    {
        self.root.as_str()
    }

    /// The policy.
    pub fn config(&self) -> (r: DownloadConfig)
        ensures
            r == self.config_view(),
    {
        self.config
    }
}

/// Aggregate progress of a plan.
#[derive(Debug, Clone, Copy, PartialEq, Eq, Structural)]
pub struct DownloadProgress {
    pub completed_jobs: usize,
    pub total_jobs: usize,
    /// Bytes represented by completed or resumed output.
    pub logical_bytes: u64,
    /// Bytes transferred during this execution only.
    pub network_bytes: u64,
    pub total_bytes: Option<u64>,
}

/// A bounded-channel event. Slow consumers may miss intermediate byte events;
/// terminal events are still attempted and the final summary is authoritative.
#[derive(Debug, Clone, PartialEq, Eq)]
pub enum DownloadEvent {
    Started { id: String, resumed_from: u64 },
    Progress(DownloadProgress),
    Retrying { id: String, attempt: usize, delay_ms: u64, reason: String },
    Completed { id: String, bytes: u64 },
    Failed { id: String, error: String },
    Cancelled { id: String },
}

/// The authoritative outcome of a plan that completed.
#[derive(Debug, Clone, Copy, PartialEq, Eq, Structural)]
pub struct DownloadSummary {
    pub completed_jobs: usize,
    pub logical_bytes: u64,
    pub network_bytes: u64,
}

/// The texts of `parts` joined by `sep`.
pub open spec fn joined_with(parts: Seq<Seq<char>>, sep: Seq<char>) -> Seq<char>
    decreases parts.len(),
{
    if parts.len() == 0 {
        Seq::empty()
    } else if parts.len() == 1 {
        parts[0]
    } else {
        joined_with(parts.drop_last(), sep) + sep + parts.last()
    }
}

/// `parts` joined by `sep` (`[String]::join`).
pub fn join_texts(parts: &Vec<String>, sep: &str) -> (r: String)
    ensures
        r@ == joined_with(parts@.map_values(|s: String| s@), sep@),
{
    let ghost views = parts@.map_values(|s: String| s@);
    let mut r = String::new();
    let mut i: usize = 0;
    while i < parts.len()
        invariant
            i <= parts.len(),
            views == parts@.map_values(|s: String| s@),
            r@ == joined_with(views.take(i as int), sep@),
        decreases parts.len() - i,
    {
        assert(views.take(i + 1).drop_last() =~= views.take(i as int));
        assert(views.take(i + 1).last() == parts@[i as int]@);
        if i > 0 {
            r.append(sep);
        } else {
            assert(views.take(1)[0] == parts@[0]@);
        }
        r.append(parts[i].as_str());
        i += 1;
    }
    assert(views.take(parts.len() as int) =~= views);
    r
}

/// What a finished run answers: `Cancelled` when the run was cancelled, else a
/// batch error listing every failure (joined by `; `) when there is one, else
/// the summary.
pub fn finish_batch(cancelled: bool, failures: &Vec<String>, summary: DownloadSummary) -> (r: Result<DownloadSummary, DownloadError>)
    ensures
        cancelled ==> r matches Err(DownloadError::Cancelled),
        !cancelled && failures@.len() > 0 ==> (r matches Err(DownloadError::Batch(m)) && m@
            == joined_with(failures@.map_values(|s: String| s@), "; "@)),
        !cancelled && failures@.len() == 0 ==> r == Ok::<DownloadSummary, DownloadError>(summary),
{
    if cancelled {
        return Err(DownloadError::Cancelled);
    }
    if failures.len() > 0 {
        return Err(DownloadError::Batch(join_texts(failures, "; ")));
    }
    Ok(summary)
}

} // verus!
