//! The HTTP client that every request of the launcher goes through.

use vstd::prelude::*;

verus! {

#[verifier::external_type_specification]
#[verifier::external_body]
pub struct ExHttpClient(reqwest::Client);

#[verifier::external_type_specification]
#[verifier::external_body]
pub struct ExHttpError(reqwest::Error);

/// The `User-Agent` of every request.
pub const USER_AGENT: &'static str = "Andromeda-Client/0.1.0";

/// What a client is built with, as plain values.
#[derive(Debug, Clone)]
pub struct ClientSettings {
    /// The `User-Agent` header of every request.
    pub user_agent: String,
    /// How long connecting may take, in milliseconds.
    pub connect_timeout_ms: u64,
    /// How long a whole request may take, in milliseconds; `None` for no limit.
    pub total_timeout_ms: Option<u64>,
    /// How many redirects a request follows at most.
    pub max_redirects: usize,
}

impl ClientSettings {
    /// Whether these are the settings with the given values.
    pub open spec fn describes(
        self,
        user_agent: Seq<char>,
        connect_timeout_ms: u64,
        total_timeout_ms: Option<u64>,
        max_redirects: usize,
    ) -> bool {
        &&& self.user_agent@ == user_agent
        &&& self.connect_timeout_ms == connect_timeout_ms
        &&& self.total_timeout_ms == total_timeout_ms
        &&& self.max_redirects == max_redirects
    }
}

/// Builds a `reqwest::Client` from `settings`, which set no total deadline:
/// `Client::builder()`, then `user_agent`, `connect_timeout` and
/// `redirect(Policy::limited(..))` with the settings' values, then `build`;
/// the settings come back beside the outcome, unchanged. Whether building
/// succeeds rests on the TLS backend and the system's resolver and proxy
/// configuration, so nothing is claimed of the outcome.
#[verifier::external_body]
fn build_client(settings: ClientSettings) -> (r: (ClientSettings, Result<reqwest::Client, reqwest::Error>))
    requires
        settings.total_timeout_ms is None,
    ensures
        r.0 == settings,
{
    let built = reqwest::Client::builder()
        .user_agent(settings.user_agent.as_str())
        .connect_timeout(std::time::Duration::from_millis(settings.connect_timeout_ms))
        .redirect(reqwest::redirect::Policy::limited(settings.max_redirects))
        .build();
    (settings, built)
}

/// As `build_client`, for settings whose total deadline is `total_ms`, which
/// is handed to `ClientBuilder::timeout` as well; the settings come back
/// beside the outcome, unchanged. Nothing is claimed of the outcome.
#[verifier::external_body]
fn build_client_with_deadline(settings: ClientSettings, total_ms: u64) -> (r: (
    ClientSettings,
    Result<reqwest::Client, reqwest::Error>,
))
    requires
        settings.total_timeout_ms == Some(total_ms),
    ensures
        r.0 == settings,
{
    let built = reqwest::Client::builder()
        .user_agent(settings.user_agent.as_str())
        .connect_timeout(std::time::Duration::from_millis(settings.connect_timeout_ms))
        .timeout(std::time::Duration::from_millis(total_ms))
        .redirect(reqwest::redirect::Policy::limited(settings.max_redirects))
        .build();
    (settings, built)
}

/// The `Display` text of a `reqwest::Error`. Nothing is claimed of the text.
#[verifier::external_body]
pub(crate) fn http_error_text(error: &reqwest::Error) -> (r: String) {
    format!("{}", error)
}

/// Builds a client that sends [`USER_AGENT`], gives up connecting after
/// `connect_timeout_ms`, gives up on a whole request after `total_timeout_ms`
/// when one is set, and follows at most `max_redirects` redirects. Beside the
/// outcome come the settings exactly as they were handed to reqwest. Building
/// depends on the machine's TLS and network configuration, so either outcome
/// may come back.
pub fn http_client(connect_timeout_ms: u64, total_timeout_ms: Option<u64>, max_redirects: usize) -> (r: (
    ClientSettings,
    Result<reqwest::Client, reqwest::Error>,
))
    ensures
        r.0.describes(USER_AGENT@, connect_timeout_ms, total_timeout_ms, max_redirects),
{
    let settings = ClientSettings {
        user_agent: String::from_str(USER_AGENT),
        connect_timeout_ms,
        total_timeout_ms,
        max_redirects,
    };
    match total_timeout_ms {
        None => build_client(settings),
        Some(ms) => build_client_with_deadline(settings, ms),
    }
}

} // verus!
