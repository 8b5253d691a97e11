//! The version catalog: what a refresh of Mojang's manifest may accept, and
//! what it answers when the network or the server fails.

use vstd::prelude::*;

use super::metadata::{VersionManifest, VersionSummary};
use crate::http::{http_client, ClientSettings, USER_AGENT};
use crate::net::{parse_url, url_parse_result};
use crate::text::{chars_of, contains_char, hex_text, is_hex_text, join_path, joined, str_equal, utf8_len, utf8_len_exec};

verus! {

/// Mojang's live version manifest.
pub const VERSION_MANIFEST_URL: &'static str = "https://piston-meta.mojang.com/mc/game/version_manifest_v2.json";

/// Schema version of the cached manifest record.
pub const CACHE_SCHEMA_VERSION: u32 = 1;

/// Largest manifest body accepted from the network, in bytes (8 MiB).
pub const MAX_MANIFEST_BYTES: usize = 8388608;

/// Largest number of versions a manifest may list.
pub const MAX_MANIFEST_VERSIONS: usize = 100000;

/// Connect timeout of catalog requests, in milliseconds (10 s).
pub const CATALOG_CONNECT_TIMEOUT_MS: u64 = 10000;

/// Whole-request timeout of catalog requests, in milliseconds (30 s).
pub const CATALOG_REQUEST_TIMEOUT_MS: u64 = 30000;

/// Most redirects a catalog request follows.
pub const CATALOG_MAX_REDIRECTS: usize = 5;

/// Where the catalog came from.
#[derive(Debug, Clone, Copy, PartialEq, Eq, Structural)]
pub enum CatalogSource {
    Network,
    Cache,
    NotModified,
}

/// A refreshed catalog, with a warning when it had to fall back to the cache.
#[derive(Debug, Clone)]
pub struct CatalogUpdate {
    pub manifest: VersionManifest,
    pub source: CatalogSource,
    pub warning: Option<String>,
}

/// The on-disk record of the last good manifest.
#[derive(Debug, Clone)]
pub struct CachedManifest {
    pub schema_version: u32,
    pub etag: Option<String>,
    pub manifest: VersionManifest,
}

/// The catalog's HTTP client and where its cache lives.
#[derive(Debug)]
pub struct VersionCatalogService {
    client: reqwest::Client,
    client_settings: ClientSettings,
    cache_path: String,
}

/// Relative location of the cached manifest below the cache root.
pub open spec fn cache_file_rel() -> Seq<char> {
    "metadata/version_manifest_v2.json"@
}

impl VersionCatalogService {
    pub closed spec fn cache_path_view(&self) -> Seq<char> {
        self.cache_path@
    }

    /// The service whose manifest cache lives below `cache_root`, with a client
    /// that connects within 10 s, finishes a request within 30 s and follows
    /// at most five redirects. Building that client depends on the machine's
    /// TLS and network configuration; its error is handed back.
    pub fn new(cache_root: &str) -> (r: Result<VersionCatalogService, reqwest::Error>)
        ensures
            r matches Ok(s) ==> s.cache_path_view() == joined(cache_root@, cache_file_rel()),
            r matches Ok(s) ==> s.client_settings_view().describes(
                USER_AGENT@,
                CATALOG_CONNECT_TIMEOUT_MS,
                Some(CATALOG_REQUEST_TIMEOUT_MS),
                CATALOG_MAX_REDIRECTS,
            ),
    {
        let (client_settings, built) = http_client(
            CATALOG_CONNECT_TIMEOUT_MS,
            Some(CATALOG_REQUEST_TIMEOUT_MS),
            CATALOG_MAX_REDIRECTS,
        );
        match built {
            Ok(client) => Ok(VersionCatalogService {
                client,
                client_settings,
                cache_path: join_path(cache_root, "metadata/version_manifest_v2.json"),
            }),
            Err(error) => Err(error),
        }
    }

    pub closed spec fn client_settings_view(&self) -> ClientSettings {
        self.client_settings
    }

    /// The settings the HTTP client was built with.
    pub fn client_settings(&self) -> (r: &ClientSettings)
        ensures
            *r == self.client_settings_view(),
    {
        &self.client_settings
    }

    pub closed spec fn client_view(&self) -> reqwest::Client {
        self.client
    }

    /// The HTTP client of catalog requests.
    pub fn client(&self) -> (r: &reqwest::Client)
        ensures
            *r == self.client_view(),
    {
        &self.client
    }

    /// Where the last good manifest is cached.
    pub fn cache_path(&self) -> (r: &str)
        ensures
            r@ == self.cache_path_view(),
    {
        self.cache_path.as_str()
    }
}

/// What `format!("{:?}", text)` writes for a string: the text quoted and escaped.
pub uninterp spec fn debug_text(text: Seq<char>) -> Seq<char>;

/// Formats a string with its `Debug` impl (`std`): quoted, with escapes. The
/// contract names the result as a function of the text.
#[verifier::external_body]
fn debug_quoted(text: &str) -> (r: String)
    ensures
        r@ == debug_text(text@),
{
    format!("{:?}", text)
}

/// Whether a version id is unsafe as a label that may reach file names: empty,
/// longer than 128 bytes, or holding `/`, `\` or NUL.
pub open spec fn unsafe_version_id(id: Seq<char>) -> bool {
    ||| id.len() == 0
    ||| utf8_len(id) > 128
    ||| id.contains('/')
    ||| id.contains('\\')
    ||| id.contains('\0')
}

/// The message refusing one listed version, if any.
pub open spec fn version_problem(v: VersionSummary) -> Option<Seq<char>> {
    let id = v.id@;
    if unsafe_version_id(id) {
        Some("version manifest contains an unsafe version ID: "@ + debug_text(id))
    } else {
        match url_parse_result(v.url@) {
            Err(e) => Some("version "@ + id + " has an invalid metadata URL: "@ + e),
            Ok((scheme, _)) => if scheme != "https"@ {
                Some("version "@ + id + " metadata does not use HTTPS"@)
            } else if !hex_text(v.sha1@, 40) {
                Some("version "@ + id + " has an invalid SHA-1"@)
            } else {
                None
            },
        }
    }
}

/// The message refusing the first refused version among the first `n`, if any.
pub open spec fn versions_problem(vs: Seq<VersionSummary>, n: int) -> Option<Seq<char>>
    decreases n,
{
    if n <= 0 {
        None
    } else {
        match versions_problem(vs, n - 1) {
            Some(m) => Some(m),
            None => version_problem(vs[n - 1]),
        }
    }
}

/// The message refusing a manifest, if any: it must list between one and
/// 100 000 versions, each with a safe id, an HTTPS metadata URL and a SHA-1.
pub open spec fn manifest_problem(m: VersionManifest) -> Option<Seq<char>> {
    let vs = m.versions@;
    if vs.len() == 0 {
        Some("Mojang version manifest contained no versions"@)
    } else if vs.len() > 100000 {
        Some("Mojang version manifest contained too many entries"@)
    } else {
        versions_problem(vs, vs.len() as int)
    }
}

/// Whether `r` is the outcome `validate_manifest` owes for `m`.
pub open spec fn manifest_outcome(m: VersionManifest, r: Result<(), String>) -> bool {
    match manifest_problem(m) {
        None => r is Ok,
        Some(msg) => r matches Err(e) && e@ == msg,
    }
}

proof fn lemma_versions_problem_extends(vs: Seq<VersionSummary>, m: int, n: int)
    requires
        0 <= m <= n,
        versions_problem(vs, m) is Some,
    ensures
        versions_problem(vs, n) == versions_problem(vs, m),
    decreases n - m,
{
    if n > m {
        lemma_versions_problem_extends(vs, m, n - 1);
    }
}

fn version_text(id: &String, suffix: &str) -> (r: String)
    ensures
        r@ == "version "@ + id@ + suffix@,
{
    let mut r = String::from_str("version ");
    r.append(id.as_str());
    r.append(suffix);
    r
}

fn check_version(v: &VersionSummary) -> (r: Result<(), String>)
    ensures
        match version_problem(*v) {
            None => r is Ok,
            Some(msg) => r matches Err(e) && e@ == msg,
        },
{
    let id = chars_of(v.id.as_str());
    if id.len() == 0 || utf8_len_exec(&id) > 128 || contains_char(&id, '/') || contains_char(&id, '\\')
        || contains_char(&id, '\0') {
        let mut m = String::from_str("version manifest contains an unsafe version ID: ");
        let q = debug_quoted(v.id.as_str());
        m.append(q.as_str());
        return Err(m);
    }
    match parse_url(v.url.as_str()) {
        Err(e) => {
            let mut m = version_text(&v.id, " has an invalid metadata URL: ");
            m.append(e.as_str());
            Err(m)
        },
        Ok(parts) => {
            if !str_equal(parts.scheme.as_str(), "https") {
                Err(version_text(&v.id, " metadata does not use HTTPS"))
            } else if !is_hex_text(v.sha1.as_str(), 40) {
                Err(version_text(&v.id, " has an invalid SHA-1"))
            } else {
                Ok(())
            }
        },
    }
}

/// Checks a manifest before it is shown or cached; the first refused version,
/// in order, decides the message.
pub fn validate_manifest(manifest: &VersionManifest) -> (r: Result<(), String>)
    ensures
        manifest_outcome(*manifest, r),
{
    let vs = &manifest.versions;
    if vs.len() == 0 {
        return Err(String::from_str("Mojang version manifest contained no versions"));
    }
    if vs.len() > MAX_MANIFEST_VERSIONS {
        return Err(String::from_str("Mojang version manifest contained too many entries"));
    }
    let mut i: usize = 0;
    while i < vs.len()
        invariant
            vs@ == manifest.versions@,
            0 < vs.len() <= 100000,
            i <= vs.len(),
            versions_problem(vs@, i as int) is None,
        decreases vs.len() - i,
    {
        match check_version(&vs[i]) {
            Ok(()) => {},
            Err(e) => {
                proof {
                    lemma_versions_problem_extends(vs@, i + 1, vs.len() as int);
                }
                return Err(e);
            },
        }
        i += 1;
    }
    Ok(())
}

/// Whether a cached record may stand in for the network: the current schema
/// and a manifest that passes validation.
pub open spec fn cache_usable(c: CachedManifest) -> bool {
    c.schema_version == 1 && manifest_problem(c.manifest) is None
}

/// Keeps a cached record only when it is usable.
pub fn usable_cache(cached: Option<CachedManifest>) -> (r: Option<CachedManifest>)
    ensures
        r == match cached {
            Some(c) => if cache_usable(c) {
                Some(c)
            } else {
                None
            },
            None => None,
        },
{
    match cached {
        Some(c) => {
            if c.schema_version == CACHE_SCHEMA_VERSION && validate_manifest(&c.manifest).is_ok() {
                Some(c)
            } else {
                None
            }
        },
        None => None,
    }
}

/// The answer when the network path fails: the cached catalog with the
/// warning, or the warning as the error when there is no cache.
pub fn fallback(cache: Option<CachedManifest>, warning: String) -> (r: Result<CatalogUpdate, String>)
    ensures
        match cache {
            Some(c) => r matches Ok(u) && u.manifest == c.manifest && u.source == CatalogSource::Cache
                && u.warning == Some(warning),
            None => r == Err::<CatalogUpdate, String>(warning),
        },
{
    match cache {
        Some(c) => Ok(CatalogUpdate { manifest: c.manifest, source: CatalogSource::Cache, warning: Some(warning) }),
        None => Err(warning),
    }
}

/// The `If-None-Match` value of a refresh: the usable cache's ETag, when it
/// has one; without it the request is unconditional.
pub fn conditional_etag(cached: &Option<CachedManifest>) -> (r: Option<&str>)
    ensures
        match cached {
            Some(c) => match c.etag {
                Some(e) => r matches Some(t) && t@ == e@,
                None => r is None,
            },
            None => r is None,
        },
{
    match cached {
        Some(c) => match &c.etag {
            Some(e) => Some(e.as_str()),
            None => None,
        },
        None => None,
    }
}

/// The answer to HTTP 304: the cached catalog, which must exist.
pub fn not_modified(cache: Option<CachedManifest>) -> (r: Result<CatalogUpdate, String>)
    ensures
        match cache {
            Some(c) => r matches Ok(u) && u.manifest == c.manifest && u.source
                == CatalogSource::NotModified && u.warning is None,
            None => r matches Err(e) && e@ == "Mojang returned not-modified but no valid cache exists"@,
        },
{
    match cache {
        Some(c) => Ok(CatalogUpdate { manifest: c.manifest, source: CatalogSource::NotModified, warning: None }),
        None => Err(String::from_str("Mojang returned not-modified but no valid cache exists")),
    }
}

/// How a catalog response's status is handled.
#[derive(Debug, Clone, Copy, PartialEq, Eq, Structural)]
pub enum CatalogStatus {
    /// 304: reuse the cache.
    NotModified,
    /// 2xx: read and validate the body.
    Success,
    /// Anything else: fall back to the cache.
    Failure,
}

/// Classifies an HTTP status code of the manifest response.
pub fn classify_catalog_status(status: u16) -> (r: CatalogStatus)
    ensures
        status == 304 ==> r == CatalogStatus::NotModified,
        status != 304 && 200 <= status <= 299 ==> r == CatalogStatus::Success,
        status != 304 && !(200 <= status <= 299) ==> r == CatalogStatus::Failure,
{
    if status == 304 {
        CatalogStatus::NotModified
    } else if 200 <= status && status <= 299 {
        CatalogStatus::Success
    } else {
        CatalogStatus::Failure
    }
}

/// Refuses a manifest body larger than 8 MiB before it is parsed.
pub fn check_manifest_size(len: usize) -> (r: Result<(), String>)
    ensures
        len <= 8388608 ==> r is Ok,
        len > 8388608 ==> (r matches Err(e) && e@ == "Mojang version manifest exceeded the 8 MiB safety limit"@),
{
    if len > MAX_MANIFEST_BYTES {
        Err(String::from_str("Mojang version manifest exceeded the 8 MiB safety limit"))
    } else {
        Ok(())
    }
}

/// Accepts a freshly downloaded manifest: it must validate; the result is the
/// record to cache.
pub fn accept_network_manifest(manifest: VersionManifest, etag: Option<String>) -> (r: Result<CachedManifest, String>)
    ensures
        match manifest_problem(manifest) {
            Some(msg) => r matches Err(e) && e@ == msg,
            None => r matches Ok(c) && c.schema_version == 1 && c.etag == etag && c.manifest
                == manifest,
        },
{
    match validate_manifest(&manifest) {
        Err(e) => Err(e),
        Ok(()) => Ok(CachedManifest { schema_version: CACHE_SCHEMA_VERSION, etag, manifest }),
    }
}

/// The update shown after a successful network refresh whose record was cached.
pub fn network_update(record: CachedManifest) -> (u: CatalogUpdate)
    ensures
        u.manifest == record.manifest,
        u.source == CatalogSource::Network,
        u.warning is None,
{
    CatalogUpdate { manifest: record.manifest, source: CatalogSource::Network, warning: None }
}

/// What a network refresh caches is usable as the fallback of a later
/// refresh: it has the current schema and its manifest validates.
pub proof fn law_cached_network_manifest_is_usable(manifest: VersionManifest, etag: Option<String>)
    requires
        manifest_problem(manifest) is None,
    ensures
        cache_usable(CachedManifest { schema_version: 1, etag, manifest }),
{
}

proof fn lemma_no_versions_problem(vs: Seq<VersionSummary>, n: int)
    requires
        0 <= n <= vs.len(),
        versions_problem(vs, n) is None,
    ensures
        forall|k: int| 0 <= k < n ==> (#[trigger] version_problem(vs[k])) is None,
    decreases n,
{
    if n > 0 {
        lemma_no_versions_problem(vs, n - 1);
    }
}

proof fn lemma_versions_problem_none(vs: Seq<VersionSummary>, n: int)
    requires
        0 <= n <= vs.len(),
        forall|k: int| 0 <= k < n ==> (#[trigger] version_problem(vs[k])) is None,
    ensures
        versions_problem(vs, n) is None,
    decreases n,
{
    if n > 0 {
        lemma_versions_problem_none(vs, n - 1);
    }
}

/// Manifest validation is complete: a manifest of 1 to 100 000 versions, each
/// with a non-empty id of at most 128 bytes holding none of `/`, `\` and NUL,
/// a metadata URL that parses with the `https` scheme and a SHA-1 of 40
/// hexadecimal digits, is accepted. Any other character of an id, a space
/// among them, is no reason to refuse it.
pub proof fn law_well_formed_manifests_are_accepted(m: VersionManifest, r: Result<(), String>)
    requires
        manifest_outcome(m, r),
        1 <= m.versions@.len() <= 100000,
        forall|k: int|
            0 <= k < m.versions@.len() ==> {
                let v = #[trigger] m.versions@[k];
                &&& v.id@.len() > 0
                &&& utf8_len(v.id@) <= 128
                &&& !v.id@.contains('/')
                &&& !v.id@.contains('\\')
                &&& !v.id@.contains('\0')
                &&& url_parse_result(v.url@) matches Ok((scheme, _)) && scheme == "https"@
                &&& hex_text(v.sha1@, 40)
            },
    ensures
        r is Ok,
{
    let vs = m.versions@;
    assert forall|k: int| 0 <= k < vs.len() implies (#[trigger] version_problem(vs[k])) is None by {
        let v = vs[k];
        assert(!unsafe_version_id(v.id@));
    }
    lemma_versions_problem_none(vs, vs.len() as int);
}

/// Every version of an accepted manifest has a safe id, an HTTPS metadata URL
/// and a well-formed SHA-1, and the manifest lists between 1 and 100 000.
pub proof fn law_accepted_manifest_versions(m: VersionManifest)
    requires
        manifest_problem(m) is None,
    ensures
        1 <= m.versions@.len() <= 100000,
        forall|k: int|
            0 <= k < m.versions@.len() ==> {
                let v = #[trigger] m.versions@[k];
                &&& !unsafe_version_id(v.id@)
                &&& url_parse_result(v.url@) matches Ok((scheme, _)) && scheme == "https"@
                &&& hex_text(v.sha1@, 40)
            },
{
    lemma_no_versions_problem(m.versions@, m.versions@.len() as int);
    assert forall|k: int| 0 <= k < m.versions@.len() implies {
        let v = #[trigger] m.versions@[k];
        &&& !unsafe_version_id(v.id@)
        &&& url_parse_result(v.url@) matches Ok((scheme, _)) && scheme == "https"@
        &&& hex_text(v.sha1@, 40)
    } by {
        assert(version_problem(m.versions@[k]) is None);
    }
}

} // verus!
