//! Per-user directory layout.

use vstd::prelude::*;

use crate::text::{join_path, joined};

verus! {

/// The launcher's configuration, data, cache and log directories.
#[derive(Debug, Clone)]
pub struct AppPaths {
    pub config: String,
    pub data: String,
    pub cache: String,
    pub logs: String,
}

impl AppPaths {
    /// All four directories below one root, as `config`, `data`, `cache` and
    /// `logs`: used for portable installs and tests.
    pub fn isolated(root: &str) -> (r: AppPaths)
        ensures
            r.config@ == joined(root@, "config"@),
            r.data@ == joined(root@, "data"@),
            r.cache@ == joined(root@, "cache"@),
            r.logs@ == joined(root@, "logs"@),
    {
        AppPaths {
            config: join_path(root, "config"),
            data: join_path(root, "data"),
            cache: join_path(root, "cache"),
            logs: join_path(root, "logs"),
        }
    }

    /// The layout of the platform directories: logs live below the data directory.
    pub fn from_platform(config: String, data: String, cache: String) -> (r: AppPaths)
        ensures
            r.config@ == config@,
            r.data@ == data@,
            r.cache@ == cache@,
            r.logs@ == joined(data@, "logs"@),
    {
        let logs = join_path(data.as_str(), "logs");
        AppPaths { config, data, cache, logs }
    }
}

} // verus!
