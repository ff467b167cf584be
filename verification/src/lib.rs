//! Core of a plugin-extensible asset manager.
//!
//! The heart of the crate is a plugin host: sandboxed scripts are loaded
//! from per-plugin directories, described by a metadata snapshot, and
//! notified of domain events through conventionally named hook functions.
//! The registry bookkeeping, the payload encoding handed across the
//! host/guest boundary, and the dispatch discipline are verified; only the
//! embedded interpreter itself is called through trusted wrappers.

use vstd::prelude::*;

pub mod asset;
pub mod json;
pub mod loader;
pub mod manager;
pub mod plugin;
pub mod text;

verus! {

/// Application-level configuration: where data lives and where plugins are
/// discovered.
pub struct AppConfig {
    /// Path of the data file.
    pub db_path: String,
    /// Root directory scanned for plugins.
    pub plugins_dir: String,
    /// Whether debug diagnostics are requested.
    pub debug: bool,
}

impl Default for AppConfig {
    fn default() -> (r: Self)
        ensures
            r.db_path@ == "data/assets.json"@,
            r.plugins_dir@ == "plugins"@,
            !r.debug,
    {
        AppConfig {
            db_path: "data/assets.json".to_owned(),
            plugins_dir: "plugins".to_owned(),
            debug: false,
        }
    }
}

} // verus!
