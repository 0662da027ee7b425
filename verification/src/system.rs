//! What the frontend is told about the running application once it asks:
//! version, platform, and where the backend and its database ended up.

use vstd::prelude::*;

verus! {

/// The application information handed to the frontend when it reports
/// ready: the package version, the platform name, the backend's bound port
/// if a backend is live, and the resolved database path if one could be
/// resolved.
pub struct AppInfo {
    pub version: String,
    pub platform: String,
    pub backend_port: Option<u16>,
    pub database_path: Option<String>,
}

impl AppInfo {
    /// Assemble the report from its four parts, unchanged.
    pub fn new(
        version: String,
        platform: String,
        backend_port: Option<u16>,
        database_path: Option<String>,
    ) -> (r: Self)
        ensures
            r.version == version,
            r.platform == platform,
            r.backend_port == backend_port,
            r.database_path == database_path,
    {
        AppInfo { version, platform, backend_port, database_path }
    }
}

} // verus!
