//! The launcher's filesystem layout: live install directory, staging
//! directory, state file and cache directory, all under per-user data and
//! cache roots.

use vstd::prelude::*;

verus! {

/// Where the launcher keeps its installs, its state file and its scratch
/// space. Immutable once computed.
pub struct Paths {
    /// The live install directory.
    pub install: String,
    /// The staging directory a new install is prepared in.
    pub new_install: String,
    /// The state file.
    pub state: String,
    /// Scratch space for extraction.
    pub cache: String,
}

impl Paths {
    /// Lays the launcher's files out under the given per-user data and cache
    /// roots. The roots are detected by the unverified shell.
    pub fn new(data_dir: &str, cache_dir: &str) -> (p: Paths)
        ensures
            p.install@ == data_dir@ + "/install"@,
            p.new_install@ == data_dir@ + "/install-new"@,
            p.state@ == data_dir@ + "/state.toml"@,
            p.cache@ == cache_dir@,
    {
        let mut install = String::from_str(data_dir);
        install.append("/install");
        let mut new_install = String::from_str(data_dir);
        new_install.append("/install-new");
        let mut state = String::from_str(data_dir);
        state.append("/state.toml");
        Paths { install, new_install, state, cache: String::from_str(cache_dir) }
    }
}

} // verus!
