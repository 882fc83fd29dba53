//! Command-line options, as plain values.
//!
//! Flag syntax and parsing live in the unverified shell; this struct is the
//! contract between that shell and the launcher's logic.

use vstd::prelude::*;

verus! {

/// The launcher's command-line options.
pub struct Args {
    /// Use a local archive file instead of downloading one.
    pub tar: Option<String>,
    /// Install into a specific directory.
    pub install_dir: Option<String>,
    /// Verbosity level.
    pub verbose: u8,
    /// Force update checks on, overriding the configuration file.
    pub check_update: bool,
    /// How often to check for updates, in seconds.
    pub check_update_interval: Option<usize>,
    /// Print the resolved download URL and exit.
    pub print_tar_url: bool,
    /// Run the install/update logic but do not launch the managed binary.
    pub no_exec: bool,
    /// Timeout for network connections and requests, in seconds.
    pub timeout: Option<usize>,
    /// How often to try to resume the download until giving up (0 for
    /// unlimited).
    pub download_attempts: Option<usize>,
}

} // verus!
