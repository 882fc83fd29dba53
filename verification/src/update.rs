//! The update decision and the update pipeline's bookkeeping.
//!
//! [`should_update`] is the pure gate deciding whether an update cycle runs
//! at all. [`apply_remote_version`] is what one cycle does to the persisted
//! state once the remote version is known: it decides whether an install is
//! due and stamps the state, so that a second cycle against the same remote
//! version plans no further install.

use vstd::prelude::*;
use crate::config::Config;
use crate::pkg::{archive_first_path, parse_version, spec_version_of_path, PkgError};
use crate::state::State;

verus! {

/// Whether an update check/install should run: a forced check (a local
/// archive was supplied) always runs; disabled checks never run; a missing
/// state means a first run, which checks; a live managed process blocks the
/// update; otherwise the check runs once the interval has elapsed. A
/// last-check stamp in the future counts as elapsed.
pub open spec fn spec_should_update(c: Config, state: Option<State>, now: u64) -> bool {
    if c.force_check_update {
        true
    } else if !c.check_update {
        false
    } else {
        match state {
            Some(s) => {
                if s.pid is Some {
                    false
                } else if s.last_update_check > now {
                    true
                } else {
                    now - s.last_update_check >= c.check_update_interval
                }
            },
            None => true,
        }
    }
}

/// Decides whether an update cycle should run, from the configuration, the
/// persisted state and the current time in seconds.
pub fn should_update(config: &Config, state: &Option<State>, now: u64) -> (r: bool)
    ensures
        r == spec_should_update(*config, *state, now),
{
    if config.force_check_update {
        true
    } else if !config.check_update {
        false
    } else {
        match state {
            Some(s) => {
                if s.pid.is_some() {
                    false
                } else if s.last_update_check > now {
                    // The last check is somehow in the future: check now
                    // rather than compute a negative elapsed time.
                    true
                } else {
                    now - s.last_update_check >= config.check_update_interval as u64
                }
            },
            None => true,
        }
    }
}

/// While the managed process runs, no update runs, whatever the elapsed time:
/// an update must never step on an active install.
pub proof fn lemma_running_process_blocks_update(c: Config, s: State, now: u64)
    requires
        !c.force_check_update,
        s.pid is Some,
    ensures
        !spec_should_update(c, Some(s), now),
{
}

/// Whether one update cycle, seeing the given installed and remote versions,
/// installs: it does when the versions differ or when an install is forced.
pub open spec fn plans_install(installed: Seq<char>, remote: Seq<char>, force: bool) -> bool {
    installed != remote || force
}

/// The installed version one update cycle leaves behind: the remote version,
/// whether it installed or found it already current.
pub open spec fn version_after_update(installed: Seq<char>, remote: Seq<char>) -> Seq<char> {
    remote
}

/// Stamps the persisted state with the outcome of one update cycle against
/// the given remote version, and says whether an install is due: it is when
/// the installed version differs from the remote one or the cycle is forced.
/// The state afterwards carries the remote version and the check time.
pub fn apply_remote_version(state: &mut State, remote_version: &String, force: bool, now: u64) -> (
    install: bool)
    ensures
        install == plans_install(old(state).version@, remote_version@, force),
        final(state).version@ == version_after_update(old(state).version@, remote_version@),
        final(state).last_update_check == now,
        final(state).pid == old(state).pid,
{
    let differs = !state.version.eq(remote_version);
    state.version = String::from_str(remote_version.as_str());
    state.last_update_check = now;
    differs || force
}

/// Running the update pipeline twice in succession against the same remote
/// version makes the second cycle a no-op: the first cycle leaves the remote
/// version installed, so the second, unforced one plans no install and
/// changes no install directory.
pub proof fn lemma_update_idempotent(installed: Seq<char>, remote: Seq<char>, force: bool)
    ensures
        !plans_install(version_after_update(installed, remote), remote, false),
{
}

/// One update cycle against an already fetched archive: read the remote
/// version out of the archive, stamp the state, and say whether the shell
/// must extract and swap the archive in. An unreadable archive is the
/// cycle's error and leaves the state untouched.
pub fn run_update_cycle(state: &mut State, data: &Vec<u8>, force: bool, now: u64) -> (r: Result<
    bool,
    PkgError,
>)
    ensures
        ({
            let p = archive_first_path(data@);
            let ver = spec_version_of_path(p->0);
            &&& (r is Ok <==> p is Some && ver is Some)
            &&& (r matches Ok(install) ==> {
                &&& install == plans_install(old(state).version@, ver->0, force)
                &&& final(state).version@ == ver->0
                &&& final(state).last_update_check == now
                &&& final(state).pid == old(state).pid
            })
            &&& (r is Err ==> {
                &&& *final(state) == *old(state)
                &&& (p is None ==> r == Err::<bool, PkgError>(PkgError::NoEntry))
                &&& (p is Some && ver is None ==> r == Err::<bool, PkgError>(PkgError::BadVersion))
            })
        }),
{
    match parse_version(data) {
        Ok(remote) => {
            let install = apply_remote_version(state, &remote, force, now);
            Ok(install)
        },
        Err(e) => Err(e),
    }
}

} // verus!
