//! Supervision of the managed binary as a state machine.
//!
//! The launcher runs exactly one managed child at a time. The unverified
//! shell spawns processes, listens for signals and waits for the child; this
//! module decides the transitions and what each one does to the persisted
//! state. Shutdown is triggered by whichever of three racing events comes
//! first — an interactive interrupt, a termination signal, or the child
//! exiting on its own — and clears the running-process marker on every one
//! of them.

use vstd::prelude::*;
use crate::state::State;

verus! {

/// Which of the three racing shutdown events arrived first.
#[derive(Debug, PartialEq, Eq, Structural, Clone, Copy)]
pub enum ShutdownTrigger {
    /// An interactive interrupt signal.
    Interrupt,
    /// A termination signal.
    Terminate,
    /// The child exited on its own.
    ChildExited,
}

/// Where the supervisor stands.
#[derive(Debug, PartialEq, Eq, Structural, Clone, Copy)]
pub enum SupervisorPhase {
    /// No managed child is supervised.
    NotRunning,
    /// The launcher decided to run the managed binary; nothing spawned yet.
    Starting,
    /// The child runs and its process id is recorded.
    Running,
    /// A shutdown trigger arrived; the state is about to be cleaned up.
    ShuttingDown(ShutdownTrigger),
}

/// How the managed binary is to be invoked.
#[derive(Debug, PartialEq, Eq, Structural, Clone, Copy)]
pub enum LaunchMode {
    /// Spawn the binary as a supervised child.
    Spawn,
    /// An instance already runs: re-invoke the command in a non-spawning,
    /// output-capturing mode to forward the arguments, and do not become a
    /// supervising parent.
    Attach,
}

/// Why supervision failed.
#[derive(Debug, PartialEq, Eq, Structural, Clone, Copy)]
pub enum SupervisorError {
    /// Waiting on the child failed after the child's own exit won the race.
    WaitFailed,
}

/// The supervision state machine.
pub struct Supervisor {
    pub phase: SupervisorPhase,
}

/// Whether an instance of the managed binary already runs: the persisted
/// process id is the source of truth, cross-checked against a live lookup in
/// the OS process table, which wins when the persisted id is stale.
pub open spec fn spec_already_running(state: State, os_confirms_pid: bool) -> bool {
    state.pid is Some && os_confirms_pid
}

impl Supervisor {
    /// A supervisor with nothing to supervise yet.
    pub fn new() -> (s: Supervisor)
        ensures
            s.phase == SupervisorPhase::NotRunning,
    {
        Supervisor { phase: SupervisorPhase::NotRunning }
    }

    /// The launcher decided to run the managed binary. If an instance is
    /// already detected, take the attach path and stay out of supervision;
    /// otherwise move to `Starting`, with a spawn owed. `os_confirms_pid`
    /// says whether a live OS lookup confirms the persisted process id.
    pub fn begin_launch(&mut self, state: &State, os_confirms_pid: bool) -> (m: LaunchMode)
        requires
            old(self).phase == SupervisorPhase::NotRunning,
        ensures
            m == (if spec_already_running(*state, os_confirms_pid) {
                LaunchMode::Attach
            } else {
                LaunchMode::Spawn
            }),
            final(self).phase == (if spec_already_running(*state, os_confirms_pid) {
                SupervisorPhase::NotRunning
            } else {
                SupervisorPhase::Starting
            }),
    {
        if state.pid.is_some() && os_confirms_pid {
            LaunchMode::Attach
        } else {
            self.phase = SupervisorPhase::Starting;
            LaunchMode::Spawn
        }
    }

    /// The child was spawned: record its process id in the persisted state.
    /// The caller must persist the state immediately, so that a later launch
    /// invocation observes the running instance.
    pub fn child_spawned(&mut self, state: &mut State, pid: u32)
        requires
            old(self).phase == SupervisorPhase::Starting,
        ensures
            final(self).phase == SupervisorPhase::Running,
            final(state).pid == Some(pid),
            final(state).version == old(state).version,
            final(state).last_update_check == old(state).last_update_check,
    {
        self.phase = SupervisorPhase::Running;
        state.set_pid(Some(pid));
    }

    /// One of the three racing shutdown events arrived and wins the race;
    /// the other two are abandoned. The winner is recorded: it decides what
    /// the shutdown may report.
    pub fn begin_shutdown(&mut self, trigger: ShutdownTrigger)
        requires
            old(self).phase == SupervisorPhase::Running,
        ensures
            final(self).phase == SupervisorPhase::ShuttingDown(trigger),
    {
        self.phase = SupervisorPhase::ShuttingDown(trigger);
    }

    /// Cleans up after the shutdown trigger: the running-process marker is
    /// cleared unconditionally — whichever event triggered the shutdown —
    /// and the caller must persist the state before returning. A failure of
    /// the wait on the child is an error only when the child's own exit won
    /// the race; a wait abandoned because a signal won first is not one.
    pub fn finish_shutdown(&mut self, state: &mut State, wait_failed: bool) -> (r: Result<
        (),
        SupervisorError,
    >)
        requires
            old(self).phase is ShuttingDown,
        ensures
            final(self).phase == SupervisorPhase::NotRunning,
            final(state).pid is None,
            final(state).version == old(state).version,
            final(state).last_update_check == old(state).last_update_check,
            r is Ok <==> !(old(self).phase == SupervisorPhase::ShuttingDown(
                ShutdownTrigger::ChildExited,
            ) && wait_failed),
    {
        let child_exited = matches!(
            self.phase,
            SupervisorPhase::ShuttingDown(ShutdownTrigger::ChildExited)
        );
        self.phase = SupervisorPhase::NotRunning;
        state.set_pid(None);
        if child_exited && wait_failed {
            Err(SupervisorError::WaitFailed)
        } else {
            Ok(())
        }
    }
}

/// Clears the running-process marker of a state that may not have been
/// loaded, as the graceful-shutdown path does; says whether there was a
/// state to clean up, and so whether it must be persisted.
pub fn graceful_shutdown(state: &mut Option<State>) -> (save_needed: bool)
    ensures
        save_needed == (*old(state) is Some),
        *final(state) is Some <==> *old(state) is Some,
        *final(state) matches Some(s) ==> {
            &&& s.pid is None
            &&& s.version == (*old(state))->0.version
            &&& s.last_update_check == (*old(state))->0.last_update_check
        },
{
    match state {
        Some(s) => {
            s.set_pid(None);
            true
        },
        None => false,
    }
}

} // verus!
