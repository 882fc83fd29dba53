use mts_linkchats_launcher::state::State;
use mts_linkchats_launcher::supervisor::{
    graceful_shutdown, LaunchMode, ShutdownTrigger, Supervisor, SupervisorError, SupervisorPhase,
};

#[test]
fn termination_signal_before_child_exit_cleans_up_without_error() {
    let mut st = State { version: "1.2.3".to_string(), last_update_check: 7, pid: None };
    let mut sup = Supervisor::new();
    assert_eq!(sup.phase, SupervisorPhase::NotRunning);
    let mode = sup.begin_launch(&st, false);
    assert_eq!(mode, LaunchMode::Spawn);
    assert_eq!(sup.phase, SupervisorPhase::Starting);
    sup.child_spawned(&mut st, 4321);
    assert_eq!(sup.phase, SupervisorPhase::Running);
    assert_eq!(st.pid, Some(4321));
    // The termination signal wins the race; the child-exit branch is
    // abandoned and its wait result propagates no error.
    sup.begin_shutdown(ShutdownTrigger::Terminate);
    assert_eq!(sup.phase, SupervisorPhase::ShuttingDown(ShutdownTrigger::Terminate));
    let r = sup.finish_shutdown(&mut st, false);
    assert!(r.is_ok());
    assert_eq!(st.pid, None);
    assert_eq!(sup.phase, SupervisorPhase::NotRunning);
    assert_eq!(st.version, "1.2.3");
}

#[test]
fn failed_wait_is_an_error_only_on_the_natural_exit_path() {
    let mut st = State { version: "1".to_string(), last_update_check: 0, pid: Some(10) };
    let mut sup =
        Supervisor { phase: SupervisorPhase::ShuttingDown(ShutdownTrigger::ChildExited) };
    let r = sup.finish_shutdown(&mut st, true);
    assert_eq!(r.unwrap_err(), SupervisorError::WaitFailed);
    // The cleanup still ran: the marker is cleared on every exit path.
    assert_eq!(st.pid, None);
}

#[test]
fn interrupt_also_clears_the_marker() {
    let mut st = State { version: "1".to_string(), last_update_check: 0, pid: Some(10) };
    let mut sup = Supervisor { phase: SupervisorPhase::Running };
    sup.begin_shutdown(ShutdownTrigger::Interrupt);
    assert!(sup.finish_shutdown(&mut st, false).is_ok());
    assert_eq!(st.pid, None);
}

#[test]
fn a_confirmed_running_instance_takes_the_attach_path() {
    let st = State { version: "1".to_string(), last_update_check: 0, pid: Some(77) };
    let mut sup = Supervisor::new();
    let mode = sup.begin_launch(&st, true);
    assert_eq!(mode, LaunchMode::Attach);
    assert_eq!(sup.phase, SupervisorPhase::NotRunning);
}

#[test]
fn a_stale_persisted_pid_still_spawns() {
    // The persisted pid is cross-checked against the OS process table; a
    // stale marker with no live process spawns normally.
    let st = State { version: "1".to_string(), last_update_check: 0, pid: Some(77) };
    let mut sup = Supervisor::new();
    let mode = sup.begin_launch(&st, false);
    assert_eq!(mode, LaunchMode::Spawn);
}

#[test]
fn graceful_shutdown_clears_pid_when_there_is_state() {
    let mut st = Some(State { version: "1".to_string(), last_update_check: 3, pid: Some(5) });
    assert!(graceful_shutdown(&mut st));
    let inner = st.unwrap();
    assert_eq!(inner.pid, None);
    assert_eq!(inner.last_update_check, 3);
    let mut nothing: Option<State> = None;
    assert!(!graceful_shutdown(&mut nothing));
}
