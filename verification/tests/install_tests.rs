use mts_linkchats_launcher::install::{
    atomic_swap_with_fallback, install, DirContent, InstallError, InstallEvents, SwapOutcome,
    Volume,
};

fn all_ok() -> InstallEvents {
    InstallEvents {
        extract_ok: true,
        payload_found: true,
        stage_atomic_ok: true,
        stage_remove_ok: true,
        stage_rename_ok: true,
        live_atomic_ok: true,
        live_remove_ok: true,
        live_rename_ok: true,
        cleanup_ok: true,
    }
}

fn old_volume() -> Volume {
    Volume {
        staging: DirContent::Absent,
        new_install: DirContent::Full(1),
        live: DirContent::Full(1),
    }
}

#[test]
fn atomic_install_ends_with_the_whole_new_version() {
    let mut v = old_volume();
    let outcome = install(&mut v, 2, true, all_ok()).unwrap();
    assert_eq!(outcome, SwapOutcome::Atomic);
    assert_eq!(v.live, DirContent::Full(2));
    // The stale new-install directory was cleaned up: only safe because the
    // promotion was truly atomic.
    assert_eq!(v.new_install, DirContent::Absent);
}

#[test]
fn forced_fallback_still_succeeds_and_reports_it() {
    let mut v = old_volume();
    let ev = InstallEvents { live_atomic_ok: false, ..all_ok() };
    let outcome = install(&mut v, 2, true, ev).unwrap();
    assert_eq!(outcome, SwapOutcome::FallbackApplied);
    assert_eq!(v.live, DirContent::Full(2));
    // The fallback's rename moved the staged content into place itself.
    assert_eq!(v.new_install, DirContent::Absent);
    // The old install survived the first exchange into the staging slot.
    assert_eq!(v.staging, DirContent::Full(1));
}

#[test]
fn single_phase_install_swaps_straight_into_live() {
    let mut v = Volume {
        staging: DirContent::Absent,
        new_install: DirContent::Absent,
        live: DirContent::Full(1),
    };
    let outcome = install(&mut v, 7, false, all_ok()).unwrap();
    assert_eq!(outcome, SwapOutcome::Atomic);
    assert_eq!(v.live, DirContent::Full(7));
}

#[test]
fn an_archive_without_a_payload_entry_fails_the_install() {
    let mut v = old_volume();
    let ev = InstallEvents { payload_found: false, ..all_ok() };
    let err = install(&mut v, 2, true, ev).unwrap_err();
    assert_eq!(err, InstallError::NoPayload);
    assert_eq!(v.live, DirContent::Full(1));
    assert_eq!(v.new_install, DirContent::Full(1));
}

#[test]
fn failed_extraction_never_touches_the_live_directory() {
    let mut v = old_volume();
    let ev = InstallEvents { extract_ok: false, ..all_ok() };
    let err = install(&mut v, 2, true, ev).unwrap_err();
    assert_eq!(err, InstallError::ExtractFailed);
    assert_eq!(v.live, DirContent::Full(1));
    assert_eq!(v.new_install, DirContent::Full(1));
}

#[test]
fn rename_failure_mid_fallback_is_fatal_for_the_install() {
    let mut v = old_volume();
    let ev = InstallEvents { live_atomic_ok: false, live_rename_ok: false, ..all_ok() };
    let err = install(&mut v, 2, true, ev).unwrap_err();
    assert_eq!(err, InstallError::RenameFailed);
    // The delete had already run: the live path is left with no install,
    // which is surfaced to the caller and not retried automatically.
    assert_eq!(v.live, DirContent::Absent);
}

#[test]
fn failed_fallback_delete_is_surfaced_and_changes_nothing() {
    let mut src = DirContent::Full(2);
    let mut target = DirContent::Full(1);
    let err = atomic_swap_with_fallback(&mut src, &mut target, false, false, true).unwrap_err();
    assert_eq!(err, InstallError::RemoveFailed);
    assert_eq!(src, DirContent::Full(2));
    assert_eq!(target, DirContent::Full(1));
}

#[test]
fn failed_fallback_rename_leaves_no_install_and_is_fatal() {
    let mut src = DirContent::Full(2);
    let mut target = DirContent::Full(1);
    let err = atomic_swap_with_fallback(&mut src, &mut target, false, true, false).unwrap_err();
    assert_eq!(err, InstallError::RenameFailed);
    assert_eq!(target, DirContent::Absent);
}

#[test]
fn fallback_swap_moves_the_source_into_place() {
    let mut src = DirContent::Full(2);
    let mut target = DirContent::Full(1);
    let outcome = atomic_swap_with_fallback(&mut src, &mut target, false, true, true).unwrap();
    assert_eq!(outcome, SwapOutcome::FallbackApplied);
    assert_eq!(target, DirContent::Full(2));
    assert_eq!(src, DirContent::Absent);
}

#[test]
fn atomic_swap_exchanges_both_sides() {
    let mut src = DirContent::Full(2);
    let mut target = DirContent::Full(1);
    let outcome = atomic_swap_with_fallback(&mut src, &mut target, true, true, true).unwrap();
    assert_eq!(outcome, SwapOutcome::Atomic);
    assert_eq!(target, DirContent::Full(2));
    assert_eq!(src, DirContent::Full(1));
}
