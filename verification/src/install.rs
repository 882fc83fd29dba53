//! The archive installer: extraction into a staging directory and the
//! two-phase atomic-swap promotion into the live install directory.
//!
//! The filesystem work — unpacking, the directory exchange, deletes and
//! renames — is performed by the unverified shell. This module keeps the
//! model of the three directories involved and decides every step of the
//! protocol; the shell performs each operation and reports whether it
//! succeeded. What the protocol guarantees — the live directory holds a
//! whole install at every observable instant of the atomic path, and the
//! fallback still makes progress when the atomic primitive fails — is stated
//! and proved here.

use vstd::prelude::*;

verus! {

/// What a directory holds, as an observer of the model sees it. Versions are
/// abstract tags.
#[derive(Debug, PartialEq, Eq, Structural, Clone, Copy)]
pub enum DirContent {
    /// No directory at this path.
    Absent,
    /// A partially extracted tree of the tagged version: never a state the
    /// live directory may show.
    Partial(u64),
    /// A complete tree of the tagged version.
    Full(u64),
}

/// Which path a promotion swap used.
#[derive(Debug, PartialEq, Eq, Structural, Clone, Copy)]
pub enum SwapOutcome {
    /// The single atomic directory exchange.
    Atomic,
    /// The primitive failed or is unavailable; delete-then-rename was used
    /// instead.
    FallbackApplied,
}

/// Why an install attempt failed. None of these is retried automatically.
#[derive(Debug, PartialEq, Eq, Structural, Clone, Copy)]
pub enum InstallError {
    /// Unpacking the archive into the staging directory failed.
    ExtractFailed,
    /// The archive held no top-level payload entry.
    NoPayload,
    /// Mid-fallback, deleting the old directory failed.
    RemoveFailed,
    /// Mid-fallback, renaming the staged payload into place failed: the
    /// target path is left with no install, which is fatal for this attempt.
    RenameFailed,
}

/// The model of the three directories the installer touches.
#[derive(Debug, PartialEq, Eq, Structural, Clone, Copy)]
pub struct Volume {
    /// The scratch directory the archive is unpacked into.
    pub staging: DirContent,
    /// The staging install directory a new version is promoted from.
    pub new_install: DirContent,
    /// The live install directory the managed binary runs from.
    pub live: DirContent,
}

/// Unpacks the archive into the staging directory, mirroring what the
/// shell's extraction did: on success the staging directory holds the whole
/// new version; on failure it is left partial and the attempt fails. The
/// other directories are untouched either way — extraction never writes to
/// the install paths.
pub fn extract_to_staging(v: &mut Volume, version: u64, extract_ok: bool) -> (r: Result<
    (),
    InstallError,
>)
    ensures
        final(v).new_install == old(v).new_install,
        final(v).live == old(v).live,
        extract_ok ==> {
            &&& r == Ok::<(), InstallError>(())
            &&& final(v).staging == DirContent::Full(version)
        },
        !extract_ok ==> {
            &&& r == Err::<(), InstallError>(InstallError::ExtractFailed)
            &&& final(v).staging == DirContent::Partial(version)
        },
{
    if extract_ok {
        v.staging = DirContent::Full(version);
        Ok(())
    } else {
        v.staging = DirContent::Partial(version);
        Err(InstallError::ExtractFailed)
    }
}

/// One promotion: atomically exchange the source and target directories, or
/// fall back to delete-then-rename. The shell attempts the real operations
/// in this order and reports each outcome; this function mirrors their
/// effect on the model and decides the protocol.
///
/// - The atomic exchange succeeds: source and target swap in one step, and
///   no observer ever sees the target missing or partial.
/// - Otherwise the old target is deleted, then the source renamed into
///   place: on success the outcome says the fallback was applied; a failed
///   delete changes nothing; a failed rename leaves no install at the
///   target, surfaced as fatal.
pub fn atomic_swap_with_fallback(
    src: &mut DirContent,
    target: &mut DirContent,
    atomic_ok: bool,
    remove_ok: bool,
    rename_ok: bool,
) -> (r: Result<SwapOutcome, InstallError>)
    ensures
        atomic_ok ==> {
            &&& r == Ok::<SwapOutcome, InstallError>(SwapOutcome::Atomic)
            &&& *final(src) == *old(target)
            &&& *final(target) == *old(src)
        },
        !atomic_ok && !remove_ok ==> {
            &&& r == Err::<SwapOutcome, InstallError>(InstallError::RemoveFailed)
            &&& *final(src) == *old(src)
            &&& *final(target) == *old(target)
        },
        !atomic_ok && remove_ok && !rename_ok ==> {
            &&& r == Err::<SwapOutcome, InstallError>(InstallError::RenameFailed)
            &&& *final(src) == *old(src)
            &&& *final(target) == DirContent::Absent
        },
        !atomic_ok && remove_ok && rename_ok ==> {
            &&& r == Ok::<SwapOutcome, InstallError>(SwapOutcome::FallbackApplied)
            &&& *final(src) == DirContent::Absent
            &&& *final(target) == *old(src)
        },
{
    if atomic_ok {
        let t = *target;
        *target = *src;
        *src = t;
        Ok(SwapOutcome::Atomic)
    } else if !remove_ok {
        Err(InstallError::RemoveFailed)
    } else {
        *target = DirContent::Absent;
        if !rename_ok {
            Err(InstallError::RenameFailed)
        } else {
            *target = *src;
            *src = DirContent::Absent;
            Ok(SwapOutcome::FallbackApplied)
        }
    }
}

/// The success condition of a promotion given how the shell's three
/// operations fared.
pub open spec fn swap_succeeds(atomic_ok: bool, remove_ok: bool, rename_ok: bool) -> bool {
    atomic_ok || (remove_ok && rename_ok)
}

/// The outcome tag a successful promotion reports.
pub open spec fn swap_outcome(atomic_ok: bool) -> SwapOutcome {
    if atomic_ok {
        SwapOutcome::Atomic
    } else {
        SwapOutcome::FallbackApplied
    }
}

/// The error a failed promotion reports: the fallback's delete failed, or
/// else its rename did.
pub open spec fn swap_error(remove_ok: bool, rename_ok: bool) -> InstallError {
    if !remove_ok {
        InstallError::RemoveFailed
    } else {
        InstallError::RenameFailed
    }
}

/// What a failed promotion leaves at the target: a failed delete changes
/// nothing, while a failed rename after the delete leaves no install there.
pub open spec fn failed_swap_target(remove_ok: bool, was: DirContent) -> DirContent {
    if !remove_ok {
        was
    } else {
        DirContent::Absent
    }
}

/// How the shell's filesystem operations fared during one install: whether
/// extraction succeeded, and the three operations of each of the two
/// promotions.
#[derive(Debug, PartialEq, Eq, Structural, Clone, Copy)]
pub struct InstallEvents {
    pub extract_ok: bool,
    /// Whether a single top-level extracted entry — the payload directory —
    /// was found in the staging scratch space.
    pub payload_found: bool,
    pub stage_atomic_ok: bool,
    pub stage_remove_ok: bool,
    pub stage_rename_ok: bool,
    pub live_atomic_ok: bool,
    pub live_remove_ok: bool,
    pub live_rename_ok: bool,
    /// Whether the best-effort cleanup of the stale staging install
    /// directory succeeded; its failure is logged, never propagated.
    pub cleanup_ok: bool,
}

/// The full install protocol on the model: extract into staging, locate the
/// payload — the single top-level extracted entry, without which the install
/// fails — promote it to the new-install directory, and — when the live
/// directory is a distinct path — promote new-install to live, cleaning up
/// the stale new-install directory only when that second promotion was truly
/// atomic.
///
/// `two_phase` says whether the live path differs from the new-install path;
/// when it does not, the first promotion targets the live directory itself.
/// On success the live directory holds the whole new version, and the
/// returned tag says which path its promotion took.
pub fn install(v: &mut Volume, version: u64, two_phase: bool, ev: InstallEvents) -> (r: Result<
    SwapOutcome,
    InstallError,
>)
    ensures
        !ev.extract_ok ==> r == Err::<SwapOutcome, InstallError>(InstallError::ExtractFailed)
            && final(v).live == old(v).live && final(v).new_install == old(v).new_install,
        ev.extract_ok && !ev.payload_found ==> r == Err::<SwapOutcome, InstallError>(
            InstallError::NoPayload,
        ) && final(v).live == old(v).live && final(v).new_install == old(v).new_install,
        ev.extract_ok && ev.payload_found && !two_phase ==> {
            &&& final(v).new_install == old(v).new_install
            &&& (swap_succeeds(ev.live_atomic_ok, ev.live_remove_ok, ev.live_rename_ok) ==> {
                &&& r == Ok::<SwapOutcome, InstallError>(swap_outcome(ev.live_atomic_ok))
                &&& final(v).live == DirContent::Full(version)
            })
            &&& (!swap_succeeds(ev.live_atomic_ok, ev.live_remove_ok, ev.live_rename_ok) ==> {
                &&& r == Err::<SwapOutcome, InstallError>(swap_error(
                    ev.live_remove_ok,
                    ev.live_rename_ok,
                ))
                &&& final(v).live == failed_swap_target(ev.live_remove_ok, old(v).live)
            })
        },
        ev.extract_ok && ev.payload_found && two_phase ==> {
            &&& (!swap_succeeds(ev.stage_atomic_ok, ev.stage_remove_ok, ev.stage_rename_ok) ==> {
                &&& r == Err::<SwapOutcome, InstallError>(swap_error(
                    ev.stage_remove_ok,
                    ev.stage_rename_ok,
                ))
                &&& final(v).live == old(v).live
            })
            &&& (swap_succeeds(ev.stage_atomic_ok, ev.stage_remove_ok, ev.stage_rename_ok) ==> {
                &&& (swap_succeeds(ev.live_atomic_ok, ev.live_remove_ok, ev.live_rename_ok) ==> {
                    &&& r == Ok::<SwapOutcome, InstallError>(swap_outcome(ev.live_atomic_ok))
                    &&& final(v).live == DirContent::Full(version)
                    &&& (ev.live_atomic_ok && ev.cleanup_ok ==> final(v).new_install
                        == DirContent::Absent)
                })
                &&& (!swap_succeeds(ev.live_atomic_ok, ev.live_remove_ok, ev.live_rename_ok)
                    ==> {
                    &&& r == Err::<SwapOutcome, InstallError>(swap_error(
                        ev.live_remove_ok,
                        ev.live_rename_ok,
                    ))
                    &&& final(v).live == failed_swap_target(ev.live_remove_ok, old(v).live)
                })
            })
        },
{
    extract_to_staging(v, version, ev.extract_ok)?;
    if !ev.payload_found {
        return Err(InstallError::NoPayload);
    }
    if !two_phase {
        let outcome = atomic_swap_with_fallback(
            &mut v.staging,
            &mut v.live,
            ev.live_atomic_ok,
            ev.live_remove_ok,
            ev.live_rename_ok,
        )?;
        Ok(outcome)
    } else {
        atomic_swap_with_fallback(
            &mut v.staging,
            &mut v.new_install,
            ev.stage_atomic_ok,
            ev.stage_remove_ok,
            ev.stage_rename_ok,
        )?;
        let outcome = atomic_swap_with_fallback(
            &mut v.new_install,
            &mut v.live,
            ev.live_atomic_ok,
            ev.live_remove_ok,
            ev.live_rename_ok,
        )?;
        if matches!(outcome, SwapOutcome::Atomic) && ev.cleanup_ok {
            // Best-effort cleanup of the now-stale new-install directory;
            // only safe when the promotion was truly atomic.
            v.new_install = DirContent::Absent;
        }
        Ok(outcome)
    }
}

/// The directories the installer's filesystem steps name.
#[derive(Debug, PartialEq, Eq, Structural, Clone, Copy)]
pub enum Loc {
    Staging,
    NewInstall,
    Live,
}

/// One observable filesystem step of the install protocol.
#[derive(Debug, PartialEq, Eq, Structural, Clone, Copy)]
pub enum FsStep {
    /// Unpack the archive, wholly, into the staging directory.
    ExtractInto(u64),
    /// Atomically exchange two directories.
    Exchange(Loc, Loc),
    /// Recursively delete a directory.
    Remove(Loc),
    /// Rename the first directory onto the second.
    Rename(Loc, Loc),
}

/// What a directory of the model holds.
pub open spec fn loc_get(v: Volume, l: Loc) -> DirContent {
    match l {
        Loc::Staging => v.staging,
        Loc::NewInstall => v.new_install,
        Loc::Live => v.live,
    }
}

/// The model with one directory's content replaced.
pub open spec fn loc_set(v: Volume, l: Loc, c: DirContent) -> Volume {
    match l {
        Loc::Staging => Volume { staging: c, ..v },
        Loc::NewInstall => Volume { new_install: c, ..v },
        Loc::Live => Volume { live: c, ..v },
    }
}

/// The model after one step.
pub open spec fn apply_step(v: Volume, s: FsStep) -> Volume {
    match s {
        FsStep::ExtractInto(ver) => loc_set(v, Loc::Staging, DirContent::Full(ver)),
        FsStep::Exchange(a, b) => loc_set(loc_set(v, a, loc_get(v, b)), b, loc_get(v, a)),
        FsStep::Remove(l) => loc_set(v, l, DirContent::Absent),
        FsStep::Rename(a, b) => loc_set(loc_set(v, b, loc_get(v, a)), a, DirContent::Absent),
    }
}

/// The model after a sequence of steps.
pub open spec fn volume_after(v0: Volume, steps: Seq<FsStep>) -> Volume
    decreases steps.len(),
{
    if steps.len() == 0 {
        v0
    } else {
        apply_step(volume_after(v0, steps.drop_last()), steps.last())
    }
}

/// The steps of an install whose promotions both take the atomic path:
/// extract into staging, exchange staging with the new-install directory,
/// exchange that with the live directory, and clean the stale new-install
/// directory up.
pub open spec fn atomic_install_steps(version: u64) -> Seq<FsStep> {
    seq![
        FsStep::ExtractInto(version),
        FsStep::Exchange(Loc::Staging, Loc::NewInstall),
        FsStep::Exchange(Loc::NewInstall, Loc::Live),
        FsStep::Remove(Loc::NewInstall),
    ]
}

/// The atomic-swap property: at every observable instant of an atomic-path
/// install — after any prefix of its steps — the live directory holds either
/// the whole old install or the whole new one, never a partial tree and
/// never nothing; and when the steps are done it holds the new one.
pub proof fn lemma_atomic_install_observes_whole_installs(v0: Volume, version: u64, i: int)
    requires
        v0.live is Full,
        0 <= i <= atomic_install_steps(version).len(),
    ensures
        volume_after(v0, atomic_install_steps(version).take(i)).live == v0.live || volume_after(
            v0,
            atomic_install_steps(version).take(i),
        ).live == DirContent::Full(version),
        i == atomic_install_steps(version).len() ==> volume_after(
            v0,
            atomic_install_steps(version).take(i),
        ).live == DirContent::Full(version),
{
    let steps = atomic_install_steps(version);
    let v1 = apply_step(v0, steps[0]);
    let v2 = apply_step(v1, steps[1]);
    let v3 = apply_step(v2, steps[2]);
    let v4 = apply_step(v3, steps[3]);
    assert(steps.take(0) =~= Seq::<FsStep>::empty());
    assert(steps.take(1).drop_last() =~= steps.take(0));
    assert(steps.take(2).drop_last() =~= steps.take(1));
    assert(steps.take(3).drop_last() =~= steps.take(2));
    assert(steps.take(4).drop_last() =~= steps.take(3));
    assert(volume_after(v0, steps.take(0)) == v0);
    assert(volume_after(v0, steps.take(1)) == v1);
    assert(volume_after(v0, steps.take(2)) == v2);
    assert(volume_after(v0, steps.take(3)) == v3);
    assert(volume_after(v0, steps.take(4)) == v4);
    assert(v1.live == v0.live);
    assert(v2.live == v0.live);
    assert(v2.new_install == DirContent::Full(version));
    assert(v3.live == DirContent::Full(version));
    assert(v4.live == DirContent::Full(version));
}

} // verus!
