//! The installation lifecycle: a state machine over the steps of one run.
//! The machine decides; the surrounding program performs the action each
//! phase asks for and reports what happened as an event. Every failure
//! path passes through cleanup before the run ends, the uninstaller is
//! written only after the binary is placed, and a declined reinstall
//! leaves the installed files untouched.

use vstd::prelude::*;

use crate::errors::InstallerError;

verus! {

/// How one run ended. A declined reinstall is a success.
#[derive(Debug)]
pub enum RunOutcome {
    Installed { on_path: bool },
    Declined,
    Failed(InstallerError),
}

/// The phase a run is in. `Cleanup` and `Done` carry the outcome the run
/// will report.
#[derive(Debug)]
pub enum Phase {
    CheckExisting,
    Confirm,
    CheckDependencies,
    EnsureDirectories,
    Acquire,
    PlaceBinary,
    WriteUninstaller,
    UpdatePath,
    Verify,
    Cleanup(RunOutcome),
    Done(RunOutcome),
}

/// What the surrounding program must do in a phase.
#[derive(Clone, Copy, Debug, PartialEq, Eq, Structural)]
pub enum Action {
    /// Check whether the binary exists at its canonical location.
    ProbeBinary,
    /// Ask whether to reinstall over the existing binary.
    PromptReinstall,
    /// Check that the required external tools are present.
    CheckTools,
    /// Create the install root, binary directory and scratch directory.
    CreateDirectories,
    /// Run the configured acquisition strategy inside the scratch area.
    RunAcquisition,
    /// Copy the acquired binary into the install root and refresh the
    /// symlink.
    InstallBinary,
    /// Write the uninstaller script into the install root.
    WriteUninstallerScript,
    /// Append the export block to the shell profile if absent.
    IntegratePath,
    /// Re-check the installed binary and whether it resolves from PATH.
    ProbeInstallation,
    /// Remove the scratch directory if present.
    RemoveScratch,
    /// Report the outcome and exit.
    Finish,
}

/// What the surrounding program reports back after an action.
#[derive(Debug)]
pub enum Event {
    /// Whether the binary already exists (after `ProbeBinary`).
    Probed(bool),
    /// The parsed answer to the reinstall prompt (after `PromptReinstall`).
    Answered(bool),
    /// The result of a fallible step (after `CheckTools`,
    /// `CreateDirectories`, `RunAcquisition`, `InstallBinary` or
    /// `WriteUninstallerScript`).
    StepDone(Result<(), InstallerError>),
    /// Whether the profile update went through (after `IntegratePath`);
    /// failure is a warning and never aborts the run.
    PathUpdated(bool),
    /// The verification verdict (after `ProbeInstallation`): on success,
    /// whether the binary resolves from PATH.
    VerifyDone(Result<bool, InstallerError>),
    /// The scratch directory was removed (after `RemoveScratch`).
    Cleaned,
}

/// The abstract state of the host that the run changes: which persisted
/// artifacts exist. One flag per artifact; the filesystem itself is the
/// record, so this is the model the laws speak about.
#[derive(Clone, Copy, Debug, PartialEq, Eq, Structural)]
pub struct HostModel {
    /// The binary inside the install root.
    pub binary_installed: bool,
    /// The symlink in the binary directory (never made on Windows).
    pub symlink_installed: bool,
    /// The uninstaller script inside the install root.
    pub uninstaller_installed: bool,
    /// The install root directory itself.
    pub root_present: bool,
    /// The per-run scratch directory.
    pub scratch_present: bool,
    /// The export block in the shell profile.
    pub profile_has_export: bool,
}

/// A host with nothing installed and nothing left behind.
pub open spec fn spec_fresh_host() -> HostModel {
    HostModel {
        binary_installed: false,
        symlink_installed: false,
        uninstaller_installed: false,
        root_present: false,
        scratch_present: false,
        profile_has_export: false,
    }
}

/// Returns a host with nothing installed.
pub fn fresh_host() -> (r: HostModel)
    ensures
        r == spec_fresh_host(),
{
    HostModel {
        binary_installed: false,
        symlink_installed: false,
        uninstaller_installed: false,
        root_present: false,
        scratch_present: false,
        profile_has_export: false,
    }
}

/// The next phase after an event. An event that does not answer the
/// phase's action changes nothing; `Done` is terminal.
pub open spec fn spec_step(p: Phase, e: Event) -> Phase {
    match (p, e) {
        (Phase::CheckExisting, Event::Probed(exists)) => if exists {
            Phase::Confirm
        } else {
            Phase::CheckDependencies
        },
        (Phase::Confirm, Event::Answered(yes)) => if yes {
            Phase::CheckDependencies
        } else {
            Phase::Cleanup(RunOutcome::Declined)
        },
        (Phase::CheckDependencies, Event::StepDone(r)) => match r {
            Result::Ok(_) => Phase::EnsureDirectories,
            Result::Err(err) => Phase::Cleanup(RunOutcome::Failed(err)),
        },
        (Phase::EnsureDirectories, Event::StepDone(r)) => match r {
            Result::Ok(_) => Phase::Acquire,
            Result::Err(err) => Phase::Cleanup(RunOutcome::Failed(err)),
        },
        (Phase::Acquire, Event::StepDone(r)) => match r {
            Result::Ok(_) => Phase::PlaceBinary,
            Result::Err(err) => Phase::Cleanup(RunOutcome::Failed(err)),
        },
        (Phase::PlaceBinary, Event::StepDone(r)) => match r {
            Result::Ok(_) => Phase::WriteUninstaller,
            Result::Err(err) => Phase::Cleanup(RunOutcome::Failed(err)),
        },
        (Phase::WriteUninstaller, Event::StepDone(r)) => match r {
            Result::Ok(_) => Phase::UpdatePath,
            Result::Err(err) => Phase::Cleanup(RunOutcome::Failed(err)),
        },
        (Phase::UpdatePath, Event::PathUpdated(_)) => Phase::Verify,
        (Phase::Verify, Event::VerifyDone(r)) => match r {
            Result::Ok(on_path) => Phase::Cleanup(RunOutcome::Installed { on_path }),
            Result::Err(err) => Phase::Cleanup(RunOutcome::Failed(err)),
        },
        (Phase::Cleanup(out), Event::Cleaned) => Phase::Done(out),
        (other, _) => other,
    }
}

/// How the host changes when the action of phase `p` ends with event `e`.
pub open spec fn spec_apply(m: HostModel, p: Phase, e: Event, windows: bool) -> HostModel {
    match (p, e) {
        (Phase::EnsureDirectories, Event::StepDone(r)) => HostModel {
            root_present: if r is Ok {
                true
            } else {
                m.root_present
            },
            scratch_present: true,
            ..m
        },
        (Phase::PlaceBinary, Event::StepDone(r)) => if r is Ok {
            HostModel {
                binary_installed: true,
                symlink_installed: if windows {
                    m.symlink_installed
                } else {
                    true
                },
                ..m
            }
        } else {
            m
        },
        (Phase::WriteUninstaller, Event::StepDone(r)) => if r is Ok {
            HostModel { uninstaller_installed: true, ..m }
        } else {
            m
        },
        (Phase::UpdatePath, Event::PathUpdated(ok)) => if ok {
            HostModel { profile_has_export: true, ..m }
        } else {
            m
        },
        (Phase::Cleanup(_), Event::Cleaned) => HostModel { scratch_present: false, ..m },
        _ => m,
    }
}

/// Advances the machine by one event.
pub fn step(p: Phase, e: Event) -> (r: Phase)
    ensures
        r == spec_step(p, e),
{
    match (p, e) {
        (Phase::CheckExisting, Event::Probed(exists)) => if exists {
            Phase::Confirm
        } else {
            Phase::CheckDependencies
        },
        (Phase::Confirm, Event::Answered(yes)) => if yes {
            Phase::CheckDependencies
        } else {
            Phase::Cleanup(RunOutcome::Declined)
        },
        (Phase::CheckDependencies, Event::StepDone(r)) => match r {
            Result::Ok(_) => Phase::EnsureDirectories,
            Result::Err(err) => Phase::Cleanup(RunOutcome::Failed(err)),
        },
        (Phase::EnsureDirectories, Event::StepDone(r)) => match r {
            Result::Ok(_) => Phase::Acquire,
            Result::Err(err) => Phase::Cleanup(RunOutcome::Failed(err)),
        },
        (Phase::Acquire, Event::StepDone(r)) => match r {
            Result::Ok(_) => Phase::PlaceBinary,
            Result::Err(err) => Phase::Cleanup(RunOutcome::Failed(err)),
        },
        (Phase::PlaceBinary, Event::StepDone(r)) => match r {
            Result::Ok(_) => Phase::WriteUninstaller,
            Result::Err(err) => Phase::Cleanup(RunOutcome::Failed(err)),
        },
        (Phase::WriteUninstaller, Event::StepDone(r)) => match r {
            Result::Ok(_) => Phase::UpdatePath,
            Result::Err(err) => Phase::Cleanup(RunOutcome::Failed(err)),
        },
        (Phase::UpdatePath, Event::PathUpdated(_)) => Phase::Verify,
        (Phase::Verify, Event::VerifyDone(r)) => match r {
            Result::Ok(on_path) => Phase::Cleanup(RunOutcome::Installed { on_path }),
            Result::Err(err) => Phase::Cleanup(RunOutcome::Failed(err)),
        },
        (Phase::Cleanup(out), Event::Cleaned) => Phase::Done(out),
        (other, _) => other,
    }
}

/// Applies the host change for one event.
pub fn apply(m: HostModel, p: &Phase, e: &Event, windows: bool) -> (r: HostModel)
    ensures
        r == spec_apply(m, *p, *e, windows),
{
    match (p, e) {
        (Phase::EnsureDirectories, Event::StepDone(res)) => HostModel {
            root_present: if res.is_ok() {
                true
            } else {
                m.root_present
            },
            scratch_present: true,
            ..m
        },
        (Phase::PlaceBinary, Event::StepDone(res)) => if res.is_ok() {
            HostModel {
                binary_installed: true,
                symlink_installed: if windows {
                    m.symlink_installed
                } else {
                    true
                },
                ..m
            }
        } else {
            m
        },
        (Phase::WriteUninstaller, Event::StepDone(res)) => if res.is_ok() {
            HostModel { uninstaller_installed: true, ..m }
        } else {
            m
        },
        (Phase::UpdatePath, Event::PathUpdated(ok)) => if *ok {
            HostModel { profile_has_export: true, ..m }
        } else {
            m
        },
        (Phase::Cleanup(_), Event::Cleaned) => HostModel { scratch_present: false, ..m },
        _ => m,
    }
}

/// The action the surrounding program must perform in a phase.
pub fn action_of(p: &Phase) -> (a: Action)
    ensures
        a == match *p {
            Phase::CheckExisting => Action::ProbeBinary,
            Phase::Confirm => Action::PromptReinstall,
            Phase::CheckDependencies => Action::CheckTools,
            Phase::EnsureDirectories => Action::CreateDirectories,
            Phase::Acquire => Action::RunAcquisition,
            Phase::PlaceBinary => Action::InstallBinary,
            Phase::WriteUninstaller => Action::WriteUninstallerScript,
            Phase::UpdatePath => Action::IntegratePath,
            Phase::Verify => Action::ProbeInstallation,
            Phase::Cleanup(_) => Action::RemoveScratch,
            Phase::Done(_) => Action::Finish,
        },
{
    match p {
        Phase::CheckExisting => Action::ProbeBinary,
        Phase::Confirm => Action::PromptReinstall,
        Phase::CheckDependencies => Action::CheckTools,
        Phase::EnsureDirectories => Action::CreateDirectories,
        Phase::Acquire => Action::RunAcquisition,
        Phase::PlaceBinary => Action::InstallBinary,
        Phase::WriteUninstaller => Action::WriteUninstallerScript,
        Phase::UpdatePath => Action::IntegratePath,
        Phase::Verify => Action::ProbeInstallation,
        Phase::Cleanup(_) => Action::RemoveScratch,
        Phase::Done(_) => Action::Finish,
    }
}

/// The process exit for an outcome: a declined reinstall is a success.
pub fn exit_code(out: &RunOutcome) -> (r: i32)
    ensures
        r == 0 <==> !(out is Failed),
        r == 0 || r == 1,
{
    match out {
        RunOutcome::Installed { .. } => 0,
        RunOutcome::Declined => 0,
        RunOutcome::Failed(_) => 1,
    }
}

/// The machine run over a whole sequence of events.
pub open spec fn spec_run(p: Phase, m: HostModel, evs: Seq<Event>, windows: bool) -> (
    Phase,
    HostModel,
)
    decreases evs.len(),
{
    if evs.len() == 0 {
        (p, m)
    } else {
        spec_run(
            spec_step(p, evs[0]),
            spec_apply(m, p, evs[0], windows),
            evs.subrange(1, evs.len() as int),
            windows,
        )
    }
}

/// The phase trajectory depends on the events alone, never on what is
/// already on the host: an install after a full uninstall goes through
/// exactly the phases of a first-time install.
pub proof fn lemma_phases_ignore_host(
    p: Phase,
    m1: HostModel,
    m2: HostModel,
    evs: Seq<Event>,
    w1: bool,
    w2: bool,
)
    ensures
        spec_run(p, m1, evs, w1).0 == spec_run(p, m2, evs, w2).0,
    decreases evs.len(),
{
    if evs.len() > 0 {
        lemma_phases_ignore_host(
            spec_step(p, evs[0]),
            spec_apply(m1, p, evs[0], w1),
            spec_apply(m2, p, evs[0], w2),
            evs.subrange(1, evs.len() as int),
            w1,
            w2,
        );
    }
}

/// The cleanup guarantee, as an invariant: a finished run has no scratch
/// directory left, whatever its outcome.
pub open spec fn spec_scratch_inv(p: Phase, m: HostModel) -> bool {
    p matches Phase::Done(_) ==> !m.scratch_present
}

/// One step keeps the cleanup guarantee: the only way into `Done` is
/// through `Cleanup`, whose action removes the scratch directory.
proof fn lemma_step_keeps_scratch_inv(p: Phase, m: HostModel, e: Event, windows: bool)
    requires
        spec_scratch_inv(p, m),
    ensures
        spec_scratch_inv(spec_step(p, e), spec_apply(m, p, e, windows)),
{
}

/// Cleanup guarantee: for every run outcome — success, declined
/// reinstall, or any fatal error — a run that has finished leaves no
/// scratch directory behind.
pub proof fn lemma_cleanup_guarantee(m0: HostModel, evs: Seq<Event>, windows: bool)
    ensures
        spec_run(Phase::CheckExisting, m0, evs, windows).0 matches Phase::Done(_)
            ==> !spec_run(Phase::CheckExisting, m0, evs, windows).1.scratch_present,
{
    lemma_scratch_inv_preserved(Phase::CheckExisting, m0, evs, windows);
}

/// The cleanup invariant carried over a whole run.
proof fn lemma_scratch_inv_preserved(p: Phase, m: HostModel, evs: Seq<Event>, windows: bool)
    requires
        spec_scratch_inv(p, m),
    ensures
        spec_scratch_inv(spec_run(p, m, evs, windows).0, spec_run(p, m, evs, windows).1),
    decreases evs.len(),
{
    if evs.len() > 0 {
        lemma_step_keeps_scratch_inv(p, m, evs[0], windows);
        lemma_scratch_inv_preserved(
            spec_step(p, evs[0]),
            spec_apply(m, p, evs[0], windows),
            evs.subrange(1, evs.len() as int),
            windows,
        );
    }
}

/// The ordering invariant: the uninstaller never exists without the
/// binary, and the uninstaller-writing phase is only ever entered with
/// the binary already placed.
pub open spec fn spec_ordering_inv(p: Phase, m: HostModel) -> bool {
    &&& m.uninstaller_installed ==> m.binary_installed
    &&& match p {
        Phase::WriteUninstaller | Phase::UpdatePath | Phase::Verify => m.binary_installed,
        _ => true,
    }
}

/// One step keeps the ordering invariant.
proof fn lemma_step_keeps_ordering_inv(p: Phase, m: HostModel, e: Event, windows: bool)
    requires
        spec_ordering_inv(p, m),
    ensures
        spec_ordering_inv(spec_step(p, e), spec_apply(m, p, e, windows)),
{
}

/// The ordering invariant carried over a whole run.
proof fn lemma_ordering_inv_preserved(p: Phase, m: HostModel, evs: Seq<Event>, windows: bool)
    requires
        spec_ordering_inv(p, m),
    ensures
        spec_ordering_inv(spec_run(p, m, evs, windows).0, spec_run(p, m, evs, windows).1),
    decreases evs.len(),
{
    if evs.len() > 0 {
        lemma_step_keeps_ordering_inv(p, m, evs[0], windows);
        lemma_ordering_inv_preserved(
            spec_step(p, evs[0]),
            spec_apply(m, p, evs[0], windows),
            evs.subrange(1, evs.len() as int),
            windows,
        );
    }
}

/// Ordering invariant: on a host that does not already carry an
/// uninstaller without its binary, no run — complete or interrupted at
/// any point — ever leaves the uninstaller existing without the binary.
pub proof fn lemma_uninstaller_implies_binary(m0: HostModel, evs: Seq<Event>, windows: bool)
    requires
        m0.uninstaller_installed ==> m0.binary_installed,
    ensures
        spec_run(Phase::CheckExisting, m0, evs, windows).1.uninstaller_installed ==> spec_run(
            Phase::CheckExisting,
            m0,
            evs,
            windows,
        ).1.binary_installed,
{
    lemma_ordering_inv_preserved(Phase::CheckExisting, m0, evs, windows);
}

/// The install invariant: what each phase of a run can rely on having
/// been placed already, and what a successful outcome guarantees.
pub open spec fn spec_success_inv(p: Phase, m: HostModel, windows: bool) -> bool {
    match p {
        Phase::Acquire | Phase::PlaceBinary => m.root_present,
        Phase::WriteUninstaller => m.root_present && m.binary_installed && (!windows
            ==> m.symlink_installed),
        Phase::UpdatePath | Phase::Verify => m.root_present && m.binary_installed
            && m.uninstaller_installed && (!windows ==> m.symlink_installed),
        Phase::Cleanup(RunOutcome::Installed { .. }) | Phase::Done(
            RunOutcome::Installed { .. },
        ) => m.root_present && m.binary_installed && m.uninstaller_installed && (!windows
            ==> m.symlink_installed),
        _ => true,
    }
}

/// One step keeps the install invariant.
proof fn lemma_step_keeps_success_inv(p: Phase, m: HostModel, e: Event, windows: bool)
    requires
        spec_success_inv(p, m, windows),
    ensures
        spec_success_inv(spec_step(p, e), spec_apply(m, p, e, windows), windows),
{
}

/// The install invariant carried over a whole run.
proof fn lemma_success_inv_preserved(p: Phase, m: HostModel, evs: Seq<Event>, windows: bool)
    requires
        spec_success_inv(p, m, windows),
    ensures
        spec_success_inv(
            spec_run(p, m, evs, windows).0,
            spec_run(p, m, evs, windows).1,
            windows,
        ),
    decreases evs.len(),
{
    if evs.len() > 0 {
        lemma_step_keeps_success_inv(p, m, evs[0], windows);
        lemma_success_inv_preserved(
            spec_step(p, evs[0]),
            spec_apply(m, p, evs[0], windows),
            evs.subrange(1, evs.len() as int),
            windows,
        );
    }
}

/// A run that reports success has really installed: the binary, the
/// uninstaller and the install root are present, the symlink too on
/// hosts that are not Windows, and the scratch directory is gone.
pub proof fn lemma_success_means_installed(m0: HostModel, evs: Seq<Event>, windows: bool)
    ensures
        spec_run(Phase::CheckExisting, m0, evs, windows).0 matches Phase::Done(
            RunOutcome::Installed { .. },
        ) ==> {
            let m = spec_run(Phase::CheckExisting, m0, evs, windows).1;
            m.binary_installed && m.uninstaller_installed && m.root_present && (!windows
                ==> m.symlink_installed) && !m.scratch_present
        },
{
    lemma_success_inv_preserved(Phase::CheckExisting, m0, evs, windows);
    lemma_scratch_inv_preserved(Phase::CheckExisting, m0, evs, windows);
}

/// The reinstall gate, as an invariant: on the path to a declined run the
/// host is untouched, and a declined run has only removed its scratch
/// directory.
pub open spec fn spec_declined_inv(p: Phase, m: HostModel, m0: HostModel) -> bool {
    match p {
        Phase::CheckExisting | Phase::Confirm => m == m0,
        Phase::Cleanup(RunOutcome::Declined) => m == m0,
        Phase::Done(RunOutcome::Declined) => m == HostModel { scratch_present: false, ..m0 },
        _ => true,
    }
}

/// One step keeps the reinstall gate.
proof fn lemma_step_keeps_declined_inv(
    p: Phase,
    m: HostModel,
    m0: HostModel,
    e: Event,
    windows: bool,
)
    requires
        spec_declined_inv(p, m, m0),
    ensures
        spec_declined_inv(spec_step(p, e), spec_apply(m, p, e, windows), m0),
{
}

/// The reinstall gate carried over a whole run.
proof fn lemma_declined_inv_preserved(
    p: Phase,
    m: HostModel,
    m0: HostModel,
    evs: Seq<Event>,
    windows: bool,
)
    requires
        spec_declined_inv(p, m, m0),
    ensures
        spec_declined_inv(
            spec_run(p, m, evs, windows).0,
            spec_run(p, m, evs, windows).1,
            m0,
        ),
    decreases evs.len(),
{
    if evs.len() > 0 {
        lemma_step_keeps_declined_inv(p, m, m0, evs[0], windows);
        lemma_declined_inv_preserved(
            spec_step(p, evs[0]),
            spec_apply(m, p, evs[0], windows),
            m0,
            evs.subrange(1, evs.len() as int),
            windows,
        );
    }
}

/// Reinstall gate: a run that ends with the reinstall prompt declined
/// leaves every installed artifact exactly as it found it — binary,
/// symlink, uninstaller, install root and profile are untouched; only
/// the scratch directory is gone.
pub proof fn lemma_declined_leaves_host_unchanged(
    m0: HostModel,
    evs: Seq<Event>,
    windows: bool,
)
    ensures
        spec_run(Phase::CheckExisting, m0, evs, windows).0 matches Phase::Done(
            RunOutcome::Declined,
        ) ==> spec_run(Phase::CheckExisting, m0, evs, windows).1 == (HostModel {
            scratch_present: false,
            ..m0
        }),
{
    lemma_declined_inv_preserved(Phase::CheckExisting, m0, m0, evs, windows);
}

/// What a full uninstall leaves: binary, symlink, uninstaller and install
/// root are gone; the profile's export block stays, by design.
pub open spec fn spec_apply_uninstall(m: HostModel) -> HostModel {
    HostModel {
        binary_installed: false,
        symlink_installed: false,
        uninstaller_installed: false,
        root_present: false,
        ..m
    }
}

/// Applies an uninstall to the host model.
pub fn apply_uninstall(m: HostModel) -> (r: HostModel)
    ensures
        r == spec_apply_uninstall(m),
{
    HostModel {
        binary_installed: false,
        symlink_installed: false,
        uninstaller_installed: false,
        root_present: false,
        ..m
    }
}

/// Round trip: install followed by uninstall leaves the install root and
/// the symlink absent — whatever the install did — and a later install
/// from that state goes through exactly the phases of a first-time
/// install, since the trajectory never reads the host.
pub proof fn lemma_round_trip(m: HostModel, evs: Seq<Event>, windows: bool)
    ensures
        !spec_apply_uninstall(m).binary_installed,
        !spec_apply_uninstall(m).symlink_installed,
        !spec_apply_uninstall(m).uninstaller_installed,
        !spec_apply_uninstall(m).root_present,
        spec_run(Phase::CheckExisting, spec_apply_uninstall(m), evs, windows).0 == spec_run(
            Phase::CheckExisting,
            spec_fresh_host(),
            evs,
            windows,
        ).0,
{
    lemma_phases_ignore_host(
        Phase::CheckExisting,
        spec_apply_uninstall(m),
        spec_fresh_host(),
        evs,
        windows,
        windows,
    );
}

} // verus!
