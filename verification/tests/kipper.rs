use kipper::build_run::{binary_name, build_outcome, build_output, locate_binary};
use kipper::cli::{help_text, parse_arg, version_text, CliCommand};
use kipper::errors::{ErrorKind, InstallerError};
use kipper::installer::Installer;
use kipper::lifecycle::{
    action_of, apply, apply_uninstall, exit_code, fresh_host, step, Action, Event, HostModel,
    Phase, RunOutcome,
};
use kipper::paths::{join, resolve};
use kipper::profile::{export_line, integrate, profile_block, profile_file};
use kipper::prompt::answer_is_yes;
use kipper::strategy::{
    clone_outcome, download_outcome, prebuilt_url, repo_url, tarball_url, Variant,
};
use kipper::text::{contains_str, str_eq, u64_to_dec};
use kipper::triple::{triple_of, Arch, Os, TargetTriple};

fn posix_installer(variant: Variant) -> Installer {
    Installer::new(
        Some("/home/user".to_string()),
        None,
        false,
        "/tmp",
        4242,
        variant,
    )
    .unwrap()
}

fn run_machine(
    mut phase: Phase,
    mut model: HostModel,
    events: Vec<Event>,
    windows: bool,
) -> (Phase, HostModel) {
    for e in events {
        model = apply(model, &phase, &e, windows);
        phase = step(phase, e);
    }
    (phase, model)
}

fn count_occurrences(hay: &str, needle: &str) -> usize {
    if needle.is_empty() {
        return 0;
    }
    let mut n = 0;
    let mut start = 0;
    while let Some(i) = hay[start..].find(needle) {
        n += 1;
        start += i + 1;
    }
    n
}

#[test]
fn integrator_appends_once() {
    let content = "# my profile\nalias ll='ls -l'\n";
    let line = export_line("/home/user/.local/bin");
    assert_eq!(line, "export PATH=\"/home/user/.local/bin:$PATH\"");
    let (once, appended) = integrate(content, "/home/user/.local/bin");
    assert!(appended);
    assert_eq!(
        once,
        format!(
            "{}\n# Kopi Environment\nexport PATH=\"/home/user/.local/bin:$PATH\"\n",
            content
        )
    );
    assert_eq!(count_occurrences(&once, &line), 1);
}

#[test]
fn integrator_is_idempotent() {
    let content = "export EDITOR=vi\n";
    let (once, first) = integrate(content, "/home/user/.local/bin");
    let (twice, second) = integrate(&once, "/home/user/.local/bin");
    assert!(first);
    assert!(!second);
    assert_eq!(once, twice);
    let line = export_line("/home/user/.local/bin");
    assert_eq!(count_occurrences(&twice, &line), 1);
}

#[test]
fn integrator_leaves_existing_line_alone() {
    let line = export_line("/home/user/.local/bin");
    let content = format!("# set up by hand\n{}\n", line);
    let (out, appended) = integrate(&content, "/home/user/.local/bin");
    assert!(!appended);
    assert_eq!(out, content);
}

#[test]
fn profile_block_holds_comment_and_line() {
    let block = profile_block("/b");
    assert_eq!(block, "\n# Kopi Environment\nexport PATH=\"/b:$PATH\"\n");
}

#[test]
fn profile_file_matches_shell_family() {
    assert_eq!(profile_file("/home/u", Some("/usr/bin/zsh")), "/home/u/.zshrc");
    assert_eq!(profile_file("/home/u", Some("/bin/bash")), "/home/u/.bashrc");
    assert_eq!(
        profile_file("/home/u", Some("/usr/bin/fish")),
        "/home/u/.config/fish/config.fish"
    );
    assert_eq!(profile_file("/home/u", Some("/bin/dash")), "/home/u/.profile");
    assert_eq!(profile_file("/home/u", None), "/home/u/.profile");
}

#[test]
fn declined_reinstall_leaves_host_unchanged_and_exits_zero() {
    let m0 = HostModel {
        binary_installed: true,
        symlink_installed: true,
        uninstaller_installed: true,
        root_present: true,
        scratch_present: false,
        profile_has_export: true,
    };
    let events = vec![Event::Probed(true), Event::Answered(false), Event::Cleaned];
    let (phase, m) = run_machine(Phase::CheckExisting, m0, events, false);
    assert!(matches!(phase, Phase::Done(RunOutcome::Declined)));
    assert_eq!(m, m0);
    if let Phase::Done(out) = phase {
        assert_eq!(exit_code(&out), 0);
    }
}

fn success_events() -> Vec<Event> {
    vec![
        Event::Probed(false),
        Event::StepDone(Ok(())),
        Event::StepDone(Ok(())),
        Event::StepDone(Ok(())),
        Event::StepDone(Ok(())),
        Event::StepDone(Ok(())),
        Event::PathUpdated(true),
        Event::VerifyDone(Ok(true)),
        Event::Cleaned,
    ]
}

#[test]
fn fresh_install_reaches_done_with_everything_placed() {
    let (phase, m) = run_machine(Phase::CheckExisting, fresh_host(), success_events(), false);
    assert!(matches!(
        phase,
        Phase::Done(RunOutcome::Installed { on_path: true })
    ));
    assert!(m.binary_installed);
    assert!(m.symlink_installed);
    assert!(m.uninstaller_installed);
    assert!(m.root_present);
    assert!(m.profile_has_export);
    assert!(!m.scratch_present);
    if let Phase::Done(out) = phase {
        assert_eq!(exit_code(&out), 0);
    }
}

#[test]
fn failed_acquire_still_cleans_scratch() {
    let events = vec![
        Event::Probed(false),
        Event::StepDone(Ok(())),
        Event::StepDone(Ok(())),
        Event::StepDone(Err(InstallerError::Acquisition("clone failed".to_string()))),
        Event::Cleaned,
    ];
    let (phase, m) = run_machine(Phase::CheckExisting, fresh_host(), events, false);
    assert!(matches!(phase, Phase::Done(RunOutcome::Failed(_))));
    assert!(!m.scratch_present);
    assert!(!m.binary_installed);
    assert!(!m.uninstaller_installed);
    if let Phase::Done(out) = phase {
        assert_eq!(exit_code(&out), 1);
    }
}

#[test]
fn uninstaller_never_exists_without_binary() {
    let mut phase = Phase::CheckExisting;
    let mut m = fresh_host();
    for e in vec![
        Event::Probed(false),
        Event::StepDone(Ok(())),
        Event::StepDone(Ok(())),
        Event::StepDone(Ok(())),
        Event::StepDone(Ok(())),
        Event::StepDone(Err(InstallerError::Filesystem("disk full".to_string()))),
        Event::Cleaned,
    ] {
        m = apply(m, &phase, &e, false);
        phase = step(phase, e);
        assert!(!m.uninstaller_installed || m.binary_installed);
    }
    assert!(matches!(phase, Phase::Done(RunOutcome::Failed(_))));
    assert!(m.binary_installed);
    assert!(!m.uninstaller_installed);
    assert!(!m.scratch_present);
}

#[test]
fn path_integration_failure_is_not_fatal() {
    let events = vec![
        Event::Probed(false),
        Event::StepDone(Ok(())),
        Event::StepDone(Ok(())),
        Event::StepDone(Ok(())),
        Event::StepDone(Ok(())),
        Event::StepDone(Ok(())),
        Event::PathUpdated(false),
        Event::VerifyDone(Ok(false)),
        Event::Cleaned,
    ];
    let (phase, m) = run_machine(Phase::CheckExisting, fresh_host(), events, false);
    assert!(matches!(
        phase,
        Phase::Done(RunOutcome::Installed { on_path: false })
    ));
    assert!(!m.profile_has_export);
    assert!(m.binary_installed);
}

#[test]
fn round_trip_clears_install_and_next_run_is_fresh() {
    let (_, installed) =
        run_machine(Phase::CheckExisting, fresh_host(), success_events(), false);
    let after = apply_uninstall(installed);
    assert!(!after.binary_installed);
    assert!(!after.symlink_installed);
    assert!(!after.uninstaller_installed);
    assert!(!after.root_present);
    // the export block stays in the profile, by design
    assert!(after.profile_has_export);
    let (phase_again, host_again) =
        run_machine(Phase::CheckExisting, after, success_events(), false);
    let (phase_fresh, host_fresh) =
        run_machine(Phase::CheckExisting, fresh_host(), success_events(), false);
    assert!(matches!(phase_again, Phase::Done(RunOutcome::Installed { on_path: true })));
    assert!(matches!(phase_fresh, Phase::Done(RunOutcome::Installed { on_path: true })));
    assert_eq!(host_again.binary_installed, host_fresh.binary_installed);
    assert_eq!(host_again.symlink_installed, host_fresh.symlink_installed);
    assert_eq!(host_again.uninstaller_installed, host_fresh.uninstaller_installed);
    assert_eq!(host_again.root_present, host_fresh.root_present);
    assert_eq!(host_again.scratch_present, host_fresh.scratch_present);
}

#[test]
fn windows_run_makes_no_symlink() {
    let (phase, m) = run_machine(Phase::CheckExisting, fresh_host(), success_events(), true);
    assert!(matches!(phase, Phase::Done(RunOutcome::Installed { .. })));
    assert!(m.binary_installed);
    assert!(!m.symlink_installed);
}

#[test]
fn prebuilt_linux_x86_64_scenario() {
    let triple = triple_of(Os::Linux, Arch::X86_64).unwrap();
    assert_eq!(triple, TargetTriple::X8664Linux);
    assert_eq!(triple.as_text(), "x86_64-unknown-linux-gnu");
    let url = prebuilt_url("0.1.0", triple);
    assert_eq!(
        url,
        "https://github.com/kinoite/kopi-lang/releases/download/v0.1.0/kopi-x86_64-unknown-linux-gnu.tar.gz"
    );
    let inst = posix_installer(Variant::Prebuilt {
        version: "0.1.0".to_string(),
        triple,
    });
    // the prebuilt strategy needs neither git nor cargo
    assert!(inst.check_dependencies(false, false).is_ok());
    assert_eq!(inst.binary_path(), "/home/user/.kopi/kopi");
    assert_eq!(inst.symlink_path(), "/home/user/.local/bin/kopi");
    assert_eq!(
        inst.acquired_binary_path(),
        "/home/user/.local/bin/kopi"
    );
    let (phase, m) = run_machine(Phase::CheckExisting, fresh_host(), success_events(), false);
    assert!(matches!(phase, Phase::Done(RunOutcome::Installed { .. })));
    assert!(m.binary_installed);
    assert!(m.symlink_installed);
    if let Phase::Done(out) = phase {
        assert_eq!(exit_code(&out), 0);
    }
}

#[test]
fn uninstall_with_no_prior_install_removes_nothing() {
    let inst = posix_installer(Variant::CloneBuild);
    let plan = inst.uninstall_plan(false, false, false);
    assert!(plan.binary.is_none());
    assert!(plan.symlink.is_none());
    assert!(plan.root.is_none());
    let after = apply_uninstall(fresh_host());
    assert_eq!(after, fresh_host());
}

#[test]
fn uninstall_plan_removes_binary_symlink_then_root() {
    let inst = posix_installer(Variant::CloneBuild);
    let plan = inst.uninstall_plan(true, true, true);
    assert_eq!(plan.binary.as_deref(), Some("/home/user/.kopi/kopi"));
    assert_eq!(plan.symlink.as_deref(), Some("/home/user/.local/bin/kopi"));
    assert_eq!(plan.root.as_deref(), Some("/home/user/.kopi"));
}

#[test]
fn uninstall_plan_skips_symlink_on_windows() {
    let inst = Installer::new(
        Some("C:/Users/u".to_string()),
        None,
        true,
        "C:/Temp",
        7,
        Variant::CloneBuild,
    )
    .unwrap();
    let plan = inst.uninstall_plan(true, true, true);
    assert_eq!(plan.binary.as_deref(), Some("C:/Users/u/.kopi/kopi.exe"));
    assert!(plan.symlink.is_none());
    assert_eq!(plan.root.as_deref(), Some("C:/Users/u/.kopi"));
}

#[test]
fn unsupported_platform_is_a_configuration_error() {
    let err = triple_of(Os::Windows, Arch::Aarch64).unwrap_err();
    assert_eq!(err.kind(), ErrorKind::Configuration);
    assert_eq!(
        err.message(),
        "Unsupported OS/architecture combination: windows/aarch64"
    );
    assert!(err.is_fatal());
}

#[test]
fn resolve_builds_posix_paths() {
    let p = resolve(Some("/home/user".to_string()), None, false, "/tmp", 12345).unwrap();
    assert_eq!(p.install_root, "/home/user/.kopi");
    assert_eq!(p.bin_dir, "/home/user/.local/bin");
    assert_eq!(p.scratch_dir, "/tmp/kopi-install-12345");
}

#[test]
fn resolve_on_windows_puts_binaries_in_the_root() {
    let p = resolve(
        None,
        Some("C:/Users/u".to_string()),
        true,
        "C:/Temp",
        9,
    )
    .unwrap();
    assert_eq!(p.install_root, "C:/Users/u/.kopi");
    assert_eq!(p.bin_dir, p.install_root);
    assert_eq!(p.scratch_dir, "C:/Temp/kopi-install-9");
}

#[test]
fn resolve_without_home_fails() {
    let err = resolve(None, None, false, "/tmp", 1).unwrap_err();
    assert_eq!(err.kind(), ErrorKind::Configuration);
    assert_eq!(err.message(), "Could not determine home directory");
    let err = Installer::new(None, None, false, "/tmp", 1, Variant::CloneBuild).unwrap_err();
    assert_eq!(err.kind(), ErrorKind::Configuration);
    assert_eq!(err.message(), "Could not determine home directory");
}

#[test]
fn decimal_rendering_is_exact() {
    assert_eq!(u64_to_dec(0), "0");
    assert_eq!(u64_to_dec(7), "7");
    assert_eq!(u64_to_dec(10), "10");
    assert_eq!(u64_to_dec(40961), "40961");
    assert_eq!(u64_to_dec(u64::MAX), "18446744073709551615");
}

#[test]
fn string_helpers_behave() {
    assert!(str_eq("kopi", "kopi"));
    assert!(!str_eq("kopi", "kopi.exe"));
    assert!(contains_str("/usr/bin/zsh", "zsh"));
    assert!(contains_str("abc", ""));
    assert!(contains_str("abc", "bc"));
    assert!(!contains_str("abc", "cb"));
    assert!(!contains_str("ab", "abc"));
    assert_eq!(join("/a", "b"), "/a/b");
}

#[test]
fn prompt_defaults_to_no() {
    assert!(answer_is_yes("y\n"));
    assert!(answer_is_yes("Y"));
    assert!(answer_is_yes("  yes\n"));
    assert!(!answer_is_yes(""));
    assert!(!answer_is_yes("\n"));
    assert!(!answer_is_yes("n\n"));
    assert!(!answer_is_yes("no"));
    assert!(!answer_is_yes("maybe"));
}

#[test]
fn cli_arguments_parse() {
    assert_eq!(parse_arg(None), CliCommand::Install);
    assert_eq!(parse_arg(Some("-h")), CliCommand::Help);
    assert_eq!(parse_arg(Some("--help")), CliCommand::Help);
    assert_eq!(parse_arg(Some("-u")), CliCommand::Uninstall);
    assert_eq!(parse_arg(Some("--uninstall")), CliCommand::Uninstall);
    assert_eq!(parse_arg(Some("-v")), CliCommand::Version);
    assert_eq!(parse_arg(Some("--version")), CliCommand::Version);
    assert_eq!(parse_arg(Some("--frobnicate")), CliCommand::Unknown);
}

#[test]
fn usage_and_version_texts() {
    assert!(help_text().starts_with("Kipper - The Kopi Language Installer"));
    assert!(help_text().contains("-u, --uninstall"));
    assert_eq!(version_text(), "Kipper v0.1.0 - The Kopi Language Installer");
}

#[test]
fn dependency_checks_follow_the_strategy() {
    let clone = posix_installer(Variant::CloneBuild);
    let err = clone.check_dependencies(false, true).unwrap_err();
    assert_eq!(err.kind(), ErrorKind::DependencyMissing);
    assert_eq!(
        err.message(),
        "git is required but not installed. Please install git and try again"
    );
    let err = clone.check_dependencies(true, false).unwrap_err();
    assert_eq!(
        err.message(),
        "Rust/Cargo is required but not installed. Please install Rust from https://rustup.rs/ and try again"
    );
    assert!(clone.check_dependencies(true, true).is_ok());

    let tarball = posix_installer(Variant::TarballBuild {
        version: "0.1.0".to_string(),
    });
    assert!(tarball.check_dependencies(false, true).is_ok());
    let err = tarball.check_dependencies(false, false).unwrap_err();
    assert!(err.message().starts_with("Rust/Cargo is required but not installed"));
}

#[test]
fn acquisition_outcomes_carry_the_tool_output() {
    assert!(clone_outcome(true, "").is_ok());
    let err = clone_outcome(false, "remote hung up").unwrap_err();
    assert_eq!(err.kind(), ErrorKind::Acquisition);
    assert_eq!(err.message(), "Failed to clone repository: remote hung up");

    assert!(download_outcome(200).is_ok());
    assert!(download_outcome(299).is_ok());
    let err = download_outcome(404).unwrap_err();
    assert_eq!(err.kind(), ErrorKind::Acquisition);
    assert_eq!(err.message(), "Download failed with HTTP status 404");
}

#[test]
fn build_outcomes_carry_the_compiler_output() {
    assert!(build_outcome(true, "").is_ok());
    let err = build_outcome(false, "error[E0308]").unwrap_err();
    assert_eq!(err.kind(), ErrorKind::Build);
    assert_eq!(err.message(), "Build failed: error[E0308]");

    let ok = locate_binary("/s/target/release/kopi", true).unwrap();
    assert_eq!(ok, "/s/target/release/kopi");
    let err = locate_binary("/s/target/release/kopi", false).unwrap_err();
    assert_eq!(err.kind(), ErrorKind::Build);
    assert_eq!(err.message(), "Built binary not found");
}

#[test]
fn urls_and_paths_are_exact() {
    assert_eq!(repo_url(), "https://github.com/kinoite/kopi-lang.git");
    assert_eq!(
        tarball_url("0.2.1"),
        "https://github.com/kinoite/kopi-lang/archive/refs/tags/v0.2.1.tar.gz"
    );
    assert_eq!(binary_name(false), "kopi");
    assert_eq!(binary_name(true), "kopi.exe");
    assert_eq!(
        build_output("/scratch/kopi-lang", false),
        "/scratch/kopi-lang/target/release/kopi"
    );
    assert_eq!(
        build_output("/scratch/kopi-lang", true),
        "/scratch/kopi-lang/target/release/kopi.exe"
    );
}

#[test]
fn source_trees_follow_the_strategy() {
    let clone = posix_installer(Variant::CloneBuild);
    assert_eq!(clone.source_tree(), "/tmp/kopi-install-4242/kopi-lang");
    assert_eq!(
        clone.acquired_binary_path(),
        "/tmp/kopi-install-4242/kopi-lang/target/release/kopi"
    );
    let tarball = posix_installer(Variant::TarballBuild {
        version: "0.1.0".to_string(),
    });
    assert_eq!(tarball.source_tree(), "/tmp/kopi-install-4242/kopi-lang-0.1.0");
}

#[test]
fn uninstaller_script_texts_are_exact() {
    let inst = posix_installer(Variant::CloneBuild);
    assert_eq!(inst.uninstaller_path(), "/home/user/.kopi/uninstall.sh");
    assert_eq!(
        inst.uninstaller_script("/home/user"),
        "#!/bin/bash\necho \"Uninstalling Kopi Language...\"\nrm -f \"/home/user/.kopi/kopi\"\nrm -f \"/home/user/.local/bin/kopi\"\nrm -rf \"/home/user/.kopi\"\necho \"Kopi has been uninstalled successfully\""
    );
    let win = Installer::new(
        Some("C:/Users/u".to_string()),
        None,
        true,
        "C:/Temp",
        7,
        Variant::CloneBuild,
    )
    .unwrap();
    assert_eq!(win.uninstaller_path(), "C:/Users/u/.kopi/uninstall.bat");
    assert_eq!(
        win.uninstaller_script("C:/Users/u"),
        "@echo off\necho Uninstalling Kopi Language...\ndel /f /q \"C:/Users/u/.kopi\\kopi.exe\" 2>nul\nrmdir /s /q \"C:/Users/u/.kopi\" 2>nul\necho Kopi has been uninstalled successfully\npause"
    );
}

#[test]
fn verification_decision_is_exact() {
    let inst = posix_installer(Variant::CloneBuild);
    assert_eq!(inst.verify_installation(true, true).unwrap(), true);
    assert_eq!(inst.verify_installation(true, false).unwrap(), false);
    let err = inst.verify_installation(false, true).unwrap_err();
    assert_eq!(err.kind(), ErrorKind::Filesystem);
    assert_eq!(err.message(), "Installation verification failed");
}

#[test]
fn windows_path_note_names_the_root() {
    let win = Installer::new(
        Some("C:/Users/u".to_string()),
        None,
        true,
        "C:/Temp",
        7,
        Variant::CloneBuild,
    )
    .unwrap();
    assert_eq!(
        win.update_windows_path(),
        "Note: You may need to add the installation directory to your PATH\nInstallation directory: C:/Users/u/.kopi"
    );
}

#[test]
fn actions_follow_the_phases() {
    assert_eq!(action_of(&Phase::CheckExisting), Action::ProbeBinary);
    assert_eq!(action_of(&Phase::Confirm), Action::PromptReinstall);
    assert_eq!(action_of(&Phase::CheckDependencies), Action::CheckTools);
    assert_eq!(action_of(&Phase::EnsureDirectories), Action::CreateDirectories);
    assert_eq!(action_of(&Phase::Acquire), Action::RunAcquisition);
    assert_eq!(action_of(&Phase::PlaceBinary), Action::InstallBinary);
    assert_eq!(action_of(&Phase::WriteUninstaller), Action::WriteUninstallerScript);
    assert_eq!(action_of(&Phase::UpdatePath), Action::IntegratePath);
    assert_eq!(action_of(&Phase::Verify), Action::ProbeInstallation);
    assert_eq!(
        action_of(&Phase::Cleanup(RunOutcome::Declined)),
        Action::RemoveScratch
    );
    assert_eq!(
        action_of(&Phase::Done(RunOutcome::Declined)),
        Action::Finish
    );
}

#[test]
fn error_classes_and_fatality() {
    let warn = InstallerError::PathIntegration("profile unwritable".to_string());
    assert_eq!(warn.kind(), ErrorKind::PathIntegration);
    assert!(!warn.is_fatal());
    assert_eq!(warn.message(), "profile unwritable");
    let fatal = InstallerError::Filesystem("copy failed".to_string());
    assert_eq!(fatal.kind(), ErrorKind::Filesystem);
    assert!(fatal.is_fatal());
}
