//! The installer's configuration for one run: the resolved paths, the
//! platform, and the chosen acquisition strategy, with the per-run
//! decisions that depend on them.

use vstd::prelude::*;

use crate::build_run::{binary_name, build_output, spec_binary_name, spec_build_output};
use crate::errors::{ErrorKind, InstallerError};
use crate::paths::{InstallPaths, join, resolve, spec_bin_dir, spec_home_of,
    spec_install_root, spec_join, spec_scratch_dir, view_opt};
use crate::strategy::{Variant, clone_dir, spec_clone_dir};

verus! {

/// One run's configuration. Paths are derived once and never change.
#[derive(Debug)]
pub struct Installer {
    pub paths: InstallPaths,
    pub windows: bool,
    pub variant: Variant,
}

/// Whether a strategy needs the version-control client.
pub open spec fn spec_needs_git(v: Variant) -> bool {
    v is CloneBuild
}

/// Whether a strategy needs the compiler toolchain.
pub open spec fn spec_needs_cargo(v: Variant) -> bool {
    v is CloneBuild || v is TarballBuild
}

/// The source tree a build-based strategy compiles, inside the scratch
/// directory.
pub open spec fn spec_source_tree(v: Variant, scratch: Seq<char>) -> Seq<char> {
    match v {
        Variant::CloneBuild => spec_clone_dir(scratch),
        Variant::TarballBuild { version } => scratch + "/kopi-lang-"@ + version@,
        Variant::Prebuilt { .. } => scratch,
    }
}

/// The advisory note shown on Windows, where no symlink is made and the
/// user may need to extend PATH by hand.
pub open spec fn spec_windows_path_note(root: Seq<char>) -> Seq<char> {
    "Note: You may need to add the installation directory to your PATH\nInstallation directory: "@
        + root
}

/// The removal script for hosts with a POSIX shell: it deletes the
/// installed binary, the symlink and the install root.
pub open spec fn spec_posix_uninstaller(root: Seq<char>, home: Seq<char>) -> Seq<char> {
    "#!/bin/bash\necho \"Uninstalling Kopi Language...\"\nrm -f \""@ + root + "/kopi\"\nrm -f \""@
        + home + "/.local/bin/kopi\"\nrm -rf \""@ + root
        + "\"\necho \"Kopi has been uninstalled successfully\""@
}

/// The removal script for Windows hosts.
pub open spec fn spec_windows_uninstaller(root: Seq<char>) -> Seq<char> {
    "@echo off\necho Uninstalling Kopi Language...\ndel /f /q \""@ + root
        + "\\kopi.exe\" 2>nul\nrmdir /s /q \""@ + root
        + "\" 2>nul\necho Kopi has been uninstalled successfully\npause"@
}

/// The removals one uninstall run performs, in the order they must run:
/// the installed binary, then the symlink, then the whole install root.
/// Every field is `None` when the entry is already absent; removing
/// nothing is not an error.
#[derive(Debug)]
pub struct UninstallPlan {
    pub binary: Option<String>,
    pub symlink: Option<String>,
    pub root: Option<String>,
}

impl Installer {
    /// Derives a run's configuration from the host environment values.
    /// Fails exactly when neither home-directory variable is set.
    pub fn new(
        home: Option<String>,
        fallback: Option<String>,
        windows: bool,
        temp_root: &str,
        pid: u64,
        variant: Variant,
    ) -> (r: Result<Installer, InstallerError>)
        ensures
            match r {
                Result::Ok(inst) => (home is Some || fallback is Some) && inst.windows
                    == windows && inst.variant == variant && inst.paths.install_root@
                    == spec_install_root(spec_home_of(view_opt(home), view_opt(fallback)))
                    && inst.paths.bin_dir@ == spec_bin_dir(
                    spec_home_of(view_opt(home), view_opt(fallback)),
                    windows,
                ) && inst.paths.scratch_dir@ == spec_scratch_dir(temp_root@, pid),
                Result::Err(e) => home is None && fallback is None && e.spec_kind()
                    == ErrorKind::Configuration && e.spec_message()
                    == "Could not determine home directory"@,
            },
    {
        match resolve(home, fallback, windows, temp_root, pid) {
            Result::Ok(paths) => Result::Ok(Installer { paths, windows, variant }),
            Result::Err(e) => Result::Err(e),
        }
    }

    /// The platform's name for the toolchain binary.
    pub fn binary_file(&self) -> (r: &'static str)
        ensures
            r@ == spec_binary_name(self.windows),
    {
        binary_name(self.windows)
    }

    /// The canonical installed location of the binary; its existence is
    /// the record of "installed".
    pub fn binary_path(&self) -> (r: String)
        ensures
            r@ == spec_join(self.paths.install_root@, spec_binary_name(self.windows)),
    {
        join(self.paths.install_root.as_str(), self.binary_file())
    }

    /// The symlink that makes the binary reachable from the binary
    /// directory on hosts that are not Windows.
    pub fn symlink_path(&self) -> (r: String)
        ensures
            r@ == spec_join(self.paths.bin_dir@, "kopi"@),
    {
        join(self.paths.bin_dir.as_str(), "kopi")
    }

    /// The source tree the chosen strategy compiles.
    pub fn source_tree(&self) -> (r: String)
        ensures
            r@ == spec_source_tree(self.variant, self.paths.scratch_dir@),
    {
        match &self.variant {
            Variant::CloneBuild => clone_dir(&self.paths),
            Variant::TarballBuild { version } => {
                let mut p = self.paths.scratch_dir.as_str().to_owned();
                p.append("/kopi-lang-");
                p.append(version.as_str());
                p
            },
            Variant::Prebuilt { .. } => self.paths.scratch_dir.as_str().to_owned(),
        }
    }

    /// Where the chosen strategy leaves the acquired binary: the build
    /// output for the build-based strategies, the binary directory itself
    /// for the prebuilt archive.
    pub fn acquired_binary_path(&self) -> (r: String)
        ensures
            r@ == match self.variant {
                Variant::Prebuilt { .. } => spec_join(
                    self.paths.bin_dir@,
                    spec_binary_name(self.windows),
                ),
                _ => spec_build_output(
                    spec_source_tree(self.variant, self.paths.scratch_dir@),
                    self.windows,
                ),
            },
    {
        match &self.variant {
            Variant::Prebuilt { .. } => join(self.paths.bin_dir.as_str(), self.binary_file()),
            _ => {
                let tree = self.source_tree();
                build_output(tree.as_str(), self.windows)
            },
        }
    }

    /// Checks that the external tools the chosen strategy relies on are
    /// present: the version-control client for the clone strategy, the
    /// compiler for both build-based strategies. The first missing tool is
    /// reported; the prebuilt strategy needs neither.
    pub fn check_dependencies(&self, git_found: bool, cargo_found: bool) -> (r: Result<
        (),
        InstallerError,
    >)
        ensures
            r is Ok <==> ((spec_needs_git(self.variant) ==> git_found) && (spec_needs_cargo(
                self.variant,
            ) ==> cargo_found)),
            r matches Result::Err(e) ==> e.spec_kind() == ErrorKind::DependencyMissing,
            (spec_needs_git(self.variant) && !git_found) ==> (r matches Result::Err(e)
                && e.spec_message()
                == "git is required but not installed. Please install git and try again"@),
            ((spec_needs_git(self.variant) ==> git_found) && spec_needs_cargo(self.variant)
                && !cargo_found) ==> (r matches Result::Err(e) && e.spec_message()
                == "Rust/Cargo is required but not installed. Please install Rust from https://rustup.rs/ and try again"@),
    {
        let needs_git = match &self.variant {
            Variant::CloneBuild => true,
            _ => false,
        };
        let needs_cargo = match &self.variant {
            Variant::CloneBuild => true,
            Variant::TarballBuild { .. } => true,
            Variant::Prebuilt { .. } => false,
        };
        if needs_git && !git_found {
            return Result::Err(
                InstallerError::DependencyMissing(
                    "git is required but not installed. Please install git and try again".to_owned(),
                ),
            );
        }
        if needs_cargo && !cargo_found {
            return Result::Err(
                InstallerError::DependencyMissing(
                    "Rust/Cargo is required but not installed. Please install Rust from https://rustup.rs/ and try again".to_owned(),
                ),
            );
        }
        Result::Ok(())
    }

    /// The advisory note for Windows hosts, where the binary directory is
    /// the install root and no symlink is made.
    pub fn update_windows_path(&self) -> (r: String)
        ensures
            r@ == spec_windows_path_note(self.paths.install_root@),
    {
        let mut m =
            "Note: You may need to add the installation directory to your PATH\nInstallation directory: ".to_owned();
        m.append(self.paths.install_root.as_str());
        m
    }

    /// The final check of a run: the binary must exist at its canonical
    /// location; whether it also resolves from PATH only shapes the final
    /// message and never fails the run.
    pub fn verify_installation(&self, binary_exists: bool, on_path: bool) -> (r: Result<
        bool,
        InstallerError,
    >)
        ensures
            match r {
                Result::Ok(p) => binary_exists && p == on_path,
                Result::Err(e) => !binary_exists && e.spec_kind() == ErrorKind::Filesystem
                    && e.spec_message() == "Installation verification failed"@,
            },
    {
        if binary_exists {
            Result::Ok(on_path)
        } else {
            Result::Err(InstallerError::Filesystem("Installation verification failed".to_owned()))
        }
    }

    /// Where the uninstaller script is written, next to the binary inside
    /// the install root. It is written only after the binary is placed,
    /// so an uninstaller never exists without the binary.
    pub fn uninstaller_path(&self) -> (r: String)
        ensures
            r@ == spec_join(
                self.paths.install_root@,
                if self.windows {
                    "uninstall.bat"@
                } else {
                    "uninstall.sh"@
                },
            ),
    {
        if self.windows {
            join(self.paths.install_root.as_str(), "uninstall.bat")
        } else {
            join(self.paths.install_root.as_str(), "uninstall.sh")
        }
    }

    /// The text of the uninstaller script for this host's shell family.
    /// `home` is the home directory the symlink lives under.
    pub fn uninstaller_script(&self, home: &str) -> (r: String)
        ensures
            r@ == if self.windows {
                spec_windows_uninstaller(self.paths.install_root@)
            } else {
                spec_posix_uninstaller(self.paths.install_root@, home@)
            },
    {
        if self.windows {
            let mut s =
                "@echo off\necho Uninstalling Kopi Language...\ndel /f /q \"".to_owned();
            s.append(self.paths.install_root.as_str());
            s.append("\\kopi.exe\" 2>nul\nrmdir /s /q \"");
            s.append(self.paths.install_root.as_str());
            s.append("\" 2>nul\necho Kopi has been uninstalled successfully\npause");
            s
        } else {
            let mut s =
                "#!/bin/bash\necho \"Uninstalling Kopi Language...\"\nrm -f \"".to_owned();
            s.append(self.paths.install_root.as_str());
            s.append("/kopi\"\nrm -f \"");
            s.append(home);
            s.append("/.local/bin/kopi\"\nrm -rf \"");
            s.append(self.paths.install_root.as_str());
            s.append("\"\necho \"Kopi has been uninstalled successfully\"");
            s
        }
    }

    /// Decides what an uninstall run removes, given what exists: the
    /// installed binary if present, the symlink if present and the host
    /// is not Windows, then the install root if present. Absent entries
    /// are skipped, so an uninstall on a host with no prior install
    /// removes nothing and still succeeds.
    pub fn uninstall_plan(
        &self,
        binary_exists: bool,
        symlink_exists: bool,
        root_exists: bool,
    ) -> (r: UninstallPlan)
        ensures
            r.binary matches Some(p) ==> binary_exists && p@ == spec_join(
                self.paths.install_root@,
                spec_binary_name(self.windows),
            ),
            r.binary is None <==> !binary_exists,
            r.symlink matches Some(p) ==> (!self.windows && symlink_exists) && p@ == spec_join(
                self.paths.bin_dir@,
                "kopi"@,
            ),
            r.symlink is None <==> (self.windows || !symlink_exists),
            r.root matches Some(p) ==> root_exists && p@ == self.paths.install_root@,
            r.root is None <==> !root_exists,
    {
        let binary = if binary_exists {
            Option::Some(self.binary_path())
        } else {
            Option::None
        };
        let symlink = if !self.windows && symlink_exists {
            Option::Some(self.symlink_path())
        } else {
            Option::None
        };
        let root = if root_exists {
            Option::Some(self.paths.install_root.as_str().to_owned())
        } else {
            Option::None
        };
        UninstallPlan { binary, symlink, root }
    }
}

} // verus!
