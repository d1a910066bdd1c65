//! The build runner's decisions: reading the compiler's exit, the
//! conventional location of the produced binary, and the defensive check
//! that the binary is really there.

use vstd::prelude::*;

use crate::errors::{ErrorKind, InstallerError};

verus! {

/// The file name of the toolchain binary on this platform.
pub open spec fn spec_binary_name(windows: bool) -> Seq<char> {
    if windows {
        "kopi.exe"@
    } else {
        "kopi"@
    }
}

/// Returns the file name of the toolchain binary.
pub fn binary_name(windows: bool) -> (r: &'static str)
    ensures
        r@ == spec_binary_name(windows),
{
    if windows {
        "kopi.exe"
    } else {
        "kopi"
    }
}

/// The conventional release-mode output path of the binary under a source
/// tree.
pub open spec fn spec_build_output(source_dir: Seq<char>, windows: bool) -> Seq<char> {
    source_dir + "/target/release/"@ + spec_binary_name(windows)
}

/// Builds the conventional release-mode output path of the binary.
pub fn build_output(source_dir: &str, windows: bool) -> (r: String)
    ensures
        r@ == spec_build_output(source_dir@, windows),
{
    let mut p = source_dir.to_owned();
    p.append("/target/release/");
    p.append(binary_name(windows));
    p
}

/// The diagnostic for a failed compilation, carrying the compiler output.
pub open spec fn spec_build_failed_text(stderr: Seq<char>) -> Seq<char> {
    "Build failed: "@ + stderr
}

/// Reads the compiler's exit: success passes, failure is a build error
/// carrying the captured compiler output.
pub fn build_outcome(exit_ok: bool, stderr: &str) -> (r: Result<(), InstallerError>)
    ensures
        exit_ok <==> r is Ok,
        r matches Result::Err(e) ==> e.spec_kind() == ErrorKind::Build && e.spec_message()
            == spec_build_failed_text(stderr@),
{
    if exit_ok {
        Result::Ok(())
    } else {
        let mut m = "Build failed: ".to_owned();
        m.append(stderr);
        Result::Err(InstallerError::Build(m))
    }
}

/// The defensive check after a reported successful build: the binary must
/// exist at the conventional output path, else the toolchain layout has
/// drifted and the run fails with a build error.
pub fn locate_binary(path: &str, path_exists: bool) -> (r: Result<String, InstallerError>)
    ensures
        match r {
            Result::Ok(p) => path_exists && p@ == path@,
            Result::Err(e) => !path_exists && e.spec_kind() == ErrorKind::Build
                && e.spec_message() == "Built binary not found"@,
        },
{
    if path_exists {
        Result::Ok(path.to_owned())
    } else {
        Result::Err(InstallerError::Build("Built binary not found".to_owned()))
    }
}

} // verus!
