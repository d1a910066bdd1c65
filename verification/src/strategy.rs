//! Acquisition strategies: the three mutually exclusive ways of obtaining
//! the toolchain binary, the addresses they fetch from, and the reading of
//! the outcomes that the external collaborators report.

use vstd::prelude::*;

use crate::errors::{ErrorKind, InstallerError};
use crate::paths::{spec_join, InstallPaths, join};
use crate::triple::{TargetTriple, spec_triple_text};

verus! {

/// The acquisition strategy chosen for one run. Exactly one variant runs
/// per invocation; there is no fallback between variants.
#[derive(Debug)]
pub enum Variant {
    /// Clone the source repository and compile it locally.
    CloneBuild,
    /// Download a versioned source tarball and compile it locally.
    TarballBuild { version: String },
    /// Download a prebuilt archive for the host's triple; no build step.
    Prebuilt { version: String, triple: TargetTriple },
}

/// The fixed source repository address.
pub open spec fn spec_repo_url() -> Seq<char> {
    "https://github.com/kinoite/kopi-lang.git"@
}

/// The address of the versioned source tarball.
pub open spec fn spec_tarball_url(version: Seq<char>) -> Seq<char> {
    "https://github.com/kinoite/kopi-lang/archive/refs/tags/v"@ + version + ".tar.gz"@
}

/// The address of the prebuilt release archive for one triple.
pub open spec fn spec_prebuilt_url(version: Seq<char>, t: TargetTriple) -> Seq<char> {
    "https://github.com/kinoite/kopi-lang/releases/download/v"@ + version + "/kopi-"@
        + spec_triple_text(t) + ".tar.gz"@
}

/// The directory the repository is cloned into, inside the scratch area.
pub open spec fn spec_clone_dir(scratch: Seq<char>) -> Seq<char> {
    spec_join(scratch, "kopi-lang"@)
}

/// Returns the fixed source repository address.
pub fn repo_url() -> (r: &'static str)
    ensures
        r@ == spec_repo_url(),
{
    "https://github.com/kinoite/kopi-lang.git"
}

/// Builds the source tarball address for a version.
pub fn tarball_url(version: &str) -> (r: String)
    ensures
        r@ == spec_tarball_url(version@),
{
    let mut u = "https://github.com/kinoite/kopi-lang/archive/refs/tags/v".to_owned();
    u.append(version);
    u.append(".tar.gz");
    u
}

/// Builds the prebuilt release archive address for a version and a triple.
pub fn prebuilt_url(version: &str, t: TargetTriple) -> (r: String)
    ensures
        r@ == spec_prebuilt_url(version@, t),
{
    let mut u = "https://github.com/kinoite/kopi-lang/releases/download/v".to_owned();
    u.append(version);
    u.append("/kopi-");
    u.append(t.as_text());
    u.append(".tar.gz");
    u
}

/// Returns the directory the repository is cloned into.
pub fn clone_dir(paths: &InstallPaths) -> (r: String)
    ensures
        r@ == spec_clone_dir(paths.scratch_dir@),
{
    join(paths.scratch_dir.as_str(), "kopi-lang")
}

/// The diagnostic for a failed clone, carrying the tool's error stream.
pub open spec fn spec_clone_failed_text(stderr: Seq<char>) -> Seq<char> {
    "Failed to clone repository: "@ + stderr
}

/// Reads the exit of the version-control clone: success passes, failure is
/// an acquisition error carrying the captured error stream.
pub fn clone_outcome(exit_ok: bool, stderr: &str) -> (r: Result<(), InstallerError>)
    ensures
        exit_ok <==> r is Ok,
        r matches Result::Err(e) ==> e.spec_kind() == ErrorKind::Acquisition
            && e.spec_message() == spec_clone_failed_text(stderr@),
{
    if exit_ok {
        Result::Ok(())
    } else {
        let mut m = "Failed to clone repository: ".to_owned();
        m.append(stderr);
        Result::Err(InstallerError::Acquisition(m))
    }
}

/// The diagnostic for a download that came back with a bad status.
pub open spec fn spec_download_failed_text(status: Seq<char>) -> Seq<char> {
    "Download failed with HTTP status "@ + status
}

/// Reads an HTTP response status: any status outside the 200 range is an
/// acquisition error naming the status.
pub fn download_outcome(status: u16) -> (r: Result<(), InstallerError>)
    ensures
        (200 <= status < 300) <==> r is Ok,
        r matches Result::Err(e) ==> e.spec_kind() == ErrorKind::Acquisition
            && e.spec_message() == spec_download_failed_text(
            crate::text::spec_dec(status as nat),
        ),
{
    if 200 <= status && status < 300 {
        Result::Ok(())
    } else {
        let mut m = "Download failed with HTTP status ".to_owned();
        let st = crate::text::u64_to_dec(status as u64);
        m.append(st.as_str());
        Result::Err(InstallerError::Acquisition(m))
    }
}

} // verus!
