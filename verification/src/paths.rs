//! Resolving the install root, binary directory and scratch directory from
//! plain values read out of the host environment.

use vstd::prelude::*;

use crate::errors::{ErrorKind, InstallerError};
use crate::text::spec_dec;
use crate::text::u64_to_dec;

verus! {

/// The three directories one run works with. Derived once per run and
/// immutable afterwards; the install root is the single source of truth
/// for "is the toolchain installed".
#[derive(Debug)]
pub struct InstallPaths {
    pub install_root: String,
    pub bin_dir: String,
    pub scratch_dir: String,
}

/// Joins two path components with a single separator.
pub open spec fn spec_join(base: Seq<char>, name: Seq<char>) -> Seq<char> {
    base + "/"@ + name
}

/// The home directory chosen from the primary variable and the fallback.
pub open spec fn spec_home_of(home: Option<Seq<char>>, fallback: Option<Seq<char>>) -> Seq<
    char,
> {
    match home {
        Option::Some(h) => h,
        Option::None => match fallback {
            Option::Some(f) => f,
            Option::None => Seq::empty(),
        },
    }
}

/// The install root: a hidden directory under the home directory.
pub open spec fn spec_install_root(home: Seq<char>) -> Seq<char> {
    home + "/.kopi"@
}

/// The binary directory: the conventional per-user executable directory,
/// except on Windows, where it coincides with the install root.
pub open spec fn spec_bin_dir(home: Seq<char>, windows: bool) -> Seq<char> {
    if windows {
        spec_install_root(home)
    } else {
        home + "/.local/bin"@
    }
}

/// The per-run scratch directory, made collision-resistant by the process id.
pub open spec fn spec_scratch_dir(temp_root: Seq<char>, pid: u64) -> Seq<char> {
    temp_root + "/kopi-install-"@ + spec_dec(pid as nat)
}

/// Joins a directory and an entry name with a separator.
pub fn join(base: &str, name: &str) -> (r: String)
    ensures
        r@ == spec_join(base@, name@),
{
    let mut s = base.to_owned();
    s.append("/");
    s.append(name);
    s
}

/// Derives the three install paths from the home-directory variables, the
/// platform, the temporary-file root and the process id. Fails exactly when
/// neither home-directory variable is set.
pub fn resolve(
    home: Option<String>,
    fallback: Option<String>,
    windows: bool,
    temp_root: &str,
    pid: u64,
) -> (r: Result<InstallPaths, InstallerError>)
    ensures
        match r {
            Result::Ok(p) => (home is Some || fallback is Some) && p.install_root@
                == spec_install_root(spec_home_of(view_opt(home), view_opt(fallback)))
                && p.bin_dir@ == spec_bin_dir(
                spec_home_of(view_opt(home), view_opt(fallback)),
                windows,
            ) && p.scratch_dir@ == spec_scratch_dir(temp_root@, pid),
            Result::Err(e) => home is None && fallback is None && e.spec_kind()
                == ErrorKind::Configuration && e.spec_message()
                == "Could not determine home directory"@,
        },
{
    let h: String = match home {
        Option::Some(h) => h,
        Option::None => match fallback {
            Option::Some(f) => f,
            Option::None => {
                return Result::Err(
                    InstallerError::Configuration(
                        "Could not determine home directory".to_owned(),
                    ),
                );
            },
        },
    };
    let install_root = join(h.as_str(), ".kopi");
    let bin_dir = if windows {
        join(h.as_str(), ".kopi")
    } else {
        let d = join(h.as_str(), ".local");
        join(d.as_str(), "bin")
    };
    let mut scratch = temp_root.to_owned();
    scratch.append("/kopi-install-");
    let pid_text = u64_to_dec(pid);
    scratch.append(pid_text.as_str());
    proof {
        reveal_strlit("/.kopi");
        reveal_strlit("/");
        reveal_strlit(".kopi");
        reveal_strlit(".local");
        reveal_strlit("bin");
        reveal_strlit("/.local");
        reveal_strlit("/.local/bin");
        reveal_strlit("/kopi-install-");
        assert(install_root@ =~= spec_install_root(h@));
        assert(bin_dir@ =~= spec_bin_dir(h@, windows));
        assert(scratch@ =~= spec_scratch_dir(temp_root@, pid));
    }
    Result::Ok(InstallPaths { install_root, bin_dir, scratch_dir: scratch })
}

/// The view of an optional string.
pub open spec fn view_opt(s: Option<String>) -> Option<Seq<char>> {
    match s {
        Option::Some(v) => Option::Some(v@),
        Option::None => Option::None,
    }
}

} // verus!
