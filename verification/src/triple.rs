//! Target triples: the platform identifier that selects a prebuilt release
//! asset. An unsupported pair of operating system and architecture is a
//! fatal configuration error, found before any network or filesystem work.

use vstd::prelude::*;

use crate::errors::{ErrorKind, InstallerError};

verus! {

/// The operating system of the host.
#[derive(Clone, Copy, Debug, PartialEq, Eq, Structural)]
pub enum Os {
    Linux,
    Macos,
    Windows,
}

/// The processor architecture of the host.
#[derive(Clone, Copy, Debug, PartialEq, Eq, Structural)]
pub enum Arch {
    X86_64,
    Aarch64,
}

/// A supported platform triple. Prebuilt archives exist for these and for
/// no other pair; in particular no prebuilt archive is published for
/// Windows on Aarch64.
#[derive(Clone, Copy, Debug, PartialEq, Eq, Structural)]
pub enum TargetTriple {
    X8664Linux,
    Aarch64Linux,
    X8664Macos,
    Aarch64Macos,
    X8664Windows,
}

/// The triple for a pair of operating system and architecture, or `None`
/// where no prebuilt archive exists.
pub open spec fn spec_triple_of(os: Os, arch: Arch) -> Option<TargetTriple> {
    match (os, arch) {
        (Os::Linux, Arch::X86_64) => Option::Some(TargetTriple::X8664Linux),
        (Os::Linux, Arch::Aarch64) => Option::Some(TargetTriple::Aarch64Linux),
        (Os::Macos, Arch::X86_64) => Option::Some(TargetTriple::X8664Macos),
        (Os::Macos, Arch::Aarch64) => Option::Some(TargetTriple::Aarch64Macos),
        (Os::Windows, Arch::X86_64) => Option::Some(TargetTriple::X8664Windows),
        (Os::Windows, Arch::Aarch64) => Option::None,
    }
}

/// The conventional name of an operating system.
pub open spec fn spec_os_name(os: Os) -> Seq<char> {
    match os {
        Os::Linux => "linux"@,
        Os::Macos => "macos"@,
        Os::Windows => "windows"@,
    }
}

/// The conventional name of an architecture.
pub open spec fn spec_arch_name(arch: Arch) -> Seq<char> {
    match arch {
        Arch::X86_64 => "x86_64"@,
        Arch::Aarch64 => "aarch64"@,
    }
}

/// The text of a triple, as it appears in a release asset name.
pub open spec fn spec_triple_text(t: TargetTriple) -> Seq<char> {
    match t {
        TargetTriple::X8664Linux => "x86_64-unknown-linux-gnu"@,
        TargetTriple::Aarch64Linux => "aarch64-unknown-linux-gnu"@,
        TargetTriple::X8664Macos => "x86_64-apple-darwin"@,
        TargetTriple::Aarch64Macos => "aarch64-apple-darwin"@,
        TargetTriple::X8664Windows => "x86_64-pc-windows-msvc"@,
    }
}

/// The diagnostic for an unsupported pair, naming the combination.
pub open spec fn spec_unsupported_text(os: Os, arch: Arch) -> Seq<char> {
    "Unsupported OS/architecture combination: "@ + spec_os_name(os) + "/"@ + spec_arch_name(
        arch,
    )
}

impl Os {
    /// Returns the conventional name of this operating system.
    pub fn name(&self) -> (r: &'static str)
        ensures
            r@ == spec_os_name(*self),
    {
        match self {
            Os::Linux => "linux",
            Os::Macos => "macos",
            Os::Windows => "windows",
        }
    }
}

impl Arch {
    /// Returns the conventional name of this architecture.
    pub fn name(&self) -> (r: &'static str)
        ensures
            r@ == spec_arch_name(*self),
    {
        match self {
            Arch::X86_64 => "x86_64",
            Arch::Aarch64 => "aarch64",
        }
    }
}

impl TargetTriple {
    /// Returns the text of this triple.
    pub fn as_text(&self) -> (r: &'static str)
        ensures
            r@ == spec_triple_text(*self),
    {
        match self {
            TargetTriple::X8664Linux => "x86_64-unknown-linux-gnu",
            TargetTriple::Aarch64Linux => "aarch64-unknown-linux-gnu",
            TargetTriple::X8664Macos => "x86_64-apple-darwin",
            TargetTriple::Aarch64Macos => "aarch64-apple-darwin",
            TargetTriple::X8664Windows => "x86_64-pc-windows-msvc",
        }
    }
}

/// Resolves the triple for a host, or reports the unsupported combination.
pub fn triple_of(os: Os, arch: Arch) -> (r: Result<TargetTriple, InstallerError>)
    ensures
        match r {
            Result::Ok(t) => spec_triple_of(os, arch) == Option::Some(t),
            Result::Err(e) => spec_triple_of(os, arch) is None && e.spec_kind()
                == ErrorKind::Configuration && e.spec_message() == spec_unsupported_text(
                os,
                arch,
            ),
        },
{
    match (os, arch) {
        (Os::Linux, Arch::X86_64) => Result::Ok(TargetTriple::X8664Linux),
        (Os::Linux, Arch::Aarch64) => Result::Ok(TargetTriple::Aarch64Linux),
        (Os::Macos, Arch::X86_64) => Result::Ok(TargetTriple::X8664Macos),
        (Os::Macos, Arch::Aarch64) => Result::Ok(TargetTriple::Aarch64Macos),
        (Os::Windows, Arch::X86_64) => Result::Ok(TargetTriple::X8664Windows),
        (Os::Windows, Arch::Aarch64) => {
            let mut m = "Unsupported OS/architecture combination: ".to_owned();
            m.append(os.name());
            m.append("/");
            m.append(arch.name());
            proof {
                assert(m@ =~= spec_unsupported_text(os, arch));
            }
            Result::Err(InstallerError::Configuration(m))
        },
    }
}

} // verus!
