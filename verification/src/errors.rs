//! The installer's error taxonomy. Every fatal error aborts the run (after
//! scratch cleanup); a path-integration error is only a warning.

use vstd::prelude::*;

verus! {

/// The class of an error, without its message.
#[derive(Clone, Copy, Debug, PartialEq, Eq, Structural)]
pub enum ErrorKind {
    /// Home directory undiscoverable, or an unsupported platform.
    Configuration,
    /// A required external tool is absent.
    DependencyMissing,
    /// Clone or download failed.
    Acquisition,
    /// The compiler failed or produced no binary.
    Build,
    /// Copy, symlink or permission failure.
    Filesystem,
    /// The shell profile could not be updated; downgraded to a warning.
    PathIntegration,
}

/// An installer error: its class together with a diagnostic message.
#[derive(Debug)]
pub enum InstallerError {
    Configuration(String),
    DependencyMissing(String),
    Acquisition(String),
    Build(String),
    Filesystem(String),
    PathIntegration(String),
}

impl InstallerError {
    /// The class of this error.
    pub open spec fn spec_kind(&self) -> ErrorKind {
        match self {
            InstallerError::Configuration(_) => ErrorKind::Configuration,
            InstallerError::DependencyMissing(_) => ErrorKind::DependencyMissing,
            InstallerError::Acquisition(_) => ErrorKind::Acquisition,
            InstallerError::Build(_) => ErrorKind::Build,
            InstallerError::Filesystem(_) => ErrorKind::Filesystem,
            InstallerError::PathIntegration(_) => ErrorKind::PathIntegration,
        }
    }

    /// The diagnostic message carried by this error.
    pub open spec fn spec_message(&self) -> Seq<char> {
        match self {
            InstallerError::Configuration(m) => m@,
            InstallerError::DependencyMissing(m) => m@,
            InstallerError::Acquisition(m) => m@,
            InstallerError::Build(m) => m@,
            InstallerError::Filesystem(m) => m@,
            InstallerError::PathIntegration(m) => m@,
        }
    }

    /// Returns the class of this error.
    pub fn kind(&self) -> (k: ErrorKind)
        ensures
            k == self.spec_kind(),
    {
        match self {
            InstallerError::Configuration(_) => ErrorKind::Configuration,
            InstallerError::DependencyMissing(_) => ErrorKind::DependencyMissing,
            InstallerError::Acquisition(_) => ErrorKind::Acquisition,
            InstallerError::Build(_) => ErrorKind::Build,
            InstallerError::Filesystem(_) => ErrorKind::Filesystem,
            InstallerError::PathIntegration(_) => ErrorKind::PathIntegration,
        }
    }

    /// Returns the diagnostic message.
    pub fn message(&self) -> (r: &str)
        ensures
            r@ == self.spec_message(),
    {
        match self {
            InstallerError::Configuration(m) => m.as_str(),
            InstallerError::DependencyMissing(m) => m.as_str(),
            InstallerError::Acquisition(m) => m.as_str(),
            InstallerError::Build(m) => m.as_str(),
            InstallerError::Filesystem(m) => m.as_str(),
            InstallerError::PathIntegration(m) => m.as_str(),
        }
    }

    /// Every error but a path-integration one aborts the run.
    pub fn is_fatal(&self) -> (r: bool)
        ensures
            r == (self.spec_kind() != ErrorKind::PathIntegration),
    {
        match self {
            InstallerError::PathIntegration(_) => false,
            _ => true,
        }
    }
}

} // verus!
