//! Verified core of Kipper, a bootstrap installer for the Kopi toolchain.
//!
//! The library holds the installer's decision logic: resolving install
//! paths from the host environment, selecting an acquisition strategy,
//! interpreting the outcomes of external tools, integrating the binary
//! directory into the shell profile, and the lifecycle state machine that
//! orders the steps of an install or uninstall run. All input and output
//! (environment variables, filesystem, subprocesses, the terminal) is left
//! to the surrounding program, which feeds plain values in and carries the
//! decisions out.

pub mod build_run;
pub mod cli;
pub mod errors;
pub mod installer;
pub mod lifecycle;
pub mod paths;
pub mod profile;
pub mod prompt;
pub mod strategy;
pub mod text;
pub mod triple;
