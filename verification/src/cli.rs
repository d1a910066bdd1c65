//! The command-line surface: which command an invocation asks for, and
//! the fixed usage and version texts.

use vstd::prelude::*;

use crate::text::str_eq;

verus! {

/// What one invocation asks for. No argument means install; an
/// unrecognised argument prints usage and fails.
#[derive(Clone, Copy, Debug, PartialEq, Eq, Structural)]
pub enum CliCommand {
    Install,
    Help,
    Uninstall,
    Version,
    Unknown,
}

/// The command for a first argument.
pub open spec fn spec_parse_arg(arg: Option<Seq<char>>) -> CliCommand {
    match arg {
        Option::None => CliCommand::Install,
        Option::Some(a) => if a == "-h"@ || a == "--help"@ {
            CliCommand::Help
        } else if a == "-u"@ || a == "--uninstall"@ {
            CliCommand::Uninstall
        } else if a == "-v"@ || a == "--version"@ {
            CliCommand::Version
        } else {
            CliCommand::Unknown
        },
    }
}

/// Parses the first command-line argument.
pub fn parse_arg(arg: Option<&str>) -> (r: CliCommand)
    ensures
        r == spec_parse_arg(
            match arg {
                Option::Some(a) => Option::Some(a@),
                Option::None => Option::None,
            },
        ),
{
    match arg {
        Option::None => CliCommand::Install,
        Option::Some(a) => {
            if str_eq(a, "-h") || str_eq(a, "--help") {
                CliCommand::Help
            } else if str_eq(a, "-u") || str_eq(a, "--uninstall") {
                CliCommand::Uninstall
            } else if str_eq(a, "-v") || str_eq(a, "--version") {
                CliCommand::Version
            } else {
                CliCommand::Unknown
            }
        },
    }
}

/// The usage text.
pub open spec fn spec_help_text() -> Seq<char> {
    "Kipper - The Kopi Language Installer\n\nUSAGE:\n    kipper [OPTIONS]\n\nOPTIONS:\n    -h, --help        Show this help message\n    -u, --uninstall   Uninstall Kopi\n    -v, --version     Show version information\n\nEXAMPLES:\n    kipper              Install Kopi\n    kipper --uninstall  Uninstall Kopi"@
}

/// Returns the usage text.
pub fn help_text() -> (r: &'static str)
    ensures
        r@ == spec_help_text(),
{
    "Kipper - The Kopi Language Installer\n\nUSAGE:\n    kipper [OPTIONS]\n\nOPTIONS:\n    -h, --help        Show this help message\n    -u, --uninstall   Uninstall Kopi\n    -v, --version     Show version information\n\nEXAMPLES:\n    kipper              Install Kopi\n    kipper --uninstall  Uninstall Kopi"
}

/// The version text.
pub open spec fn spec_version_text() -> Seq<char> {
    "Kipper v0.1.0 - The Kopi Language Installer"@
}

/// Returns the version text.
pub fn version_text() -> (r: &'static str)
    ensures
        r@ == spec_version_text(),
{
    "Kipper v0.1.0 - The Kopi Language Installer"
}

} // verus!
