//! Arguments of the commands, as plain values.

use vstd::prelude::*;

verus! {

/// Which shell the user asked for.
#[derive(Debug, Clone, Copy, PartialEq, Eq)]
pub enum ShellChoice {
    Auto,
    Zsh,
    Bash,
}

/// Options of every command.
#[derive(Debug, Clone, Copy, PartialEq, Eq)]
pub struct GlobalOpts {
    /// Machine-readable output.
    pub json: bool,
}

/// Arguments of a command that takes a profile or means the active one.
#[derive(Debug, PartialEq, Eq)]
pub struct OptionalNameArg {
    pub name: Option<String>,
}

/// Arguments of `cs save`.
#[derive(Debug, PartialEq, Eq)]
pub struct SaveArgs {
    pub name: String,
}

/// Arguments of `cs rename`.
#[derive(Debug, PartialEq, Eq)]
pub struct RenameArgs {
    pub from: String,
    pub to: String,
}

/// Arguments of `cs doctor`.
#[derive(Debug, Clone, Copy, PartialEq, Eq)]
pub struct DoctorArgs {}

} // verus!
