//! Decision core of `cs`: profile switching for the logins of a CLI.

pub mod cli;
pub mod commands;
pub mod effect;
pub mod error;
pub mod keychain;
pub mod laws;
pub mod paths;
pub mod profile;
pub mod remark;
pub mod shell;
pub mod state;
pub mod text;
pub mod tool;
pub mod views;
