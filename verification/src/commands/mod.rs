//! The commands, each as a job that asks for one action after the other.

pub mod doctor;
pub mod process;
pub mod refresh;
pub mod rename;
pub mod save;
pub mod switch;
