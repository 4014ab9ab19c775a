//! `cs doctor`: show what the checks found.

use vstd::prelude::*;

use crate::cli::{DoctorArgs, GlobalOpts};
use crate::error::Error;

verus! {

/// How a report is shown.
#[derive(Debug, Clone, Copy, PartialEq, Eq)]
pub struct OutputOpts {
    /// Machine-readable output.
    pub json: bool,
}

/// What to show once the checks are through: the report, in the form that was asked
/// for. Where the checks failed, their error is the command's.
pub fn run<R>(global: &GlobalOpts, _args: &DoctorArgs, report: Result<R, Error>) -> (res: Result<
    (OutputOpts, R),
    Error,
>)
    ensures
        match report {
            Ok(r) => res == Ok::<(OutputOpts, R), Error>((OutputOpts { json: global.json }, r)),
            Err(e) => res == Err::<(OutputOpts, R), Error>(e),
        },
{
    match report {
        Ok(r) => Ok((OutputOpts { json: global.json }, r)),
        Err(e) => Err(e),
    }
}

} // verus!
