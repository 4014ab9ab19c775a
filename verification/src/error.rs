//! Errors of the commands.

use vstd::prelude::*;

verus! {

/// What can go wrong, over the type of its text: `String` in running code,
/// `Seq<char>` in specifications.
#[derive(Debug, PartialEq, Eq)]
pub enum ErrorOf<T> {
    /// A configuration file or setting is not usable.
    Config(T),
    /// An argument of the command line is not acceptable.
    InvalidArgument(T),
    /// No profile has this name.
    ProfileNotFound(T),
    /// A profile already has this name.
    ProfileExists(T),
    /// No profile is active.
    NoActiveProfile,
    /// No profile was active before the current one.
    NoPreviousProfile,
    /// The keychain failed.
    Keychain(T),
    /// A child process failed.
    Subprocess { cmd: T, message: T },
    /// A file operation failed at a path.
    Io { path: T, message: T },
    /// Anything else.
    Other(T),
}

/// The error of running code.
pub type Error = ErrorOf<String>;

impl<T: View> View for ErrorOf<T> {
    type V = ErrorOf<T::V>;

    open spec fn view(&self) -> ErrorOf<T::V> {
        match self {
            ErrorOf::Config(t) => ErrorOf::Config(t@),
            ErrorOf::InvalidArgument(t) => ErrorOf::InvalidArgument(t@),
            ErrorOf::ProfileNotFound(t) => ErrorOf::ProfileNotFound(t@),
            ErrorOf::ProfileExists(t) => ErrorOf::ProfileExists(t@),
            ErrorOf::NoActiveProfile => ErrorOf::NoActiveProfile,
            ErrorOf::NoPreviousProfile => ErrorOf::NoPreviousProfile,
            ErrorOf::Keychain(t) => ErrorOf::Keychain(t@),
            ErrorOf::Subprocess { cmd, message } => ErrorOf::Subprocess {
                cmd: cmd@,
                message: message@,
            },
            ErrorOf::Io { path, message } => ErrorOf::Io { path: path@, message: message@ },
            ErrorOf::Other(t) => ErrorOf::Other(t@),
        }
    }
}

/// An error is seen whole: its kind, and all of its text.
pub proof fn law_error_is_seen_whole<T: View>(t: T, u: T)
    ensures
        ErrorOf::Config(t)@ == ErrorOf::Config(t@),
        ErrorOf::InvalidArgument(t)@ == ErrorOf::InvalidArgument(t@),
        ErrorOf::ProfileNotFound(t)@ == ErrorOf::ProfileNotFound(t@),
        ErrorOf::ProfileExists(t)@ == ErrorOf::ProfileExists(t@),
        ErrorOf::<T>::NoActiveProfile@ == ErrorOf::<T::V>::NoActiveProfile,
        ErrorOf::<T>::NoPreviousProfile@ == ErrorOf::<T::V>::NoPreviousProfile,
        ErrorOf::Keychain(t)@ == ErrorOf::Keychain(t@),
        (ErrorOf::Subprocess { cmd: t, message: u })@ == (ErrorOf::Subprocess {
            cmd: t@,
            message: u@,
        }),
        (ErrorOf::Io { path: t, message: u })@ == (ErrorOf::Io { path: t@, message: u@ }),
        ErrorOf::Other(t)@ == ErrorOf::Other(t@),
{
}

} // verus!
