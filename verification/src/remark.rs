//! What a command has to remark on for the log, beside what it tells the user.

use vstd::prelude::*;

verus! {

/// How much a remark matters.
#[derive(Debug, Clone, Copy, PartialEq, Eq)]
pub enum Level {
    Info,
    Warn,
    Error,
}

/// A remark for the log, over the type of its text.
#[derive(Debug, PartialEq, Eq)]
pub enum RemarkOf<T> {
    /// The live credential is not, as far as is known, of the outgoing profile's account.
    NotSynced { profile: T },
    /// The outgoing profile's entry did not take the live credential.
    SyncFailed { profile: T, shown: T },
    /// The outgoing profile's entry holds the live credential now.
    Synced { profile: T },
    /// The outgoing profile's entry did not read back as the live credential.
    SyncLost { profile: T },
    /// The canonical entry did not take back what it held before a switch.
    RollbackFailed { account: T, shown: T },
    /// What a refresh in place left is not, as far as is known, of the profile's account.
    NotMirrored { profile: T },
    /// What a staged refresh left is not, as far as is known, of the profile's account.
    Overtaken { profile: T },
    /// The canonical entry holds what another process wrote during a staged refresh.
    Overwritten,
    /// The canonical entry could not be cleared after a staged refresh.
    NotCleared { shown: T },
    /// The canonical entry did not take back what it held before a staged refresh.
    NotRestored { account: T, shown: T },
}

/// The remark of running code.
pub type Remark = RemarkOf<String>;

impl<T: View> View for RemarkOf<T> {
    type V = RemarkOf<T::V>;

    open spec fn view(&self) -> RemarkOf<T::V> {
        match self {
            RemarkOf::NotSynced { profile } => RemarkOf::NotSynced { profile: profile@ },
            RemarkOf::SyncFailed { profile, shown } => RemarkOf::SyncFailed {
                profile: profile@,
                shown: shown@,
            },
            RemarkOf::Synced { profile } => RemarkOf::Synced { profile: profile@ },
            RemarkOf::SyncLost { profile } => RemarkOf::SyncLost { profile: profile@ },
            RemarkOf::RollbackFailed { account, shown } => RemarkOf::RollbackFailed {
                account: account@,
                shown: shown@,
            },
            RemarkOf::NotMirrored { profile } => RemarkOf::NotMirrored { profile: profile@ },
            RemarkOf::Overtaken { profile } => RemarkOf::Overtaken { profile: profile@ },
            RemarkOf::Overwritten => RemarkOf::Overwritten,
            RemarkOf::NotCleared { shown } => RemarkOf::NotCleared { shown: shown@ },
            RemarkOf::NotRestored { account, shown } => RemarkOf::NotRestored {
                account: account@,
                shown: shown@,
            },
        }
    }
}

impl<T> RemarkOf<T> {
    /// How much the remark matters: a sync that was done is good news, and a credential
    /// that could not be put back is worse than any other failure.
    pub open spec fn graded(self) -> Level {
        match self {
            RemarkOf::Synced { .. } => Level::Info,
            RemarkOf::RollbackFailed { .. } => Level::Error,
            RemarkOf::NotRestored { .. } => Level::Error,
            _ => Level::Warn,
        }
    }

    /// The words of the remark.
    pub open spec fn worded(self) -> Seq<char> {
        match self {
            RemarkOf::NotSynced {
                ..
            } => "canonical credential is a different account than the saved profile; not syncing"@,
            RemarkOf::SyncFailed { .. } => "failed to sync rotated token into profile"@,
            RemarkOf::Synced { .. } => "synced rotated canonical token into outgoing profile"@,
            RemarkOf::SyncLost {
                ..
            } => "sync read-back mismatch; profile snapshot may still be stale"@,
            RemarkOf::RollbackFailed { .. } => "keychain rollback failed"@,
            RemarkOf::NotMirrored {
                ..
            } => "refreshed canonical identity differs from profile snapshot; left snapshot untouched"@,
            RemarkOf::Overtaken {
                ..
            } => "canonical changed accounts during refresh; leaving the live credential in place"@,
            RemarkOf::Overwritten =>
                "canonical was updated by another process during staged refresh; leaving it in place"@,
            RemarkOf::NotCleared { .. } => "failed to clear canonical after background refresh"@,
            RemarkOf::NotRestored { .. } => "canonical keychain restore failed"@,
        }
    }

    /// How much the remark matters.
    pub fn level(&self) -> (res: Level)
        ensures
            res == self.graded(),
    {
        match self {
            RemarkOf::Synced { .. } => Level::Info,
            RemarkOf::RollbackFailed { .. } => Level::Error,
            RemarkOf::NotRestored { .. } => Level::Error,
            _ => Level::Warn,
        }
    }

    /// The words of the remark.
    pub fn message(&self) -> (res: &'static str)
        ensures
            res@ == self.worded(),
    {
        match self {
            RemarkOf::NotSynced {
                ..
            } => "canonical credential is a different account than the saved profile; not syncing",
            RemarkOf::SyncFailed { .. } => "failed to sync rotated token into profile",
            RemarkOf::Synced { .. } => "synced rotated canonical token into outgoing profile",
            RemarkOf::SyncLost {
                ..
            } => "sync read-back mismatch; profile snapshot may still be stale",
            RemarkOf::RollbackFailed { .. } => "keychain rollback failed",
            RemarkOf::NotMirrored {
                ..
            } => "refreshed canonical identity differs from profile snapshot; left snapshot untouched",
            RemarkOf::Overtaken {
                ..
            } => "canonical changed accounts during refresh; leaving the live credential in place",
            RemarkOf::Overwritten =>
                "canonical was updated by another process during staged refresh; leaving it in place",
            RemarkOf::NotCleared { .. } => "failed to clear canonical after background refresh",
            RemarkOf::NotRestored { .. } => "canonical keychain restore failed",
        }
    }
}

} // verus!
