//! `cs <profile>`: make a profile's credentials the live ones.

use vstd::prelude::*;

use crate::cli::GlobalOpts;
use crate::effect;
use crate::effect::{Act, Action, ActionOf, Blob, BlobOf, Fault, FaultOf, Next, NextOf, NoteOf};
use crate::effect::{Rep, Reply, ReplyOf, Script, Step};
use crate::error::{Error, ErrorOf};
use crate::keychain;
use crate::paths;
use crate::profile;
use crate::profile::{OauthCreds, OauthCredsOf};
use crate::remark::{Remark, RemarkOf};
use crate::state::{State, StateOf};
use crate::text;
use crate::tool;
use crate::views;

verus! {

/// How soon before its expiry a token is worth a warning.
pub const EXPIRY_WARNING_SECS: u64 = 60;

/// A switch under way.
#[derive(Debug, PartialEq, Eq)]
pub struct SwitchOf<T, B, L> {
    /// The account of the live credential.
    pub canonical: T,
    /// The profile to switch to.
    pub target: T,
    /// Machine-readable output, so no word of success.
    pub json: bool,
    /// What to start the CLI with afterwards; nothing is started where it is empty.
    pub args: L,
    /// How far the switch has come.
    pub at: SwitchAtOf<T, B>,
}

/// The stages of a switch. `live` is the canonical credential as it was found, `settings`
/// are the live settings as they were found, and `profile` is the outgoing profile.
#[allow(inconsistent_fields)]
#[derive(Debug, PartialEq, Eq)]
pub enum SwitchAtOf<T, B> {
    Locking,
    Preparing,
    ReadingCanonical,
    LoadingState { live: Option<BlobOf<T, B>> },
    ReadingOutgoing { profile: T, live: BlobOf<T, B>, state: StateOf<T> },
    Syncing { profile: T, live: B, state: StateOf<T> },
    CheckingSync { profile: T, live: B, state: StateOf<T> },
    ReadingTarget { live: Option<B>, state: StateOf<T> },
    ReadingSettings { live: Option<B>, state: StateOf<T>, bytes: B, creds: OauthCredsOf<T> },
    CheckingExpiry {
        live: Option<B>,
        state: StateOf<T>,
        bytes: B,
        creds: OauthCredsOf<T>,
        settings: Option<B>,
    },
    Installing { live: Option<B>, state: StateOf<T>, bytes: B, settings: Option<B> },
    Verifying { live: Option<B>, state: StateOf<T>, bytes: B, settings: Option<B> },
    LookingForSettings { live: Option<B>, state: StateOf<T>, settings: Option<B> },
    InstallingSettings { live: Option<B>, state: StateOf<T>, settings: Option<B> },
    RollingBack { live: B, settings: Option<B>, error: ErrorOf<T> },
    RestoringSettings { settings: B, error: ErrorOf<T> },
    Saving { state: StateOf<T> },
    Marking,
    Counting,
    Executing,
}

pub type Switch = SwitchOf<String, Vec<u8>, Vec<String>>;

pub type SwitchAt = SwitchAtOf<String, Vec<u8>>;

/// A stage in specifications.
pub type Stage = SwitchAtOf<Seq<char>, Seq<u8>>;

/// A switch in specifications.
pub type Job = SwitchOf<Seq<char>, Seq<u8>, Seq<Seq<char>>>;

impl View for SwitchAtOf<String, Vec<u8>> {
    type V = Stage;

    open spec fn view(&self) -> Stage {
        match self {
            SwitchAtOf::Locking => SwitchAtOf::Locking,
            SwitchAtOf::Preparing => SwitchAtOf::Preparing,
            SwitchAtOf::ReadingCanonical => SwitchAtOf::ReadingCanonical,
            SwitchAtOf::LoadingState { live } => SwitchAtOf::LoadingState {
                live: views::opt(*live),
            },
            SwitchAtOf::ReadingOutgoing { profile, live, state } => SwitchAtOf::ReadingOutgoing {
                profile: profile@,
                live: live@,
                state: state@,
            },
            SwitchAtOf::Syncing { profile, live, state } => SwitchAtOf::Syncing {
                profile: profile@,
                live: live@,
                state: state@,
            },
            SwitchAtOf::CheckingSync { profile, live, state } => SwitchAtOf::CheckingSync {
                profile: profile@,
                live: live@,
                state: state@,
            },
            SwitchAtOf::ReadingTarget { live, state } => SwitchAtOf::ReadingTarget {
                live: views::opt(*live),
                state: state@,
            },
            SwitchAtOf::ReadingSettings { live, state, bytes, creds } =>
                SwitchAtOf::ReadingSettings {
                live: views::opt(*live),
                state: state@,
                bytes: bytes@,
                creds: creds@,
            },
            SwitchAtOf::CheckingExpiry { live, state, bytes, creds, settings } =>
                SwitchAtOf::CheckingExpiry {
                live: views::opt(*live),
                state: state@,
                bytes: bytes@,
                creds: creds@,
                settings: views::opt(*settings),
            },
            SwitchAtOf::Installing { live, state, bytes, settings } => SwitchAtOf::Installing {
                live: views::opt(*live),
                state: state@,
                bytes: bytes@,
                settings: views::opt(*settings),
            },
            SwitchAtOf::Verifying { live, state, bytes, settings } => SwitchAtOf::Verifying {
                live: views::opt(*live),
                state: state@,
                bytes: bytes@,
                settings: views::opt(*settings),
            },
            SwitchAtOf::LookingForSettings { live, state, settings } =>
                SwitchAtOf::LookingForSettings {
                live: views::opt(*live),
                state: state@,
                settings: views::opt(*settings),
            },
            SwitchAtOf::InstallingSettings { live, state, settings } =>
                SwitchAtOf::InstallingSettings {
                live: views::opt(*live),
                state: state@,
                settings: views::opt(*settings),
            },
            SwitchAtOf::RollingBack { live, settings, error } => SwitchAtOf::RollingBack {
                live: live@,
                settings: views::opt(*settings),
                error: error@,
            },
            SwitchAtOf::RestoringSettings { settings, error } => SwitchAtOf::RestoringSettings {
                settings: settings@,
                error: error@,
            },
            SwitchAtOf::Saving { state } => SwitchAtOf::Saving { state: state@ },
            SwitchAtOf::Marking => SwitchAtOf::Marking,
            SwitchAtOf::Counting => SwitchAtOf::Counting,
            SwitchAtOf::Executing => SwitchAtOf::Executing,
        }
    }
}

impl View for SwitchOf<String, Vec<u8>, Vec<String>> {
    type V = Job;

    open spec fn view(&self) -> Job {
        SwitchOf {
            canonical: self.canonical@,
            target: self.target@,
            json: self.json,
            args: views::list(self.args@),
            at: self.at@,
        }
    }
}

/// The live credential `live` belongs into the outgoing profile's entry, which holds
/// `existing`: it differs, both are credentials, and they are not known to be of
/// different accounts.
pub open spec fn sync_due(
    existing: BlobOf<Seq<char>, Seq<u8>>,
    live: BlobOf<Seq<char>, Seq<u8>>,
) -> bool {
    &&& existing.bytes != live.bytes
    &&& live.creds matches Ok(incoming)
    &&& existing.creds matches Ok(held)
    &&& !profile::cross_account(incoming.email, held.email)
}

/// The bytes and credentials that a profile's entry holds. Without an entry there is no
/// such profile; an entry without credentials tells why.
pub open spec fn profile_creds(
    name: Seq<char>,
    entry: Result<BlobOf<Seq<char>, Seq<u8>>, FaultOf<Seq<char>>>,
) -> Result<(Seq<u8>, OauthCredsOf<Seq<char>>), ErrorOf<Seq<char>>> {
    match entry {
        Ok(blob) => match blob.creds {
            Ok(creds) => Ok((blob.bytes, creds)),
            Err(e) => Err(e),
        },
        Err(_) => Err(ErrorOf::ProfileNotFound(name)),
    }
}

/// The error for a canonical entry that does not read back as it was written.
pub open spec fn unverified() -> ErrorOf<Seq<char>> {
    ErrorOf::Other("canonical Keychain write verification failed; rolled back to previous"@)
}

/// The warning before a token that is about to expire goes live.
pub open spec fn near_expiry_line(target: Seq<char>) -> Seq<char> {
    "warning: target "@ + tool::brand_name() + " profile `"@ + target
        + "` token is near expiry; consider `cs refresh "@ + target + "` first"@
}

/// The line for a rollback that failed itself.
pub open spec fn rollback_failed_line(canonical: Seq<char>, shown: Seq<char>) -> Seq<char> {
    "error: keychain rollback failed for "@ + canonical + ": "@ + shown
}

/// The word of success.
pub open spec fn switched_line(target: Seq<char>) -> Seq<char> {
    "switched -> "@ + target + " ("@ + tool::command_name() + ")"@
}

/// The hint for processes that still hold the old account.
pub open spec fn running_line() -> Seq<char> {
    "note: detected running `"@ + tool::command_name()
        + "` process(es); restart them to pick up the new account"@
}

/// Undoing a switch that failed with `error`: first the canonical credential is put
/// back, where there was one, then the settings.
pub open spec fn back_out(
    live: Option<Seq<u8>>,
    settings: Option<Seq<u8>>,
    error: ErrorOf<Seq<char>>,
) -> Step<Stage> {
    match live {
        Some(live) => NextOf::Wait {
            notes: effect::quiet(),
            job: SwitchAtOf::RollingBack { live, settings, error },
        },
        None => restore_settings(effect::quiet(), settings, error),
    }
}

/// The second half of undoing a switch.
pub open spec fn restore_settings(
    notes: Seq<NoteOf<Seq<char>>>,
    settings: Option<Seq<u8>>,
    error: ErrorOf<Seq<char>>,
) -> Step<Stage> {
    match settings {
        Some(settings) => NextOf::Wait {
            notes,
            job: SwitchAtOf::RestoringSettings { settings, error },
        },
        None => NextOf::End { notes, result: Err(error) },
    }
}

/// Waiting at a stage, without a word.
pub open spec fn go(at: Stage) -> Step<Stage> {
    NextOf::Wait { notes: effect::quiet(), job: at }
}

/// Ending with an error, without a word.
pub open spec fn fail(error: ErrorOf<Seq<char>>) -> Step<Stage> {
    NextOf::End { notes: effect::quiet(), result: Err(error) }
}

impl SwitchOf<Seq<char>, Seq<u8>, Seq<Seq<char>>> {
    /// What a reply gives to remark on: how a sync with the outgoing profile came out, and
    /// a rollback that failed.
    pub open spec fn noticed(self, reply: Rep) -> Option<RemarkOf<Seq<char>>> {
        match (self.at, reply) {
            (
                SwitchAtOf::ReadingOutgoing { profile, live, state },
                ReplyOf::Blob(Ok(existing)),
            ) => if existing.bytes != live.bytes && !sync_due(existing, live) {
                Some(RemarkOf::NotSynced { profile })
            } else {
                None
            },
            (SwitchAtOf::Syncing { profile, live, state }, ReplyOf::Done(Err(f))) => Some(
                RemarkOf::SyncFailed { profile, shown: f.shown },
            ),
            (SwitchAtOf::CheckingSync { profile, live, state }, ReplyOf::Blob(r)) => Some(
                if r matches Ok(blob) && blob.bytes == live {
                    RemarkOf::Synced { profile }
                } else {
                    RemarkOf::SyncLost { profile }
                },
            ),
            (SwitchAtOf::RollingBack { live, settings, error }, ReplyOf::Done(Err(f))) => Some(
                RemarkOf::RollbackFailed { account: self.canonical, shown: f.shown },
            ),
            _ => None,
        }
    }

    /// The stage that follows a reply.
    pub open spec fn turn(self, reply: Rep) -> Step<Stage> {
        match (self.at, reply) {
            (SwitchAtOf::Locking, ReplyOf::Done(r)) => match r {
                Ok(_) => go(SwitchAtOf::Preparing),
                Err(f) => fail(f.error),
            },
            (SwitchAtOf::Preparing, ReplyOf::Done(r)) => match r {
                Ok(_) => go(SwitchAtOf::ReadingCanonical),
                Err(f) => fail(f.error),
            },
            (SwitchAtOf::ReadingCanonical, ReplyOf::Blob(r)) => go(
                SwitchAtOf::LoadingState {
                    live: match r {
                        Ok(blob) => Some(blob),
                        Err(_) => None,
                    },
                },
            ),
            (SwitchAtOf::LoadingState { live }, ReplyOf::State(loaded)) => {
                let state = StateOf::or_fresh(loaded);
                match (state.active, live) {
                    (Some(outgoing), Some(live)) => go(
                        SwitchAtOf::ReadingOutgoing {
                            profile: outgoing,
                            live,
                            state,
                        },
                    ),
                    (_, Some(live)) => go(
                        SwitchAtOf::ReadingTarget { live: Some(live.bytes), state },
                    ),
                    (_, None) => go(SwitchAtOf::ReadingTarget { live: None, state }),
                }
            },
            (SwitchAtOf::ReadingOutgoing { profile, live, state }, ReplyOf::Blob(r)) => if r
                matches Ok(existing) && sync_due(existing, live) {
                go(SwitchAtOf::Syncing { profile, live: live.bytes, state })
            } else {
                go(SwitchAtOf::ReadingTarget { live: Some(live.bytes), state })
            },
            (SwitchAtOf::Syncing { profile, live, state }, ReplyOf::Done(r)) => match r {
                Ok(_) => go(SwitchAtOf::CheckingSync { profile, live, state }),
                Err(_) => go(SwitchAtOf::ReadingTarget { live: Some(live), state }),
            },
            (SwitchAtOf::CheckingSync { profile, live, state }, ReplyOf::Blob(_)) => go(
                SwitchAtOf::ReadingTarget { live: Some(live), state },
            ),
            (SwitchAtOf::ReadingTarget { live, state }, ReplyOf::Blob(r)) => match profile_creds(
                self.target,
                r,
            ) {
                Ok((bytes, creds)) => go(
                    SwitchAtOf::ReadingSettings { live, state, bytes, creds },
                ),
                Err(e) => fail(e),
            },
            (
                SwitchAtOf::ReadingSettings { live, state, bytes, creds },
                ReplyOf::Bytes(settings),
            ) => go(SwitchAtOf::CheckingExpiry { live, state, bytes, creds, settings }),
            (
                SwitchAtOf::CheckingExpiry { live, state, bytes, creds, settings },
                ReplyOf::Now(now),
            ) => NextOf::Wait {
                notes: if creds.expired(EXPIRY_WARNING_SECS as int, now as int) {
                    effect::say(near_expiry_line(self.target))
                } else {
                    effect::quiet()
                },
                job: SwitchAtOf::Installing { live, state, bytes, settings },
            },
            (
                SwitchAtOf::Installing { live, state, bytes, settings },
                ReplyOf::Done(r),
            ) => match r {
                Ok(_) => go(SwitchAtOf::Verifying { live, state, bytes, settings }),
                Err(f) => fail(f.error),
            },
            (
                SwitchAtOf::Verifying { live, state, bytes, settings },
                ReplyOf::Blob(r),
            ) => if r matches Ok(blob) && blob.bytes == bytes {
                go(SwitchAtOf::LookingForSettings { live, state, settings })
            } else {
                back_out(live, None, unverified())
            },
            (
                SwitchAtOf::LookingForSettings { live, state, settings },
                ReplyOf::Flag(kept),
            ) => if kept {
                go(SwitchAtOf::InstallingSettings { live, state, settings })
            } else {
                go(SwitchAtOf::Saving { state: state.switched(self.target) })
            },
            (
                SwitchAtOf::InstallingSettings { live, state, settings },
                ReplyOf::Done(r),
            ) => match r {
                Ok(_) => go(SwitchAtOf::Saving { state: state.switched(self.target) }),
                Err(f) => back_out(live, settings, f.error),
            },
            (
                SwitchAtOf::RollingBack { live, settings, error },
                ReplyOf::Done(r),
            ) => restore_settings(
                match r {
                    Ok(_) => effect::quiet(),
                    Err(f) => effect::say(rollback_failed_line(self.canonical, f.shown)),
                },
                settings,
                error,
            ),
            (SwitchAtOf::RestoringSettings { settings, error }, ReplyOf::Done(_)) => fail(error),
            (SwitchAtOf::Saving { state }, ReplyOf::Done(r)) => match r {
                Ok(_) => go(SwitchAtOf::Marking),
                Err(f) => fail(f.error),
            },
            (SwitchAtOf::Marking, ReplyOf::Done(_)) => NextOf::Wait {
                notes: if self.json {
                    effect::quiet()
                } else {
                    effect::say(switched_line(self.target))
                },
                job: SwitchAtOf::Counting,
            },
            (SwitchAtOf::Counting, ReplyOf::Count(n)) => {
                let notes = if n > 0 {
                    effect::say(running_line())
                } else {
                    effect::quiet()
                };
                if self.args.len() > 0 {
                    NextOf::Wait { notes, job: SwitchAtOf::Executing }
                } else {
                    NextOf::End { notes, result: Ok(()) }
                }
            },
            (SwitchAtOf::Executing, ReplyOf::ExecFailed(message)) => fail(
                ErrorOf::Subprocess { cmd: tool::command_name(), message },
            ),
            (at, _) => go(at),
        }
    }
}

impl Script for SwitchOf<Seq<char>, Seq<u8>, Seq<Seq<char>>> {
    open spec fn pending(self) -> Act {
        match self.at {
            SwitchAtOf::Locking => ActionOf::Lock,
            SwitchAtOf::Preparing => ActionOf::EnsureHome,
            SwitchAtOf::ReadingCanonical => ActionOf::Read { account: self.canonical },
            SwitchAtOf::LoadingState { .. } => ActionOf::LoadState,
            SwitchAtOf::ReadingOutgoing { profile, .. } => ActionOf::Read {
                account: keychain::account_of(profile),
            },
            SwitchAtOf::Syncing { profile, live, .. } => ActionOf::Write {
                account: keychain::account_of(profile),
                bytes: live,
            },
            SwitchAtOf::CheckingSync { profile, .. } => ActionOf::Read {
                account: keychain::account_of(profile),
            },
            SwitchAtOf::ReadingTarget { .. } => ActionOf::Read {
                account: keychain::account_of(self.target),
            },
            SwitchAtOf::ReadingSettings { .. } => ActionOf::ReadSettings,
            SwitchAtOf::CheckingExpiry { .. } => ActionOf::Clock,
            SwitchAtOf::Installing { bytes, .. } => ActionOf::Write {
                account: self.canonical,
                bytes,
            },
            SwitchAtOf::Verifying { .. } => ActionOf::Read { account: self.canonical },
            SwitchAtOf::LookingForSettings { .. } => ActionOf::HasSettings {
                profile: self.target,
            },
            SwitchAtOf::InstallingSettings { .. } => ActionOf::InstallSettings {
                profile: self.target,
            },
            SwitchAtOf::RollingBack { live, .. } => ActionOf::Write {
                account: self.canonical,
                bytes: live,
            },
            SwitchAtOf::RestoringSettings { settings, .. } => ActionOf::WriteSettings {
                bytes: settings,
            },
            SwitchAtOf::Saving { state } => ActionOf::SaveState { state },
            SwitchAtOf::Marking => ActionOf::MarkActive { profile: self.target },
            SwitchAtOf::Counting => ActionOf::CountClaude,
            SwitchAtOf::Executing => ActionOf::Exec { args: self.args },
        }
    }

    open spec fn after(self, reply: Rep) -> Step<Self> {
        match self.turn(reply) {
            NextOf::Wait { notes, job } => NextOf::Wait {
                notes,
                job: SwitchOf { at: job, ..self },
            },
            NextOf::End { notes, result } => NextOf::End { notes, result },
        }
    }
}

/// Whether the live credential belongs into the outgoing profile's entry, so that its
/// snapshot keeps pace with the rotation of tokens. It does not where the two are known
/// to be of different accounts, or where one of them holds no credentials.
pub fn sync_canonical_to_profile(existing: &Blob, live: &Blob) -> (res: bool)
    ensures
        res == sync_due(existing@, live@),
{
    if views::same_bytes(&existing.bytes, &live.bytes) {
        return false;
    }
    match (&live.creds, &existing.creds) {
        (Ok(incoming), Ok(held)) => !profile::is_cross_account(&incoming.email, &held.email),
        _ => false,
    }
}

/// The bytes and credentials of a profile, from what its entry holds.
pub fn read_target_claude(name: &String, entry: Result<Blob, Fault>) -> (res: Result<
    (Vec<u8>, OauthCreds),
    Error,
>)
    ensures
        match res {
            Ok(found) => profile_creds(name@, views::res(entry)) == Ok::<
                (Seq<u8>, OauthCredsOf<Seq<char>>),
                ErrorOf<Seq<char>>,
            >((found.0@, found.1@)),
            Err(e) => profile_creds(name@, views::res(entry)) == Err::<
                (Seq<u8>, OauthCredsOf<Seq<char>>),
                ErrorOf<Seq<char>>,
            >(e@),
        },
{
    match entry {
        Ok(blob) => match blob.creds {
            Ok(creds) => Ok((blob.bytes, creds)),
            Err(e) => Err(e),
        },
        Err(_) => Err(ErrorOf::ProfileNotFound(name.clone())),
    }
}

/// Undoes a switch that failed with `error`.
fn rollback_claude(live: Option<Vec<u8>>, settings: Option<Vec<u8>>, error: Error) -> (res: Next<
    SwitchAt,
>)
    ensures
        res@ == back_out(views::opt(live), views::opt(settings), error@),
{
    match live {
        Some(live) => wait(SwitchAtOf::RollingBack { live, settings, error }),
        None => put_settings_back(effect::no_notes(), settings, error),
    }
}

fn put_settings_back(notes: Vec<effect::Note>, settings: Option<Vec<u8>>, error: Error) -> (res:
    Next<SwitchAt>)
    ensures
        res@ == restore_settings(views::list(notes@), views::opt(settings), error@),
{
    match settings {
        Some(settings) => NextOf::Wait {
            notes,
            job: SwitchAtOf::RestoringSettings { settings, error },
        },
        None => NextOf::End { notes, result: Err(error) },
    }
}

fn wait(at: SwitchAt) -> (res: Next<SwitchAt>)
    ensures
        res@ == go(at@),
{
    NextOf::Wait { notes: effect::no_notes(), job: at }
}

fn stop(error: Error) -> (res: Next<SwitchAt>)
    ensures
        res@ == fail(error@),
{
    NextOf::End { notes: effect::no_notes(), result: Err(error) }
}

impl SwitchOf<String, Vec<u8>, Vec<String>> {
    /// The action that the switch waits for.
    pub fn pending(&self) -> (res: Action)
        ensures
            res@ == self@.pending(),
    {
        match &self.at {
            SwitchAtOf::Locking => ActionOf::Lock,
            SwitchAtOf::Preparing => ActionOf::EnsureHome,
            SwitchAtOf::ReadingCanonical => ActionOf::Read { account: self.canonical.clone() },
            SwitchAtOf::LoadingState { .. } => ActionOf::LoadState,
            SwitchAtOf::ReadingOutgoing { profile, .. } => ActionOf::Read {
                account: keychain::profile_account(profile),
            },
            SwitchAtOf::Syncing { profile, live, .. } => ActionOf::Write {
                account: keychain::profile_account(profile),
                bytes: views::copy_bytes(live),
            },
            SwitchAtOf::CheckingSync { profile, .. } => ActionOf::Read {
                account: keychain::profile_account(profile),
            },
            SwitchAtOf::ReadingTarget { .. } => ActionOf::Read {
                account: keychain::profile_account(&self.target),
            },
            SwitchAtOf::ReadingSettings { .. } => ActionOf::ReadSettings,
            SwitchAtOf::CheckingExpiry { .. } => ActionOf::Clock,
            SwitchAtOf::Installing { bytes, .. } => ActionOf::Write {
                account: self.canonical.clone(),
                bytes: views::copy_bytes(bytes),
            },
            SwitchAtOf::Verifying { .. } => ActionOf::Read { account: self.canonical.clone() },
            SwitchAtOf::LookingForSettings { .. } => ActionOf::HasSettings {
                profile: self.target.clone(),
            },
            SwitchAtOf::InstallingSettings { .. } => ActionOf::InstallSettings {
                profile: self.target.clone(),
            },
            SwitchAtOf::RollingBack { live, .. } => ActionOf::Write {
                account: self.canonical.clone(),
                bytes: views::copy_bytes(live),
            },
            SwitchAtOf::RestoringSettings { settings, .. } => ActionOf::WriteSettings {
                bytes: views::copy_bytes(settings),
            },
            SwitchAtOf::Saving { state } => ActionOf::SaveState { state: state.copy() },
            SwitchAtOf::Marking => ActionOf::MarkActive { profile: self.target.clone() },
            SwitchAtOf::Counting => ActionOf::CountClaude,
            SwitchAtOf::Executing => ActionOf::Exec { args: views::copy_list(&self.args) },
        }
    }

    /// What a reply gives to remark on in the log, if anything.
    pub fn remark(&self, reply: &Reply) -> (res: Option<Remark>)
        ensures
            views::opt(res) == self@.noticed(reply@),
    {
        match (&self.at, reply) {
            (
                SwitchAtOf::ReadingOutgoing { profile, live, state: _ },
                ReplyOf::Blob(Ok(existing)),
            ) => if !views::same_bytes(&existing.bytes, &live.bytes) && !sync_canonical_to_profile(
                existing,
                live,
            ) {
                Some(RemarkOf::NotSynced { profile: profile.clone() })
            } else {
                None
            },
            (SwitchAtOf::Syncing { profile, live: _, state: _ }, ReplyOf::Done(Err(f))) => Some(
                RemarkOf::SyncFailed { profile: profile.clone(), shown: f.shown.clone() },
            ),
            (SwitchAtOf::CheckingSync { profile, live, state: _ }, ReplyOf::Blob(r)) => {
                let held: bool = match r {
                    Ok(blob) => views::same_bytes(&blob.bytes, live),
                    Err(_) => false,
                };
                if held {
                    Some(RemarkOf::Synced { profile: profile.clone() })
                } else {
                    Some(RemarkOf::SyncLost { profile: profile.clone() })
                }
            },
            (
                SwitchAtOf::RollingBack { live: _, settings: _, error: _ },
                ReplyOf::Done(Err(f)),
            ) => Some(
                RemarkOf::RollbackFailed {
                    account: self.canonical.clone(),
                    shown: f.shown.clone(),
                },
            ),
            _ => None,
        }
    }

    /// How the switch goes on after a reply.
    pub fn after(self, reply: Reply) -> (res: Next<Switch>)
        ensures
            res@ == self@.after(reply@),
    {
        let SwitchOf { canonical, target, json, args, at } = self;
        let next: Next<SwitchAt> = match (at, reply) {
            (SwitchAtOf::Locking, ReplyOf::Done(r)) => match r {
                Ok(_) => wait(SwitchAtOf::Preparing),
                Err(f) => stop(f.error),
            },
            (SwitchAtOf::Preparing, ReplyOf::Done(r)) => match r {
                Ok(_) => wait(SwitchAtOf::ReadingCanonical),
                Err(f) => stop(f.error),
            },
            (SwitchAtOf::ReadingCanonical, ReplyOf::Blob(r)) => match r {
                Ok(blob) => wait(SwitchAtOf::LoadingState { live: Some(blob) }),
                Err(_) => wait(SwitchAtOf::LoadingState { live: None }),
            },
            (SwitchAtOf::LoadingState { live }, ReplyOf::State(loaded)) => {
                let state: State = State::loaded(loaded);
                match live {
                    Some(live) => match &state.active {
                        Some(outgoing) => {
                            let profile: String = outgoing.clone();
                            wait(SwitchAtOf::ReadingOutgoing { profile, live, state })
                        },
                        None => wait(
                            SwitchAtOf::ReadingTarget { live: Some(live.bytes), state },
                        ),
                    },
                    None => wait(SwitchAtOf::ReadingTarget { live: None, state }),
                }
            },
            (SwitchAtOf::ReadingOutgoing { profile, live, state }, ReplyOf::Blob(r)) => {
                let due: bool = match &r {
                    Ok(existing) => sync_canonical_to_profile(existing, &live),
                    Err(_) => false,
                };
                if due {
                    wait(SwitchAtOf::Syncing { profile, live: live.bytes, state })
                } else {
                    wait(SwitchAtOf::ReadingTarget { live: Some(live.bytes), state })
                }
            },
            (SwitchAtOf::Syncing { profile, live, state }, ReplyOf::Done(r)) => match r {
                Ok(_) => wait(SwitchAtOf::CheckingSync { profile, live, state }),
                Err(_) => wait(SwitchAtOf::ReadingTarget { live: Some(live), state }),
            },
            (SwitchAtOf::CheckingSync { profile: _, live, state }, ReplyOf::Blob(_)) => wait(
                SwitchAtOf::ReadingTarget { live: Some(live), state },
            ),
            (SwitchAtOf::ReadingTarget { live, state }, ReplyOf::Blob(r)) =>
                match read_target_claude(&target, r) {
                Ok((bytes, creds)) => wait(
                    SwitchAtOf::ReadingSettings { live, state, bytes, creds },
                ),
                Err(e) => stop(e),
            },
            (
                SwitchAtOf::ReadingSettings { live, state, bytes, creds },
                ReplyOf::Bytes(settings),
            ) => wait(SwitchAtOf::CheckingExpiry { live, state, bytes, creds, settings }),
            (
                SwitchAtOf::CheckingExpiry { live, state, bytes, creds, settings },
                ReplyOf::Now(now),
            ) => NextOf::Wait {
                notes: if creds.is_expired(EXPIRY_WARNING_SECS, now) {
                    effect::one_line(
                        text::join4(
                            &text::join4(
                                "warning: target ",
                                &tool::brand(),
                                " profile `",
                                &target,
                            ),
                            "` token is near expiry; consider `cs refresh ",
                            &target,
                            "` first",
                        ),
                    )
                } else {
                    effect::no_notes()
                },
                job: SwitchAtOf::Installing { live, state, bytes, settings },
            },
            (
                SwitchAtOf::Installing { live, state, bytes, settings },
                ReplyOf::Done(r),
            ) => match r {
                Ok(_) => wait(SwitchAtOf::Verifying { live, state, bytes, settings }),
                Err(f) => stop(f.error),
            },
            (SwitchAtOf::Verifying { live, state, bytes, settings }, ReplyOf::Blob(r)) => {
                let held: bool = match &r {
                    Ok(blob) => views::same_bytes(&blob.bytes, &bytes),
                    Err(_) => false,
                };
                if held {
                    wait(SwitchAtOf::LookingForSettings { live, state, settings })
                } else {
                    rollback_claude(
                        live,
                        None,
                        ErrorOf::Other(
                            "canonical Keychain write verification failed; rolled back to previous".to_owned(),
                        ),
                    )
                }
            },
            (
                SwitchAtOf::LookingForSettings { live, state, settings },
                ReplyOf::Flag(kept),
            ) => if kept {
                wait(SwitchAtOf::InstallingSettings { live, state, settings })
            } else {
                wait(SwitchAtOf::Saving { state: state.switch_to(&target) })
            },
            (
                SwitchAtOf::InstallingSettings { live, state, settings },
                ReplyOf::Done(r),
            ) => match r {
                Ok(_) => wait(SwitchAtOf::Saving { state: state.switch_to(&target) }),
                Err(f) => rollback_claude(live, settings, f.error),
            },
            (SwitchAtOf::RollingBack { live: _, settings, error }, ReplyOf::Done(r)) => {
                let notes: Vec<effect::Note> = match r {
                    Ok(_) => effect::no_notes(),
                    Err(f) => effect::one_line(
                        text::join4(
                            "error: keychain rollback failed for ",
                            &canonical,
                            ": ",
                            &f.shown,
                        ),
                    ),
                };
                put_settings_back(notes, settings, error)
            },
            (SwitchAtOf::RestoringSettings { settings: _, error }, ReplyOf::Done(_)) => stop(error),
            (SwitchAtOf::Saving { state: _ }, ReplyOf::Done(r)) => match r {
                Ok(_) => wait(SwitchAtOf::Marking),
                Err(f) => stop(f.error),
            },
            (SwitchAtOf::Marking, ReplyOf::Done(_)) => NextOf::Wait {
                notes: if json {
                    effect::no_notes()
                } else {
                    effect::one_line(
                        text::join5("switched -> ", &target, " (", tool::command(), ")"),
                    )
                },
                job: SwitchAtOf::Counting,
            },
            (SwitchAtOf::Counting, ReplyOf::Count(n)) => {
                let notes: Vec<effect::Note> = if n > 0 {
                    effect::one_line(
                        text::join3(
                            "note: detected running `",
                            tool::command(),
                            "` process(es); restart them to pick up the new account",
                        ),
                    )
                } else {
                    effect::no_notes()
                };
                if args.len() > 0 {
                    NextOf::Wait { notes, job: SwitchAtOf::Executing }
                } else {
                    NextOf::End { notes, result: Ok(()) }
                }
            },
            (SwitchAtOf::Executing, ReplyOf::ExecFailed(message)) => stop(
                ErrorOf::Subprocess { cmd: tool::command().to_owned(), message },
            ),
            (at, _) => wait(at),
        };
        match next {
            NextOf::Wait { notes, job } => NextOf::Wait {
                notes,
                job: SwitchOf { canonical, target, json, args, at: job },
            },
            NextOf::End { notes, result } => NextOf::End { notes, result },
        }
    }
}

/// A switch that has yet to take the lock.
pub open spec fn started(
    canonical: Seq<char>,
    target: Seq<char>,
    json: bool,
    args: Seq<Seq<char>>,
) -> Job {
    SwitchOf { canonical, target, json, args, at: SwitchAtOf::Locking }
}

/// A switch under a lock that its caller holds, after which nothing is started.
pub open spec fn started_locked(canonical: Seq<char>, target: Seq<char>, json: bool) -> Job {
    SwitchOf {
        canonical,
        target,
        json,
        args: Seq::empty(),
        at: SwitchAtOf::ReadingCanonical,
    }
}

/// Starts a switch to `target_name`, after which the CLI is started with `passthrough`
/// where that is not empty. A name that no profile may have is refused.
pub fn run(
    canonical: String,
    global: &GlobalOpts,
    target_name: &str,
    passthrough: Vec<String>,
) -> (res: Result<Switch, Error>)
    ensures
        match res {
            Ok(job) => paths::valid_name(target_name@) && job@ == started(
                canonical@,
                target_name@,
                global.json,
                views::list(passthrough@),
            ),
            Err(e) => !paths::valid_name(target_name@) && e@ == paths::invalid_name(target_name@),
        },
{
    match paths::validate_profile_name(target_name) {
        Ok(_) => Ok(
            SwitchOf {
                canonical,
                target: target_name.to_owned(),
                json: global.json,
                args: passthrough,
                at: SwitchAtOf::Locking,
            },
        ),
        Err(e) => Err(e),
    }
}

/// Starts a switch under a lock that the caller holds. Nothing is started afterwards.
pub fn run_locked(canonical: String, global: &GlobalOpts, target_name: &str) -> (res: Switch)
    ensures
        res@ == started_locked(canonical@, target_name@, global.json),
{
    let args: Vec<String> = Vec::new();
    assert(views::list(args@) =~= Seq::<Seq<char>>::empty());
    SwitchOf {
        canonical,
        target: target_name.to_owned(),
        json: global.json,
        args,
        at: SwitchAtOf::ReadingCanonical,
    }
}

/// Starts a switch to the previous profile of the state as it was loaded (`None` where
/// it could not be).
pub fn run_previous(
    canonical: String,
    global: &GlobalOpts,
    loaded: Option<State>,
    passthrough: Vec<String>,
) -> (res: Result<Switch, Error>)
    ensures
        match StateOf::or_fresh(views::opt(loaded)).previous {
            Some(previous) => match res {
                Ok(job) => paths::valid_name(previous) && job@ == started(
                    canonical@,
                    previous,
                    global.json,
                    views::list(passthrough@),
                ),
                Err(e) => !paths::valid_name(previous) && e@ == paths::invalid_name(previous),
            },
            None => res matches Err(e) && e@ == ErrorOf::<Seq<char>>::NoPreviousProfile,
        },
{
    let state: State = State::loaded(loaded);
    match state.previous {
        Some(previous) => run(canonical, global, &previous, passthrough),
        None => Err(ErrorOf::NoPreviousProfile),
    }
}

} // verus!
