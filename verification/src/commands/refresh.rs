//! `cs refresh`: let the CLI renew a profile's token.
//!
//! The CLI renews whatever the canonical entry holds. An active profile is renewed in
//! place and mirrored into its own entry: nothing is staged, so nothing can be left
//! behind. Any other profile is staged into the canonical entry, renewed there, and
//! the live credential is put back afterwards.

use vstd::prelude::*;

use crate::cli::OptionalNameArg;
use crate::commands::switch;
use crate::effect;
use crate::effect::{Act, Action, ActionOf, Blob, BlobOf, Fault, Next, NextOf, Note, NoteOf};
use crate::effect::{Rep, Reply, ReplyOf, Script, Step};
use crate::error::{Error, ErrorOf};
use crate::keychain;
use crate::profile;
use crate::profile::{OauthCreds, OauthCredsOf};
use crate::remark::{Remark, RemarkOf};
use crate::state::{State, StateOf};
use crate::text;
use crate::tool;
use crate::views;

verus! {

/// A refresh under way.
#[derive(Debug, PartialEq, Eq)]
pub struct RefreshOf<T, B> {
    /// The account of the live credential.
    pub canonical: T,
    /// The profile to refresh.
    pub name: T,
    /// The state names this profile as the active one.
    pub active: bool,
    /// How far the refresh has come.
    pub at: RefreshAtOf<T, B>,
}

/// What a staged refresh comes to, once the live credential is back.
#[derive(Debug, PartialEq, Eq)]
pub enum OutcomeOf<T> {
    Refreshed,
    Unchanged { creds: OauthCredsOf<T> },
    Failed { error: ErrorOf<T> },
}

/// The stages of a refresh. `stale` and `creds` are what the profile's entry held, and
/// `live` is what the canonical entry held before the profile was staged into it.
#[allow(inconsistent_fields)]
#[derive(Debug, PartialEq, Eq)]
pub enum RefreshAtOf<T, B> {
    ReadingProfile,
    FindingClaude { stale: B, creds: OauthCredsOf<T> },
    Locking { stale: B, creds: OauthCredsOf<T> },
    Probing { stale: B, creds: OauthCredsOf<T> },
    ReadingBefore { creds: OauthCredsOf<T> },
    RefreshingInPlace { creds: OauthCredsOf<T>, before: B },
    ReadingAfter { creds: OauthCredsOf<T>, before: B },
    Mirroring { after: B, fresh: OauthCredsOf<T>, changed: bool },
    ReadingLive { stale: B, creds: OauthCredsOf<T> },
    Counting { stale: B, creds: OauthCredsOf<T>, live: Option<B> },
    Staging { stale: B, creds: OauthCredsOf<T>, live: Option<B> },
    CheckingStage { stale: B, creds: OauthCredsOf<T>, live: Option<B> },
    RefreshingStaged { stale: B, creds: OauthCredsOf<T>, live: Option<B> },
    ReadingRefreshed { stale: B, creds: OauthCredsOf<T>, live: Option<B> },
    Persisting { refreshed: B, live: Option<B> },
    CheckingRestore { expected: B, live: Option<B>, then: OutcomeOf<T> },
    Restoring { live: B, then: OutcomeOf<T> },
    Clearing { then: OutcomeOf<T> },
    RollingBack { live: B, error: ErrorOf<T> },
    CheckingValidity { creds: OauthCredsOf<T> },
}

pub type Refresh = RefreshOf<String, Vec<u8>>;

pub type RefreshAt = RefreshAtOf<String, Vec<u8>>;

pub type Outcome = OutcomeOf<String>;

/// A stage in specifications.
pub type Stage = RefreshAtOf<Seq<char>, Seq<u8>>;

/// A refresh in specifications.
pub type Job = RefreshOf<Seq<char>, Seq<u8>>;

impl View for OutcomeOf<String> {
    type V = OutcomeOf<Seq<char>>;

    open spec fn view(&self) -> OutcomeOf<Seq<char>> {
        match self {
            OutcomeOf::Refreshed => OutcomeOf::Refreshed,
            OutcomeOf::Unchanged { creds } => OutcomeOf::Unchanged { creds: creds@ },
            OutcomeOf::Failed { error } => OutcomeOf::Failed { error: error@ },
        }
    }
}

impl View for RefreshAtOf<String, Vec<u8>> {
    type V = Stage;

    open spec fn view(&self) -> Stage {
        match self {
            RefreshAtOf::ReadingProfile => RefreshAtOf::ReadingProfile,
            RefreshAtOf::FindingClaude { stale, creds } => RefreshAtOf::FindingClaude {
                stale: stale@,
                creds: creds@,
            },
            RefreshAtOf::Locking { stale, creds } => RefreshAtOf::Locking {
                stale: stale@,
                creds: creds@,
            },
            RefreshAtOf::Probing { stale, creds } => RefreshAtOf::Probing {
                stale: stale@,
                creds: creds@,
            },
            RefreshAtOf::ReadingBefore { creds } => RefreshAtOf::ReadingBefore { creds: creds@ },
            RefreshAtOf::RefreshingInPlace { creds, before } => RefreshAtOf::RefreshingInPlace {
                creds: creds@,
                before: before@,
            },
            RefreshAtOf::ReadingAfter { creds, before } => RefreshAtOf::ReadingAfter {
                creds: creds@,
                before: before@,
            },
            RefreshAtOf::Mirroring { after, fresh, changed } => RefreshAtOf::Mirroring {
                after: after@,
                fresh: fresh@,
                changed: *changed,
            },
            RefreshAtOf::ReadingLive { stale, creds } => RefreshAtOf::ReadingLive {
                stale: stale@,
                creds: creds@,
            },
            RefreshAtOf::Counting { stale, creds, live } => RefreshAtOf::Counting {
                stale: stale@,
                creds: creds@,
                live: views::opt(*live),
            },
            RefreshAtOf::Staging { stale, creds, live } => RefreshAtOf::Staging {
                stale: stale@,
                creds: creds@,
                live: views::opt(*live),
            },
            RefreshAtOf::CheckingStage { stale, creds, live } => RefreshAtOf::CheckingStage {
                stale: stale@,
                creds: creds@,
                live: views::opt(*live),
            },
            RefreshAtOf::RefreshingStaged { stale, creds, live } => RefreshAtOf::RefreshingStaged {
                stale: stale@,
                creds: creds@,
                live: views::opt(*live),
            },
            RefreshAtOf::ReadingRefreshed { stale, creds, live } => RefreshAtOf::ReadingRefreshed {
                stale: stale@,
                creds: creds@,
                live: views::opt(*live),
            },
            RefreshAtOf::Persisting { refreshed, live } => RefreshAtOf::Persisting {
                refreshed: refreshed@,
                live: views::opt(*live),
            },
            RefreshAtOf::CheckingRestore { expected, live, then } => RefreshAtOf::CheckingRestore {
                expected: expected@,
                live: views::opt(*live),
                then: then@,
            },
            RefreshAtOf::Restoring { live, then } => RefreshAtOf::Restoring {
                live: live@,
                then: then@,
            },
            RefreshAtOf::Clearing { then } => RefreshAtOf::Clearing { then: then@ },
            RefreshAtOf::RollingBack { live, error } => RefreshAtOf::RollingBack {
                live: live@,
                error: error@,
            },
            RefreshAtOf::CheckingValidity { creds } => RefreshAtOf::CheckingValidity {
                creds: creds@,
            },
        }
    }
}

impl View for RefreshOf<String, Vec<u8>> {
    type V = Job;

    open spec fn view(&self) -> Job {
        RefreshOf {
            canonical: self.canonical@,
            name: self.name@,
            active: self.active,
            at: self.at@,
        }
    }
}

/// The entry holds credentials that are not known to be of another account than `creds`.
pub open spec fn same_account(
    blob: BlobOf<Seq<char>, Seq<u8>>,
    creds: OauthCredsOf<Seq<char>>,
) -> bool {
    blob.creds matches Ok(found) && !profile::cross_account(found.email, creds.email)
}

/// The error without the CLI on the path.
pub open spec fn no_claude() -> ErrorOf<Seq<char>> {
    ErrorOf::Other(
        "`"@ + tool::command_name() + "` CLI not on PATH; run `"@ + tool::command_name()
            + " /login` for this profile manually"@,
    )
}

/// The error without a live credential to refresh.
pub open spec fn no_live() -> ErrorOf<Seq<char>> {
    ErrorOf::Other(
        "no active "@ + tool::brand_name() + " credential in the Keychain; run `"@
            + tool::command_name() + " /login`"@,
    )
}

/// The error for a profile that did not reach the canonical entry.
pub open spec fn not_staged() -> ErrorOf<Seq<char>> {
    ErrorOf::Other("canonical Keychain staging write failed; rolled back to previous"@)
}

/// The error for a live credential that changed accounts meanwhile.
pub open spec fn overtaken(name: Seq<char>) -> ErrorOf<Seq<char>> {
    ErrorOf::Other(
        "another `"@ + tool::command_name()
            + "` session changed the live credential while refreshing `"@ + name + "`; quit "@
            + tool::command_name()
            + " and retry, or run `cs refresh` for the active profile"@,
    )
}

/// The error for an expired token that the CLI left as it was.
pub open spec fn not_refreshed(name: Seq<char>) -> ErrorOf<Seq<char>> {
    ErrorOf::Other(
        tool::brand_name() + " Code did not refresh `"@ + name
            + "`; run `"@ + tool::command_name() + " /login` for this profile manually"@,
    )
}

/// The warning before the live credential is swapped under a running CLI.
pub open spec fn running_line() -> Seq<char> {
    "warning: `"@ + tool::command_name()
        + "` is running; refreshing a background profile briefly swaps the live credential. Quit "@
        + tool::command_name() + ", or run `cs refresh` for the active profile instead."@
}

/// The word of success.
pub open spec fn refreshed_line(name: Seq<char>) -> Seq<char> {
    "refreshed `"@ + name + "`"@
}

/// The line for a live credential that could not be put back.
pub open spec fn restore_failed_line(canonical: Seq<char>, shown: Seq<char>) -> Seq<char> {
    "error: could not restore canonical keychain entry "@ + canonical + ": "@ + shown
}

/// The line for a token without a known expiry.
pub open spec fn valid_line(name: Seq<char>) -> Seq<char> {
    "`"@ + name + "` token still valid; nothing to refresh"@
}

/// The verdict on a credential that the CLI left as it was: an expired one is a
/// failure, any other is simply still valid.
pub open spec fn unchanged(
    creds: OauthCredsOf<Seq<char>>,
    name: Seq<char>,
    now: int,
) -> Result<NoteOf<Seq<char>>, ErrorOf<Seq<char>>> {
    if creds.expired(0, now) {
        Err(not_refreshed(name))
    } else {
        match creds.seconds_left(now) {
            Some(secs) => Ok(NoteOf::StillValid { name, secs }),
            None => Ok(NoteOf::Line(valid_line(name))),
        }
    }
}

/// Waiting at a stage, without a word.
pub open spec fn go(at: Stage) -> Step<Stage> {
    NextOf::Wait { notes: effect::quiet(), job: at }
}

/// Ending with an error, without a word.
pub open spec fn fail(error: ErrorOf<Seq<char>>) -> Step<Stage> {
    NextOf::End { notes: effect::quiet(), result: Err(error) }
}

/// Ending with the word of success.
pub open spec fn succeed(name: Seq<char>) -> Step<Stage> {
    NextOf::End { notes: effect::say(refreshed_line(name)), result: Ok(()) }
}

/// Undoing a staging of `stale` that failed with `error`: the live credential is put back.
/// Where there was none, the entry is cleared, so that the staged profile does not become
/// the live account; but what another process wrote meanwhile is left alone.
pub open spec fn back_out(
    live: Option<Seq<u8>>,
    stale: Seq<u8>,
    error: ErrorOf<Seq<char>>,
) -> Step<Stage> {
    match live {
        Some(live) => go(RefreshAtOf::RollingBack { live, error }),
        None => go(
            RefreshAtOf::CheckingRestore {
                expected: stale,
                live: None,
                then: OutcomeOf::Failed { error },
            },
        ),
    }
}

/// Coming to the outcome of a staged refresh.
pub open spec fn conclude(
    notes: Seq<NoteOf<Seq<char>>>,
    name: Seq<char>,
    then: OutcomeOf<Seq<char>>,
) -> Step<Stage> {
    match then {
        OutcomeOf::Refreshed => NextOf::End {
            notes: notes + effect::say(refreshed_line(name)),
            result: Ok(()),
        },
        OutcomeOf::Unchanged { creds } => NextOf::Wait {
            notes,
            job: RefreshAtOf::CheckingValidity { creds },
        },
        OutcomeOf::Failed { error } => NextOf::End { notes, result: Err(error) },
    }
}

/// Putting the live credential back after a staged refresh that left `expected` in the
/// canonical entry, where `found` is what that entry holds now. What another process
/// wrote meanwhile is left alone; where there was no live credential, the entry is
/// cleared.
pub open spec fn restore(
    found: Option<Seq<u8>>,
    expected: Seq<u8>,
    live: Option<Seq<u8>>,
    name: Seq<char>,
    then: OutcomeOf<Seq<char>>,
) -> Step<Stage> {
    if found is Some && found != Some(expected) {
        conclude(effect::quiet(), name, then)
    } else {
        match live {
            Some(live) => go(RefreshAtOf::Restoring { live, then }),
            None => go(RefreshAtOf::Clearing { then }),
        }
    }
}

impl RefreshOf<Seq<char>, Seq<u8>> {
    /// What a reply gives to remark on: a credential of another account, what another
    /// process wrote meanwhile, and a canonical entry that could not be put back.
    pub open spec fn noticed(self, reply: Rep) -> Option<RemarkOf<Seq<char>>> {
        match (self.at, reply) {
            (RefreshAtOf::ReadingAfter { creds, before }, ReplyOf::Blob(Ok(blob))) =>
                if same_account(blob, creds) {
                None
            } else {
                Some(RemarkOf::NotMirrored { profile: self.name })
            },
            (
                RefreshAtOf::ReadingRefreshed { stale, creds, live },
                ReplyOf::Blob(Ok(blob)),
            ) => if blob.bytes == stale || same_account(blob, creds) {
                None
            } else {
                Some(RemarkOf::Overtaken { profile: self.name })
            },
            (
                RefreshAtOf::CheckingRestore { expected, live, then },
                ReplyOf::Blob(Ok(blob)),
            ) => if blob.bytes == expected {
                None
            } else {
                Some(RemarkOf::Overwritten)
            },
            (RefreshAtOf::Clearing { then }, ReplyOf::Done(Err(f))) => Some(
                RemarkOf::NotCleared { shown: f.shown },
            ),
            (RefreshAtOf::Restoring { live, then }, ReplyOf::Done(Err(f))) => Some(
                RemarkOf::NotRestored { account: self.canonical, shown: f.shown },
            ),
            (RefreshAtOf::RollingBack { live, error }, ReplyOf::Done(Err(f))) => Some(
                RemarkOf::NotRestored { account: self.canonical, shown: f.shown },
            ),
            _ => None,
        }
    }

    /// The stage that follows a reply.
    pub open spec fn turn(self, reply: Rep) -> Step<Stage> {
        match (self.at, reply) {
            (RefreshAtOf::ReadingProfile, ReplyOf::Blob(r)) => match switch::profile_creds(
                self.name,
                r,
            ) {
                Ok((stale, creds)) => go(RefreshAtOf::FindingClaude { stale, creds }),
                Err(e) => fail(e),
            },
            (RefreshAtOf::FindingClaude { stale, creds }, ReplyOf::Flag(found)) => if found {
                go(RefreshAtOf::Locking { stale, creds })
            } else {
                fail(no_claude())
            },
            (RefreshAtOf::Locking { stale, creds }, ReplyOf::Done(r)) => match r {
                Ok(_) => if self.active {
                    go(RefreshAtOf::Probing { stale, creds })
                } else {
                    go(RefreshAtOf::ReadingLive { stale, creds })
                },
                Err(f) => fail(f.error),
            },
            (RefreshAtOf::Probing { stale, creds }, ReplyOf::Blob(r)) => if r matches Ok(blob)
                && same_account(blob, creds) {
                go(RefreshAtOf::ReadingBefore { creds })
            } else {
                go(RefreshAtOf::ReadingLive { stale, creds })
            },
            (RefreshAtOf::ReadingBefore { creds }, ReplyOf::Blob(r)) => match r {
                Ok(blob) => go(RefreshAtOf::RefreshingInPlace { creds, before: blob.bytes }),
                Err(_) => fail(no_live()),
            },
            (RefreshAtOf::RefreshingInPlace { creds, before }, ReplyOf::Done(r)) => match r {
                Ok(_) => go(RefreshAtOf::ReadingAfter { creds, before }),
                Err(f) => fail(f.error),
            },
            (RefreshAtOf::ReadingAfter { creds, before }, ReplyOf::Blob(r)) => match r {
                Ok(blob) => if same_account(blob, creds) {
                    go(
                        RefreshAtOf::Mirroring {
                            after: blob.bytes,
                            fresh: blob.creds->Ok_0,
                            changed: blob.bytes != before,
                        },
                    )
                } else if blob.bytes == before {
                    go(RefreshAtOf::CheckingValidity { creds })
                } else {
                    succeed(self.name)
                },
                Err(f) => fail(f.error),
            },
            (RefreshAtOf::Mirroring { after, fresh, changed }, ReplyOf::Done(r)) => match r {
                Ok(_) => if changed {
                    succeed(self.name)
                } else {
                    go(RefreshAtOf::CheckingValidity { creds: fresh })
                },
                Err(f) => fail(f.error),
            },
            (RefreshAtOf::ReadingLive { stale, creds }, ReplyOf::Blob(r)) => go(
                RefreshAtOf::Counting {
                    stale,
                    creds,
                    live: match r {
                        Ok(blob) => Some(blob.bytes),
                        Err(_) => None,
                    },
                },
            ),
            (RefreshAtOf::Counting { stale, creds, live }, ReplyOf::Count(n)) => NextOf::Wait {
                notes: if n > 0 {
                    effect::say(running_line())
                } else {
                    effect::quiet()
                },
                job: RefreshAtOf::Staging { stale, creds, live },
            },
            (RefreshAtOf::Staging { stale, creds, live }, ReplyOf::Done(r)) => match r {
                Ok(_) => go(RefreshAtOf::CheckingStage { stale, creds, live }),
                Err(f) => fail(f.error),
            },
            (RefreshAtOf::CheckingStage { stale, creds, live }, ReplyOf::Blob(r)) => if r
                matches Ok(blob) && blob.bytes == stale {
                go(RefreshAtOf::RefreshingStaged { stale, creds, live })
            } else {
                back_out(live, stale, not_staged())
            },
            (RefreshAtOf::RefreshingStaged { stale, creds, live }, ReplyOf::Done(r)) => match r {
                Ok(_) => go(RefreshAtOf::ReadingRefreshed { stale, creds, live }),
                Err(f) => back_out(live, stale, f.error),
            },
            (RefreshAtOf::ReadingRefreshed { stale, creds, live }, ReplyOf::Blob(r)) => match r {
                Ok(blob) => if blob.bytes == stale {
                    go(
                        RefreshAtOf::CheckingRestore {
                            expected: stale,
                            live,
                            then: OutcomeOf::Unchanged { creds },
                        },
                    )
                } else if same_account(blob, creds) {
                    go(RefreshAtOf::Persisting { refreshed: blob.bytes, live })
                } else {
                    fail(overtaken(self.name))
                },
                Err(f) => back_out(
                    live,
                    stale,
                    ErrorOf::Keychain("read refreshed canonical: "@ + f.shown),
                ),
            },
            (RefreshAtOf::Persisting { refreshed, live }, ReplyOf::Done(r)) => go(
                RefreshAtOf::CheckingRestore {
                    expected: refreshed,
                    live,
                    then: match r {
                        Ok(_) => OutcomeOf::Refreshed,
                        Err(f) => OutcomeOf::Failed { error: f.error },
                    },
                },
            ),
            (RefreshAtOf::CheckingRestore { expected, live, then }, ReplyOf::Blob(r)) => restore(
                match r {
                    Ok(blob) => Some(blob.bytes),
                    Err(_) => None,
                },
                expected,
                live,
                self.name,
                then,
            ),
            (RefreshAtOf::Restoring { live, then }, ReplyOf::Done(r)) => conclude(
                match r {
                    Ok(_) => effect::quiet(),
                    Err(f) => effect::say(restore_failed_line(self.canonical, f.shown)),
                },
                self.name,
                then,
            ),
            (RefreshAtOf::Clearing { then }, ReplyOf::Done(_)) => conclude(
                effect::quiet(),
                self.name,
                then,
            ),
            (RefreshAtOf::RollingBack { live, error }, ReplyOf::Done(r)) => NextOf::End {
                notes: match r {
                    Ok(_) => effect::quiet(),
                    Err(f) => effect::say(restore_failed_line(self.canonical, f.shown)),
                },
                result: Err(error),
            },
            (RefreshAtOf::CheckingValidity { creds }, ReplyOf::Now(now)) => match unchanged(
                creds,
                self.name,
                now as int,
            ) {
                Ok(note) => NextOf::End { notes: seq![note], result: Ok(()) },
                Err(e) => fail(e),
            },
            (at, _) => go(at),
        }
    }
}

impl Script for RefreshOf<Seq<char>, Seq<u8>> {
    open spec fn pending(self) -> Act {
        match self.at {
            RefreshAtOf::ReadingProfile => ActionOf::Read {
                account: keychain::account_of(self.name),
            },
            RefreshAtOf::FindingClaude { .. } => ActionOf::FindClaude,
            RefreshAtOf::Locking { .. } => ActionOf::Lock,
            RefreshAtOf::Probing { .. } => ActionOf::Read { account: self.canonical },
            RefreshAtOf::ReadingBefore { .. } => ActionOf::Read { account: self.canonical },
            RefreshAtOf::RefreshingInPlace { .. } => ActionOf::RunStatus,
            RefreshAtOf::ReadingAfter { .. } => ActionOf::Read { account: self.canonical },
            RefreshAtOf::Mirroring { after, .. } => ActionOf::WriteVerified {
                account: keychain::account_of(self.name),
                bytes: after,
            },
            RefreshAtOf::ReadingLive { .. } => ActionOf::Read { account: self.canonical },
            RefreshAtOf::Counting { .. } => ActionOf::CountClaude,
            RefreshAtOf::Staging { stale, .. } => ActionOf::Write {
                account: self.canonical,
                bytes: stale,
            },
            RefreshAtOf::CheckingStage { .. } => ActionOf::Read { account: self.canonical },
            RefreshAtOf::RefreshingStaged { .. } => ActionOf::RunStatus,
            RefreshAtOf::ReadingRefreshed { .. } => ActionOf::Read { account: self.canonical },
            RefreshAtOf::Persisting { refreshed, .. } => ActionOf::WriteVerified {
                account: keychain::account_of(self.name),
                bytes: refreshed,
            },
            RefreshAtOf::CheckingRestore { .. } => ActionOf::Read { account: self.canonical },
            RefreshAtOf::Restoring { live, .. } => ActionOf::Write {
                account: self.canonical,
                bytes: live,
            },
            RefreshAtOf::Clearing { .. } => ActionOf::Delete { account: self.canonical },
            RefreshAtOf::RollingBack { live, .. } => ActionOf::Write {
                account: self.canonical,
                bytes: live,
            },
            RefreshAtOf::CheckingValidity { .. } => ActionOf::Clock,
        }
    }

    open spec fn after(self, reply: Rep) -> Step<Self> {
        match self.turn(reply) {
            NextOf::Wait { notes, job } => NextOf::Wait {
                notes,
                job: RefreshOf { at: job, ..self },
            },
            NextOf::End { notes, result } => NextOf::End { notes, result },
        }
    }
}

/// Whether an entry holds credentials that are not known to be of another account.
fn is_same_account(blob: &Blob, creds: &OauthCreds) -> (res: bool)
    ensures
        res == same_account(blob@, creds@),
{
    match &blob.creds {
        Ok(found) => !profile::is_cross_account(&found.email, &creds.email),
        Err(_) => false,
    }
}

/// The verdict on a credential that the CLI left as it was.
pub fn unchanged_result(creds: &OauthCreds, name: &str, now_ms: i64) -> (res: Result<Note, Error>)
    ensures
        views::res(res) == unchanged(creds@, name@, now_ms as int),
{
    if creds.is_expired(0, now_ms) {
        return Err(
            ErrorOf::Other(
                text::join3(
                    &text::join4(&tool::brand(), " Code did not refresh `", name, "`; run `"),
                    tool::command(),
                    " /login` for this profile manually",
                ),
            ),
        );
    }
    match creds.expires_in(now_ms) {
        Some(secs) => Ok(NoteOf::StillValid { name: name.to_owned(), secs }),
        None => Ok(NoteOf::Line(text::join3("`", name, "` token still valid; nothing to refresh"))),
    }
}

fn wait(at: RefreshAt) -> (res: Next<RefreshAt>)
    ensures
        res@ == go(at@),
{
    NextOf::Wait { notes: effect::no_notes(), job: at }
}

fn stop(error: Error) -> (res: Next<RefreshAt>)
    ensures
        res@ == fail(error@),
{
    NextOf::End { notes: effect::no_notes(), result: Err(error) }
}

fn done(name: &str) -> (res: Next<RefreshAt>)
    ensures
        res@ == succeed(name@),
{
    NextOf::End {
        notes: effect::one_line(text::join3("refreshed `", name, "`")),
        result: Ok(()),
    }
}

/// Puts the live credential back after a failure, or sees to it that there is none again.
fn rollback_canonical(live: Option<Vec<u8>>, stale: Vec<u8>, error: Error) -> (res: Next<RefreshAt>)
    ensures
        res@ == back_out(views::opt(live), stale@, error@),
{
    match live {
        Some(live) => wait(RefreshAtOf::RollingBack { live, error }),
        None => wait(
            RefreshAtOf::CheckingRestore {
                expected: stale,
                live: None,
                then: OutcomeOf::Failed { error },
            },
        ),
    }
}

/// The line for a live credential that could not be put back, if it could not.
fn restore_notes(canonical: &str, outcome: Result<(), Fault>) -> (res: Vec<Note>)
    ensures
        views::list(res@) == match views::done(outcome) {
            Ok(_) => effect::quiet(),
            Err(f) => effect::say(restore_failed_line(canonical@, f.shown)),
        },
{
    match outcome {
        Ok(_) => effect::no_notes(),
        Err(f) => effect::one_line(
            text::join4(
                "error: could not restore canonical keychain entry ",
                canonical,
                ": ",
                &f.shown,
            ),
        ),
    }
}

fn come_to(notes: Vec<Note>, name: &str, then: Outcome) -> (res: Next<RefreshAt>)
    ensures
        res@ == conclude(views::list(notes@), name@, then@),
{
    match then {
        OutcomeOf::Refreshed => {
            let ghost before = notes@;
            let mut notes = notes;
            notes.push(NoteOf::Line(text::join3("refreshed `", name, "`")));
            assert(views::list(notes@) =~= views::list(before) + effect::say(
                refreshed_line(name@),
            ));
            NextOf::End { notes, result: Ok(()) }
        },
        OutcomeOf::Unchanged { creds } => NextOf::Wait {
            notes,
            job: RefreshAtOf::CheckingValidity { creds },
        },
        OutcomeOf::Failed { error } => NextOf::End { notes, result: Err(error) },
    }
}

/// Puts the live credential back after a staged refresh, unless another process has
/// written the canonical entry meanwhile.
fn restore_after_staged(
    found: &Result<Blob, Fault>,
    expected: &Vec<u8>,
    live: Option<Vec<u8>>,
    name: &str,
    then: Outcome,
) -> (res: Next<RefreshAt>)
    ensures
        res@ == restore(
            match *found {
                Ok(blob) => Some(blob.bytes@),
                Err(_) => None,
            },
            expected@,
            views::opt(live),
            name@,
            then@,
        ),
{
    let overwritten: bool = match found {
        Ok(blob) => !views::same_bytes(&blob.bytes, expected),
        Err(_) => false,
    };
    if overwritten {
        return come_to(effect::no_notes(), name, then);
    }
    match live {
        Some(live) => wait(RefreshAtOf::Restoring { live, then }),
        None => wait(RefreshAtOf::Clearing { then }),
    }
}

impl RefreshOf<String, Vec<u8>> {
    /// The action that the refresh waits for.
    pub fn pending(&self) -> (res: Action)
        ensures
            res@ == self@.pending(),
    {
        match &self.at {
            RefreshAtOf::ReadingProfile => ActionOf::Read {
                account: keychain::profile_account(&self.name),
            },
            RefreshAtOf::FindingClaude { .. } => ActionOf::FindClaude,
            RefreshAtOf::Locking { .. } => ActionOf::Lock,
            RefreshAtOf::Probing { .. } => ActionOf::Read { account: self.canonical.clone() },
            RefreshAtOf::ReadingBefore { .. } => ActionOf::Read {
                account: self.canonical.clone(),
            },
            RefreshAtOf::RefreshingInPlace { .. } => ActionOf::RunStatus,
            RefreshAtOf::ReadingAfter { .. } => ActionOf::Read { account: self.canonical.clone() },
            RefreshAtOf::Mirroring { after, .. } => ActionOf::WriteVerified {
                account: keychain::profile_account(&self.name),
                bytes: views::copy_bytes(after),
            },
            RefreshAtOf::ReadingLive { .. } => ActionOf::Read { account: self.canonical.clone() },
            RefreshAtOf::Counting { .. } => ActionOf::CountClaude,
            RefreshAtOf::Staging { stale, .. } => ActionOf::Write {
                account: self.canonical.clone(),
                bytes: views::copy_bytes(stale),
            },
            RefreshAtOf::CheckingStage { .. } => ActionOf::Read {
                account: self.canonical.clone(),
            },
            RefreshAtOf::RefreshingStaged { .. } => ActionOf::RunStatus,
            RefreshAtOf::ReadingRefreshed { .. } => ActionOf::Read {
                account: self.canonical.clone(),
            },
            RefreshAtOf::Persisting { refreshed, .. } => ActionOf::WriteVerified {
                account: keychain::profile_account(&self.name),
                bytes: views::copy_bytes(refreshed),
            },
            RefreshAtOf::CheckingRestore { .. } => ActionOf::Read {
                account: self.canonical.clone(),
            },
            RefreshAtOf::Restoring { live, .. } => ActionOf::Write {
                account: self.canonical.clone(),
                bytes: views::copy_bytes(live),
            },
            RefreshAtOf::Clearing { .. } => ActionOf::Delete { account: self.canonical.clone() },
            RefreshAtOf::RollingBack { live, .. } => ActionOf::Write {
                account: self.canonical.clone(),
                bytes: views::copy_bytes(live),
            },
            RefreshAtOf::CheckingValidity { .. } => ActionOf::Clock,
        }
    }

    /// What a reply gives to remark on in the log, if anything.
    pub fn remark(&self, reply: &Reply) -> (res: Option<Remark>)
        ensures
            views::opt(res) == self@.noticed(reply@),
    {
        match (&self.at, reply) {
            (RefreshAtOf::ReadingAfter { creds, before: _ }, ReplyOf::Blob(Ok(blob))) =>
                if is_same_account(blob, creds) {
                None
            } else {
                Some(RemarkOf::NotMirrored { profile: self.name.clone() })
            },
            (
                RefreshAtOf::ReadingRefreshed { stale, creds, live: _ },
                ReplyOf::Blob(Ok(blob)),
            ) => if views::same_bytes(&blob.bytes, stale) || is_same_account(blob, creds) {
                None
            } else {
                Some(RemarkOf::Overtaken { profile: self.name.clone() })
            },
            (
                RefreshAtOf::CheckingRestore { expected, live: _, then: _ },
                ReplyOf::Blob(Ok(blob)),
            ) => if views::same_bytes(&blob.bytes, expected) {
                None
            } else {
                Some(RemarkOf::Overwritten)
            },
            (RefreshAtOf::Clearing { then: _ }, ReplyOf::Done(Err(f))) => Some(
                RemarkOf::NotCleared { shown: f.shown.clone() },
            ),
            (RefreshAtOf::Restoring { live: _, then: _ }, ReplyOf::Done(Err(f))) => Some(
                RemarkOf::NotRestored {
                    account: self.canonical.clone(),
                    shown: f.shown.clone(),
                },
            ),
            (RefreshAtOf::RollingBack { live: _, error: _ }, ReplyOf::Done(Err(f))) => Some(
                RemarkOf::NotRestored {
                    account: self.canonical.clone(),
                    shown: f.shown.clone(),
                },
            ),
            _ => None,
        }
    }

    /// How the refresh goes on after a reply.
    pub fn after(self, reply: Reply) -> (res: Next<Refresh>)
        ensures
            res@ == self@.after(reply@),
    {
        let RefreshOf { canonical, name, active, at } = self;
        let next: Next<RefreshAt> = match (at, reply) {
            (RefreshAtOf::ReadingProfile, ReplyOf::Blob(r)) =>
                match switch::read_target_claude(&name, r) {
                Ok((stale, creds)) => wait(RefreshAtOf::FindingClaude { stale, creds }),
                Err(e) => stop(e),
            },
            (RefreshAtOf::FindingClaude { stale, creds }, ReplyOf::Flag(found)) => if found {
                wait(RefreshAtOf::Locking { stale, creds })
            } else {
                stop(
                    ErrorOf::Other(
                        text::join5(
                            "`",
                            tool::command(),
                            "` CLI not on PATH; run `",
                            tool::command(),
                            " /login` for this profile manually",
                        ),
                    ),
                )
            },
            (RefreshAtOf::Locking { stale, creds }, ReplyOf::Done(r)) => match r {
                Ok(_) => if active {
                    wait(RefreshAtOf::Probing { stale, creds })
                } else {
                    wait(RefreshAtOf::ReadingLive { stale, creds })
                },
                Err(f) => stop(f.error),
            },
            (RefreshAtOf::Probing { stale, creds }, ReplyOf::Blob(r)) => {
                let ours: bool = match &r {
                    Ok(blob) => is_same_account(blob, &creds),
                    Err(_) => false,
                };
                if ours {
                    wait(RefreshAtOf::ReadingBefore { creds })
                } else {
                    wait(RefreshAtOf::ReadingLive { stale, creds })
                }
            },
            (RefreshAtOf::ReadingBefore { creds }, ReplyOf::Blob(r)) => match r {
                Ok(blob) => wait(RefreshAtOf::RefreshingInPlace { creds, before: blob.bytes }),
                Err(_) => stop(
                    ErrorOf::Other(
                        text::join5(
                            "no active ",
                            &tool::brand(),
                            " credential in the Keychain; run `",
                            tool::command(),
                            " /login`",
                        ),
                    ),
                ),
            },
            (RefreshAtOf::RefreshingInPlace { creds, before }, ReplyOf::Done(r)) => match r {
                Ok(_) => wait(RefreshAtOf::ReadingAfter { creds, before }),
                Err(f) => stop(f.error),
            },
            (RefreshAtOf::ReadingAfter { creds, before }, ReplyOf::Blob(r)) => match r {
                Ok(blob) => {
                    let changed: bool = !views::same_bytes(&blob.bytes, &before);
                    let ours: bool = is_same_account(&blob, &creds);
                    match blob.creds {
                        Ok(fresh) if ours => wait(
                            RefreshAtOf::Mirroring { after: blob.bytes, fresh, changed },
                        ),
                        _ => if changed {
                            done(&name)
                        } else {
                            wait(RefreshAtOf::CheckingValidity { creds })
                        },
                    }
                },
                Err(f) => stop(f.error),
            },
            (RefreshAtOf::Mirroring { after: _, fresh, changed }, ReplyOf::Done(r)) => match r {
                Ok(_) => if changed {
                    done(&name)
                } else {
                    wait(RefreshAtOf::CheckingValidity { creds: fresh })
                },
                Err(f) => stop(f.error),
            },
            (RefreshAtOf::ReadingLive { stale, creds }, ReplyOf::Blob(r)) => match r {
                Ok(blob) => wait(RefreshAtOf::Counting { stale, creds, live: Some(blob.bytes) }),
                Err(_) => wait(RefreshAtOf::Counting { stale, creds, live: None }),
            },
            (RefreshAtOf::Counting { stale, creds, live }, ReplyOf::Count(n)) => NextOf::Wait {
                notes: if n > 0 {
                    effect::one_line(
                        text::join5(
                            "warning: `",
                            tool::command(),
                            "` is running; refreshing a background profile briefly swaps the live credential. Quit ",
                            tool::command(),
                            ", or run `cs refresh` for the active profile instead.",
                        ),
                    )
                } else {
                    effect::no_notes()
                },
                job: RefreshAtOf::Staging { stale, creds, live },
            },
            (RefreshAtOf::Staging { stale, creds, live }, ReplyOf::Done(r)) => match r {
                Ok(_) => wait(RefreshAtOf::CheckingStage { stale, creds, live }),
                Err(f) => stop(f.error),
            },
            (RefreshAtOf::CheckingStage { stale, creds, live }, ReplyOf::Blob(r)) => {
                let held: bool = match &r {
                    Ok(blob) => views::same_bytes(&blob.bytes, &stale),
                    Err(_) => false,
                };
                if held {
                    wait(RefreshAtOf::RefreshingStaged { stale, creds, live })
                } else {
                    rollback_canonical(
                        live,
                        stale,
                        ErrorOf::Other(
                            "canonical Keychain staging write failed; rolled back to previous".to_owned(),
                        ),
                    )
                }
            },
            (RefreshAtOf::RefreshingStaged { stale, creds, live }, ReplyOf::Done(r)) => match r {
                Ok(_) => wait(RefreshAtOf::ReadingRefreshed { stale, creds, live }),
                Err(f) => rollback_canonical(live, stale, f.error),
            },
            (RefreshAtOf::ReadingRefreshed { stale, creds, live }, ReplyOf::Blob(r)) => match r {
                Ok(blob) => if views::same_bytes(&blob.bytes, &stale) {
                    wait(
                        RefreshAtOf::CheckingRestore {
                            expected: stale,
                            live,
                            then: OutcomeOf::Unchanged { creds },
                        },
                    )
                } else if is_same_account(&blob, &creds) {
                    wait(RefreshAtOf::Persisting { refreshed: blob.bytes, live })
                } else {
                    stop(
                        ErrorOf::Other(
                            text::join3(
                                &text::join5(
                                    "another `",
                                    tool::command(),
                                    "` session changed the live credential while refreshing `",
                                    &name,
                                    "`; quit ",
                                ),
                                tool::command(),
                                " and retry, or run `cs refresh` for the active profile",
                            ),
                        ),
                    )
                },
                Err(f) => {
                    let mut message: String = "read refreshed canonical: ".to_owned();
                    message.append(&f.shown);
                    rollback_canonical(live, stale, ErrorOf::Keychain(message))
                },
            },
            (RefreshAtOf::Persisting { refreshed, live }, ReplyOf::Done(r)) => {
                let then: Outcome = match r {
                    Ok(_) => OutcomeOf::Refreshed,
                    Err(f) => OutcomeOf::Failed { error: f.error },
                };
                wait(RefreshAtOf::CheckingRestore { expected: refreshed, live, then })
            },
            (RefreshAtOf::CheckingRestore { expected, live, then }, ReplyOf::Blob(r)) =>
                restore_after_staged(&r, &expected, live, &name, then),
            (RefreshAtOf::Restoring { live: _, then }, ReplyOf::Done(r)) => come_to(
                restore_notes(&canonical, r),
                &name,
                then,
            ),
            (RefreshAtOf::Clearing { then }, ReplyOf::Done(_)) => come_to(
                effect::no_notes(),
                &name,
                then,
            ),
            (RefreshAtOf::RollingBack { live: _, error }, ReplyOf::Done(r)) => NextOf::End {
                notes: restore_notes(&canonical, r),
                result: Err(error),
            },
            (RefreshAtOf::CheckingValidity { creds }, ReplyOf::Now(now)) => match unchanged_result(
                &creds,
                &name,
                now,
            ) {
                Ok(note) => {
                    let ghost shown = note@;
                    let notes: Vec<Note> = vec![note];
                    assert(views::list(notes@) =~= seq![shown]);
                    NextOf::End { notes, result: Ok(()) }
                },
                Err(e) => stop(e),
            },
            (at, _) => wait(at),
        };
        match next {
            NextOf::Wait { notes, job } => NextOf::Wait {
                notes,
                job: RefreshOf { canonical, name, active, at: job },
            },
            NextOf::End { notes, result } => NextOf::End { notes, result },
        }
    }
}

/// A refresh that has yet to read the profile.
pub open spec fn started(canonical: Seq<char>, name: Seq<char>, active: bool) -> Job {
    RefreshOf { canonical, name, active, at: RefreshAtOf::ReadingProfile }
}

/// The profile that a refresh means: the one that is named, or else the active one.
pub open spec fn meant(named: Option<Seq<char>>, active: Option<Seq<char>>) -> Option<Seq<char>> {
    match named {
        Some(name) => Some(name),
        None => active,
    }
}

/// Starts a refresh of the named profile, or else of the active one, in the state as it
/// was loaded (`None` where it could not be).
pub fn run(canonical: String, loaded: Option<State>, args: &OptionalNameArg) -> (res: Result<
    Refresh,
    Error,
>)
    ensures
        ({
            let active = StateOf::or_fresh(views::opt(loaded)).active;
            match meant(views::opt(args.name), active) {
                Some(name) => res matches Ok(job) && job@ == started(
                    canonical@,
                    name,
                    active == Some(name),
                ),
                None => res matches Err(e) && e@ == ErrorOf::<Seq<char>>::NoActiveProfile,
            }
        }),
{
    let state: State = State::loaded(loaded);
    let meant: Option<String> = match &args.name {
        Some(name) => Some(name.clone()),
        None => views::copy_opt(&state.active),
    };
    match meant {
        Some(name) => {
            let active: bool = views::is_text(&state.active, &name);
            Ok(RefreshOf { canonical, name, active, at: RefreshAtOf::ReadingProfile })
        },
        None => Err(ErrorOf::NoActiveProfile),
    }
}

} // verus!
