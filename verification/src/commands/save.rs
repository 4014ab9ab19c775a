//! `cs save`: keep the live credential as a profile.

use vstd::prelude::*;

use crate::cli::SaveArgs;
use crate::effect;
use crate::effect::{Act, Action, ActionOf, Next, NextOf, Rep, Reply, ReplyOf};
use crate::effect::{Script, Step};
use crate::error::{Error, ErrorOf};
use crate::keychain;
use crate::paths;
use crate::text;
use crate::tool;
use crate::views;

verus! {

/// A save under way.
#[derive(Debug, PartialEq, Eq)]
pub struct SaveOf<T, B> {
    /// The account of the live credential.
    pub canonical: T,
    /// The profile to save it as.
    pub name: T,
    /// How far the save has come.
    pub at: SaveAtOf<B>,
}

/// The stages of a save. `bytes` is the live credential; `existed` tells whether the
/// profile had an entry before.
#[allow(inconsistent_fields)]
#[derive(Debug, PartialEq, Eq)]
pub enum SaveAtOf<B> {
    Locking,
    ReadingCanonical,
    ReadingProfile { bytes: B },
    ReadingSettings { bytes: B, existed: bool },
    Writing { bytes: B, existed: bool, settings: Option<B> },
    StoringSettings { settings: B, existed: bool },
}

pub type Save = SaveOf<String, Vec<u8>>;

pub type SaveAt = SaveAtOf<Vec<u8>>;

/// A stage in specifications.
pub type Stage = SaveAtOf<Seq<u8>>;

/// A save in specifications.
pub type Job = SaveOf<Seq<char>, Seq<u8>>;

impl<B: View> View for SaveAtOf<B> {
    type V = SaveAtOf<B::V>;

    open spec fn view(&self) -> SaveAtOf<B::V> {
        match self {
            SaveAtOf::Locking => SaveAtOf::Locking,
            SaveAtOf::ReadingCanonical => SaveAtOf::ReadingCanonical,
            SaveAtOf::ReadingProfile { bytes } => SaveAtOf::ReadingProfile { bytes: bytes@ },
            SaveAtOf::ReadingSettings { bytes, existed } => SaveAtOf::ReadingSettings {
                bytes: bytes@,
                existed: *existed,
            },
            SaveAtOf::Writing { bytes, existed, settings } => SaveAtOf::Writing {
                bytes: bytes@,
                existed: *existed,
                settings: views::opt(*settings),
            },
            SaveAtOf::StoringSettings { settings, existed } => SaveAtOf::StoringSettings {
                settings: settings@,
                existed: *existed,
            },
        }
    }
}

impl<T: View, B: View> View for SaveOf<T, B> {
    type V = SaveOf<T::V, B::V>;

    open spec fn view(&self) -> SaveOf<T::V, B::V> {
        SaveOf { canonical: self.canonical@, name: self.name@, at: self.at@ }
    }
}

/// The error without a live credential to save.
pub open spec fn nothing_to_save() -> ErrorOf<Seq<char>> {
    ErrorOf::Other(
        "no active "@ + tool::brand_name() + " credential to save (run `"@ + tool::command_name()
            + " /login` first)"@,
    )
}

/// The word of success.
pub open spec fn saved_line(name: Seq<char>, existed: bool) -> Seq<char> {
    if existed {
        "overwrote profile `"@ + name + "` with current "@ + tool::command_name() + " credentials"@
    } else {
        "saved profile `"@ + name + "` for "@ + tool::command_name()
    }
}

/// Waiting at a stage, without a word.
pub open spec fn go(at: Stage) -> Step<Stage> {
    NextOf::Wait { notes: effect::quiet(), job: at }
}

/// Ending with an error, without a word.
pub open spec fn fail(error: ErrorOf<Seq<char>>) -> Step<Stage> {
    NextOf::End { notes: effect::quiet(), result: Err(error) }
}

/// Ending with the word of success.
pub open spec fn succeed(name: Seq<char>, existed: bool) -> Step<Stage> {
    NextOf::End { notes: effect::say(saved_line(name, existed)), result: Ok(()) }
}

impl SaveOf<Seq<char>, Seq<u8>> {
    /// The stage that follows a reply.
    pub open spec fn turn(self, reply: Rep) -> Step<Stage> {
        match (self.at, reply) {
            (SaveAtOf::Locking, ReplyOf::Done(r)) => match r {
                Ok(_) => go(SaveAtOf::ReadingCanonical),
                Err(f) => fail(f.error),
            },
            (SaveAtOf::ReadingCanonical, ReplyOf::Blob(r)) => match r {
                Ok(blob) => match blob.creds {
                    Ok(_) => go(SaveAtOf::ReadingProfile { bytes: blob.bytes }),
                    Err(e) => fail(e),
                },
                Err(_) => fail(nothing_to_save()),
            },
            (SaveAtOf::ReadingProfile { bytes }, ReplyOf::Blob(r)) => go(
                SaveAtOf::ReadingSettings { bytes, existed: r is Ok },
            ),
            (SaveAtOf::ReadingSettings { bytes, existed }, ReplyOf::Bytes(settings)) => go(
                SaveAtOf::Writing { bytes, existed, settings },
            ),
            (SaveAtOf::Writing { bytes, existed, settings }, ReplyOf::Done(r)) => match r {
                Ok(_) => match settings {
                    Some(settings) => go(SaveAtOf::StoringSettings { settings, existed }),
                    None => succeed(self.name, existed),
                },
                Err(f) => fail(f.error),
            },
            (SaveAtOf::StoringSettings { settings, existed }, ReplyOf::Done(r)) => match r {
                Ok(_) => succeed(self.name, existed),
                Err(f) => fail(f.error),
            },
            (at, _) => go(at),
        }
    }
}

impl Script for SaveOf<Seq<char>, Seq<u8>> {
    open spec fn pending(self) -> Act {
        match self.at {
            SaveAtOf::Locking => ActionOf::Lock,
            SaveAtOf::ReadingCanonical => ActionOf::Read { account: self.canonical },
            SaveAtOf::ReadingProfile { .. } => ActionOf::Read {
                account: keychain::account_of(self.name),
            },
            SaveAtOf::ReadingSettings { .. } => ActionOf::ReadSettings,
            SaveAtOf::Writing { bytes, .. } => ActionOf::WriteVerified {
                account: keychain::account_of(self.name),
                bytes,
            },
            SaveAtOf::StoringSettings { settings, .. } => ActionOf::StoreSettings {
                profile: self.name,
                bytes: settings,
            },
        }
    }

    open spec fn after(self, reply: Rep) -> Step<Self> {
        match self.turn(reply) {
            NextOf::Wait { notes, job } => NextOf::Wait { notes, job: SaveOf { at: job, ..self } },
            NextOf::End { notes, result } => NextOf::End { notes, result },
        }
    }
}

fn wait(at: SaveAt) -> (res: Next<SaveAt>)
    ensures
        res@ == go(at@),
{
    NextOf::Wait { notes: effect::no_notes(), job: at }
}

fn stop(error: Error) -> (res: Next<SaveAt>)
    ensures
        res@ == fail(error@),
{
    NextOf::End { notes: effect::no_notes(), result: Err(error) }
}

fn done(name: &str, existed: bool) -> (res: Next<SaveAt>)
    ensures
        res@ == succeed(name@, existed),
{
    let line: String = if existed {
        text::join5("overwrote profile `", name, "` with current ", tool::command(), " credentials")
    } else {
        text::join4("saved profile `", name, "` for ", tool::command())
    };
    NextOf::End { notes: effect::one_line(line), result: Ok(()) }
}

impl SaveOf<String, Vec<u8>> {
    /// The action that the save waits for.
    pub fn pending(&self) -> (res: Action)
        ensures
            res@ == self@.pending(),
    {
        match &self.at {
            SaveAtOf::Locking => ActionOf::Lock,
            SaveAtOf::ReadingCanonical => ActionOf::Read { account: self.canonical.clone() },
            SaveAtOf::ReadingProfile { .. } => ActionOf::Read {
                account: keychain::profile_account(&self.name),
            },
            SaveAtOf::ReadingSettings { .. } => ActionOf::ReadSettings,
            SaveAtOf::Writing { bytes, .. } => ActionOf::WriteVerified {
                account: keychain::profile_account(&self.name),
                bytes: views::copy_bytes(bytes),
            },
            SaveAtOf::StoringSettings { settings, .. } => ActionOf::StoreSettings {
                profile: self.name.clone(),
                bytes: views::copy_bytes(settings),
            },
        }
    }

    /// How the save goes on after a reply.
    pub fn after(self, reply: Reply) -> (res: Next<Save>)
        ensures
            res@ == self@.after(reply@),
    {
        let SaveOf { canonical, name, at } = self;
        let next: Next<SaveAt> = match (at, reply) {
            (SaveAtOf::Locking, ReplyOf::Done(r)) => match r {
                Ok(_) => wait(SaveAtOf::ReadingCanonical),
                Err(f) => stop(f.error),
            },
            (SaveAtOf::ReadingCanonical, ReplyOf::Blob(r)) => match r {
                Ok(blob) => match blob.creds {
                    Ok(_) => wait(SaveAtOf::ReadingProfile { bytes: blob.bytes }),
                    Err(e) => stop(e),
                },
                Err(_) => stop(
                    ErrorOf::Other(
                        text::join5(
                            "no active ",
                            &tool::brand(),
                            " credential to save (run `",
                            tool::command(),
                            " /login` first)",
                        ),
                    ),
                ),
            },
            (SaveAtOf::ReadingProfile { bytes }, ReplyOf::Blob(r)) => wait(
                SaveAtOf::ReadingSettings { bytes, existed: r.is_ok() },
            ),
            (SaveAtOf::ReadingSettings { bytes, existed }, ReplyOf::Bytes(settings)) => wait(
                SaveAtOf::Writing { bytes, existed, settings },
            ),
            (SaveAtOf::Writing { bytes: _, existed, settings }, ReplyOf::Done(r)) => match r {
                Ok(_) => match settings {
                    Some(settings) => wait(SaveAtOf::StoringSettings { settings, existed }),
                    None => done(&name, existed),
                },
                Err(f) => stop(f.error),
            },
            (SaveAtOf::StoringSettings { settings: _, existed }, ReplyOf::Done(r)) => match r {
                Ok(_) => done(&name, existed),
                Err(f) => stop(f.error),
            },
            (at, _) => wait(at),
        };
        match next {
            NextOf::Wait { notes, job } => NextOf::Wait {
                notes,
                job: SaveOf { canonical, name, at: job },
            },
            NextOf::End { notes, result } => NextOf::End { notes, result },
        }
    }
}

/// A save that has yet to take the lock.
pub open spec fn started(canonical: Seq<char>, name: Seq<char>) -> Job {
    SaveOf { canonical, name, at: SaveAtOf::Locking }
}

/// Starts a save of the live credential. A name that no profile may have is refused.
pub fn run(canonical: String, args: &SaveArgs) -> (res: Result<Save, Error>)
    ensures
        match res {
            Ok(job) => paths::valid_name(args.name@) && job@ == started(canonical@, args.name@),
            Err(e) => !paths::valid_name(args.name@) && e@ == paths::invalid_name(args.name@),
        },
{
    match paths::validate_profile_name(&args.name) {
        Ok(_) => Ok(SaveOf { canonical, name: args.name.clone(), at: SaveAtOf::Locking }),
        Err(e) => Err(e),
    }
}

} // verus!
