//! `cs rename`: give a profile another name.

use vstd::prelude::*;

use crate::cli::RenameArgs;
use crate::effect;
use crate::effect::{Act, Action, ActionOf, Next, NextOf, Rep, Reply, ReplyOf, Script, Step};
use crate::error::{Error, ErrorOf};
use crate::keychain;
use crate::paths;
use crate::state::{State, StateOf};
use crate::text;
use crate::views;

verus! {

/// A rename under way.
#[derive(Debug, PartialEq, Eq)]
pub struct RenameOf<T, B> {
    pub from: T,
    pub to: T,
    /// How far the rename has come.
    pub at: RenameAtOf<T, B>,
}

/// The stages of a rename. `bytes` is the profile's keychain entry, where it has one;
/// `dir` tells whether it has a directory.
#[allow(inconsistent_fields)]
#[derive(Debug, PartialEq, Eq)]
pub enum RenameAtOf<T, B> {
    Locking,
    ReadingSource,
    LookingForSource { bytes: Option<B> },
    ReadingTarget { bytes: B, dir: bool },
    LookingForTarget { bytes: Option<B> },
    LoadingState { bytes: Option<B>, dir: bool },
    Copying { bytes: B, dir: bool, state: StateOf<T> },
    Deleting { dir: bool, state: StateOf<T> },
    Moving { state: StateOf<T> },
    Retargeting { state: StateOf<T> },
    Saving { state: StateOf<T> },
}

pub type Rename = RenameOf<String, Vec<u8>>;

pub type RenameAt = RenameAtOf<String, Vec<u8>>;

/// A stage in specifications.
pub type Stage = RenameAtOf<Seq<char>, Seq<u8>>;

/// A rename in specifications.
pub type Job = RenameOf<Seq<char>, Seq<u8>>;

impl<T: View, B: View> View for RenameAtOf<T, B> {
    type V = RenameAtOf<T::V, B::V>;

    open spec fn view(&self) -> RenameAtOf<T::V, B::V> {
        match self {
            RenameAtOf::Locking => RenameAtOf::Locking,
            RenameAtOf::ReadingSource => RenameAtOf::ReadingSource,
            RenameAtOf::LookingForSource { bytes } => RenameAtOf::LookingForSource {
                bytes: views::opt(*bytes),
            },
            RenameAtOf::ReadingTarget { bytes, dir } => RenameAtOf::ReadingTarget {
                bytes: bytes@,
                dir: *dir,
            },
            RenameAtOf::LookingForTarget { bytes } => RenameAtOf::LookingForTarget {
                bytes: views::opt(*bytes),
            },
            RenameAtOf::LoadingState { bytes, dir } => RenameAtOf::LoadingState {
                bytes: views::opt(*bytes),
                dir: *dir,
            },
            RenameAtOf::Copying { bytes, dir, state } => RenameAtOf::Copying {
                bytes: bytes@,
                dir: *dir,
                state: state@,
            },
            RenameAtOf::Deleting { dir, state } => RenameAtOf::Deleting {
                dir: *dir,
                state: state@,
            },
            RenameAtOf::Moving { state } => RenameAtOf::Moving { state: state@ },
            RenameAtOf::Retargeting { state } => RenameAtOf::Retargeting { state: state@ },
            RenameAtOf::Saving { state } => RenameAtOf::Saving { state: state@ },
        }
    }
}

impl<T: View, B: View> View for RenameOf<T, B> {
    type V = RenameOf<T::V, B::V>;

    open spec fn view(&self) -> RenameOf<T::V, B::V> {
        RenameOf { from: self.from@, to: self.to@, at: self.at@ }
    }
}

/// The word of success.
pub open spec fn renamed_line(from: Seq<char>, to: Seq<char>) -> Seq<char> {
    "renamed `"@ + from + "` -> `"@ + to + "`"@
}

/// Waiting at a stage, without a word.
pub open spec fn go(at: Stage) -> Step<Stage> {
    NextOf::Wait { notes: effect::quiet(), job: at }
}

/// Ending with an error, without a word.
pub open spec fn fail(error: ErrorOf<Seq<char>>) -> Step<Stage> {
    NextOf::End { notes: effect::quiet(), result: Err(error) }
}

/// What follows once it is known that the source exists and that its entry, if any,
/// would not overwrite another.
pub open spec fn check_dirs(bytes: Option<Seq<u8>>, dir: bool) -> Step<Stage> {
    if dir {
        go(RenameAtOf::LookingForTarget { bytes })
    } else {
        go(RenameAtOf::LoadingState { bytes, dir })
    }
}

/// What follows the move of the keychain entry.
pub open spec fn move_dir(
    from: Seq<char>,
    to: Seq<char>,
    dir: bool,
    state: StateOf<Seq<char>>,
) -> Step<Stage> {
    if dir {
        go(RenameAtOf::Moving { state })
    } else {
        repoint(from, to, state)
    }
}

/// What follows the move of the directory: pointers to the old name are changed.
pub open spec fn repoint(
    from: Seq<char>,
    to: Seq<char>,
    state: StateOf<Seq<char>>,
) -> Step<Stage> {
    if state.mentions(from) {
        go(RenameAtOf::Saving { state: state.renamed(from, to) })
    } else {
        succeed(from, to)
    }
}

/// Ending with the word of success.
pub open spec fn succeed(from: Seq<char>, to: Seq<char>) -> Step<Stage> {
    NextOf::End { notes: effect::say(renamed_line(from, to)), result: Ok(()) }
}

impl RenameOf<Seq<char>, Seq<u8>> {
    /// The stage that follows a reply.
    pub open spec fn turn(self, reply: Rep) -> Step<Stage> {
        match (self.at, reply) {
            (RenameAtOf::Locking, ReplyOf::Done(r)) => match r {
                Ok(_) => go(RenameAtOf::ReadingSource),
                Err(f) => fail(f.error),
            },
            (RenameAtOf::ReadingSource, ReplyOf::Blob(r)) => go(
                RenameAtOf::LookingForSource {
                    bytes: match r {
                        Ok(blob) => Some(blob.bytes),
                        Err(_) => None,
                    },
                },
            ),
            (RenameAtOf::LookingForSource { bytes }, ReplyOf::Flag(dir)) => match bytes {
                Some(bytes) => go(RenameAtOf::ReadingTarget { bytes, dir }),
                None => if dir {
                    check_dirs(None, dir)
                } else {
                    fail(ErrorOf::ProfileNotFound(self.from))
                },
            },
            (RenameAtOf::ReadingTarget { bytes, dir }, ReplyOf::Blob(r)) => match r {
                Ok(_) => fail(ErrorOf::ProfileExists(self.to)),
                Err(_) => check_dirs(Some(bytes), dir),
            },
            (RenameAtOf::LookingForTarget { bytes }, ReplyOf::Flag(taken)) => if taken {
                fail(ErrorOf::ProfileExists(self.to))
            } else {
                go(RenameAtOf::LoadingState { bytes, dir: true })
            },
            (RenameAtOf::LoadingState { bytes, dir }, ReplyOf::State(loaded)) => {
                let state = StateOf::or_fresh(loaded);
                match bytes {
                    Some(bytes) => go(RenameAtOf::Copying { bytes, dir, state }),
                    None => move_dir(self.from, self.to, dir, state),
                }
            },
            (RenameAtOf::Copying { bytes, dir, state }, ReplyOf::Done(r)) => match r {
                Ok(_) => go(RenameAtOf::Deleting { dir, state }),
                Err(f) => fail(f.error),
            },
            (RenameAtOf::Deleting { dir, state }, ReplyOf::Done(r)) => match r {
                Ok(_) => move_dir(self.from, self.to, dir, state),
                Err(f) => fail(f.error),
            },
            (RenameAtOf::Moving { state }, ReplyOf::Done(r)) => match r {
                Ok(_) => if state.master == Some(self.from) {
                    go(RenameAtOf::Retargeting { state })
                } else {
                    repoint(self.from, self.to, state)
                },
                Err(f) => fail(f.error),
            },
            (RenameAtOf::Retargeting { state }, ReplyOf::Done(r)) => match r {
                Ok(_) => repoint(self.from, self.to, state),
                Err(f) => fail(f.error),
            },
            (RenameAtOf::Saving { state }, ReplyOf::Done(r)) => match r {
                Ok(_) => succeed(self.from, self.to),
                Err(f) => fail(f.error),
            },
            (at, _) => go(at),
        }
    }
}

impl Script for RenameOf<Seq<char>, Seq<u8>> {
    open spec fn pending(self) -> Act {
        match self.at {
            RenameAtOf::Locking => ActionOf::Lock,
            RenameAtOf::ReadingSource => ActionOf::Read {
                account: keychain::account_of(self.from),
            },
            RenameAtOf::LookingForSource { .. } => ActionOf::HasDir { profile: self.from },
            RenameAtOf::ReadingTarget { .. } => ActionOf::Read {
                account: keychain::account_of(self.to),
            },
            RenameAtOf::LookingForTarget { .. } => ActionOf::HasDir { profile: self.to },
            RenameAtOf::LoadingState { .. } => ActionOf::LoadState,
            RenameAtOf::Copying { bytes, .. } => ActionOf::WriteVerified {
                account: keychain::account_of(self.to),
                bytes,
            },
            RenameAtOf::Deleting { .. } => ActionOf::Delete {
                account: keychain::account_of(self.from),
            },
            RenameAtOf::Moving { .. } => ActionOf::MoveDir { from: self.from, to: self.to },
            RenameAtOf::Retargeting { .. } => ActionOf::RetargetLinks { profile: self.to },
            RenameAtOf::Saving { state } => ActionOf::SaveState { state },
        }
    }

    open spec fn after(self, reply: Rep) -> Step<Self> {
        match self.turn(reply) {
            NextOf::Wait { notes, job } => NextOf::Wait {
                notes,
                job: RenameOf { at: job, ..self },
            },
            NextOf::End { notes, result } => NextOf::End { notes, result },
        }
    }
}

fn wait(at: RenameAt) -> (res: Next<RenameAt>)
    ensures
        res@ == go(at@),
{
    NextOf::Wait { notes: effect::no_notes(), job: at }
}

fn stop(error: Error) -> (res: Next<RenameAt>)
    ensures
        res@ == fail(error@),
{
    NextOf::End { notes: effect::no_notes(), result: Err(error) }
}

fn done(from: &String, to: &String) -> (res: Next<RenameAt>)
    ensures
        res@ == succeed(from@, to@),
{
    NextOf::End {
        notes: effect::one_line(text::join5("renamed `", from, "` -> `", to, "`")),
        result: Ok(()),
    }
}

fn then_check_dirs(bytes: Option<Vec<u8>>, dir: bool) -> (res: Next<RenameAt>)
    ensures
        res@ == check_dirs(views::opt(bytes), dir),
{
    if dir {
        wait(RenameAtOf::LookingForTarget { bytes })
    } else {
        wait(RenameAtOf::LoadingState { bytes, dir })
    }
}

fn then_move_dir(from: &String, to: &String, dir: bool, state: State) -> (res: Next<RenameAt>)
    ensures
        res@ == move_dir(from@, to@, dir, state@),
{
    if dir {
        wait(RenameAtOf::Moving { state })
    } else {
        then_repoint(from, to, state)
    }
}

fn then_repoint(from: &String, to: &String, state: State) -> (res: Next<RenameAt>)
    ensures
        res@ == repoint(from@, to@, state@),
{
    if state.names(from) {
        wait(RenameAtOf::Saving { state: state.rename(from, to) })
    } else {
        done(from, to)
    }
}

impl RenameOf<String, Vec<u8>> {
    /// The action that the rename waits for.
    pub fn pending(&self) -> (res: Action)
        ensures
            res@ == self@.pending(),
    {
        match &self.at {
            RenameAtOf::Locking => ActionOf::Lock,
            RenameAtOf::ReadingSource => ActionOf::Read {
                account: keychain::profile_account(&self.from),
            },
            RenameAtOf::LookingForSource { .. } => ActionOf::HasDir { profile: self.from.clone() },
            RenameAtOf::ReadingTarget { .. } => ActionOf::Read {
                account: keychain::profile_account(&self.to),
            },
            RenameAtOf::LookingForTarget { .. } => ActionOf::HasDir { profile: self.to.clone() },
            RenameAtOf::LoadingState { .. } => ActionOf::LoadState,
            RenameAtOf::Copying { bytes, .. } => ActionOf::WriteVerified {
                account: keychain::profile_account(&self.to),
                bytes: views::copy_bytes(bytes),
            },
            RenameAtOf::Deleting { .. } => ActionOf::Delete {
                account: keychain::profile_account(&self.from),
            },
            RenameAtOf::Moving { .. } => ActionOf::MoveDir {
                from: self.from.clone(),
                to: self.to.clone(),
            },
            RenameAtOf::Retargeting { .. } => ActionOf::RetargetLinks { profile: self.to.clone() },
            RenameAtOf::Saving { state } => ActionOf::SaveState { state: state.copy() },
        }
    }

    /// How the rename goes on after a reply.
    pub fn after(self, reply: Reply) -> (res: Next<Rename>)
        ensures
            res@ == self@.after(reply@),
    {
        let RenameOf { from, to, at } = self;
        let next: Next<RenameAt> = match (at, reply) {
            (RenameAtOf::Locking, ReplyOf::Done(r)) => match r {
                Ok(_) => wait(RenameAtOf::ReadingSource),
                Err(f) => stop(f.error),
            },
            (RenameAtOf::ReadingSource, ReplyOf::Blob(r)) => match r {
                Ok(blob) => wait(RenameAtOf::LookingForSource { bytes: Some(blob.bytes) }),
                Err(_) => wait(RenameAtOf::LookingForSource { bytes: None }),
            },
            (RenameAtOf::LookingForSource { bytes }, ReplyOf::Flag(dir)) => match bytes {
                Some(bytes) => wait(RenameAtOf::ReadingTarget { bytes, dir }),
                None => if dir {
                    then_check_dirs(None, dir)
                } else {
                    stop(ErrorOf::ProfileNotFound(from.clone()))
                },
            },
            (RenameAtOf::ReadingTarget { bytes, dir }, ReplyOf::Blob(r)) => match r {
                Ok(_) => stop(ErrorOf::ProfileExists(to.clone())),
                Err(_) => then_check_dirs(Some(bytes), dir),
            },
            (RenameAtOf::LookingForTarget { bytes }, ReplyOf::Flag(taken)) => if taken {
                stop(ErrorOf::ProfileExists(to.clone()))
            } else {
                wait(RenameAtOf::LoadingState { bytes, dir: true })
            },
            (RenameAtOf::LoadingState { bytes, dir }, ReplyOf::State(loaded)) => {
                let state: State = State::loaded(loaded);
                match bytes {
                    Some(bytes) => wait(RenameAtOf::Copying { bytes, dir, state }),
                    None => then_move_dir(&from, &to, dir, state),
                }
            },
            (RenameAtOf::Copying { bytes: _, dir, state }, ReplyOf::Done(r)) => match r {
                Ok(_) => wait(RenameAtOf::Deleting { dir, state }),
                Err(f) => stop(f.error),
            },
            (RenameAtOf::Deleting { dir, state }, ReplyOf::Done(r)) => match r {
                Ok(_) => then_move_dir(&from, &to, dir, state),
                Err(f) => stop(f.error),
            },
            (RenameAtOf::Moving { state }, ReplyOf::Done(r)) => match r {
                Ok(_) => if views::is_text(&state.master, &from) {
                    wait(RenameAtOf::Retargeting { state })
                } else {
                    then_repoint(&from, &to, state)
                },
                Err(f) => stop(f.error),
            },
            (RenameAtOf::Retargeting { state }, ReplyOf::Done(r)) => match r {
                Ok(_) => then_repoint(&from, &to, state),
                Err(f) => stop(f.error),
            },
            (RenameAtOf::Saving { state: _ }, ReplyOf::Done(r)) => match r {
                Ok(_) => done(&from, &to),
                Err(f) => stop(f.error),
            },
            (at, _) => wait(at),
        };
        match next {
            NextOf::Wait { notes, job } => NextOf::Wait {
                notes,
                job: RenameOf { from, to, at: job },
            },
            NextOf::End { notes, result } => NextOf::End { notes, result },
        }
    }
}

/// A rename that has yet to take the lock.
pub open spec fn started(from: Seq<char>, to: Seq<char>) -> Job {
    RenameOf { from, to, at: RenameAtOf::Locking }
}

/// Why a rename is refused before anything is touched, if it is: the names are the
/// same, or one of them is none that a profile may have.
pub open spec fn refusal(from: Seq<char>, to: Seq<char>) -> Option<ErrorOf<Seq<char>>> {
    if from == to {
        Some(ErrorOf::InvalidArgument("source and target are the same"@))
    } else if !paths::valid_name(from) {
        Some(paths::invalid_name(from))
    } else if !paths::valid_name(to) {
        Some(paths::invalid_name(to))
    } else {
        None
    }
}

/// Starts a rename. Both names are checked: the source names a directory just as the
/// target does.
pub fn run(args: &RenameArgs) -> (res: Result<Rename, Error>)
    ensures
        match refusal(args.from@, args.to@) {
            Some(error) => res matches Err(e) && e@ == error,
            None => res matches Ok(job) && job@ == started(args.from@, args.to@),
        },
{
    if args.from == args.to {
        return Err(ErrorOf::InvalidArgument("source and target are the same".to_owned()));
    }
    match paths::validate_profile_name(&args.from) {
        Ok(_) => {},
        Err(e) => return Err(e),
    }
    match paths::validate_profile_name(&args.to) {
        Ok(_) => {},
        Err(e) => return Err(e),
    }
    Ok(RenameOf { from: args.from.clone(), to: args.to.clone(), at: RenameAtOf::Locking })
}

} // verus!
