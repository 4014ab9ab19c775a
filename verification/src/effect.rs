//! What a command asks of the world around it, and what the world replies.
//!
//! A command is a job: it names the action it waits for, takes the reply, and goes on
//! until it ends. Whoever runs the job performs the actions.

use vstd::prelude::*;

use crate::error::ErrorOf;
use crate::profile::OauthCredsOf;
use crate::state::StateOf;
use crate::text;
use crate::views;

verus! {

/// A failure and how it is shown to the user.
#[derive(Debug, PartialEq, Eq)]
pub struct FaultOf<T> {
    pub error: ErrorOf<T>,
    pub shown: T,
}

/// The bytes of a keychain entry and what they hold, or why they hold no credentials.
#[derive(Debug, PartialEq, Eq)]
pub struct BlobOf<T, B> {
    pub bytes: B,
    pub creds: Result<OauthCredsOf<T>, ErrorOf<T>>,
}

/// One piece of work outside the library.
#[derive(Debug, PartialEq, Eq)]
pub enum ActionOf<T, B, L> {
    /// Take the lock that all commands share, and keep it until the job ends.
    Lock,
    /// Create the directory of `cs`.
    EnsureHome,
    /// Read a keychain entry.
    Read { account: T },
    /// Write a keychain entry.
    Write { account: T, bytes: B },
    /// Write a keychain entry and make sure that it reads back.
    WriteVerified { account: T, bytes: B },
    /// Delete a keychain entry.
    Delete { account: T },
    /// Load the state file.
    LoadState,
    /// Save the state file.
    SaveState { state: StateOf<T> },
    /// Read the live settings.
    ReadSettings,
    /// Write the live settings.
    WriteSettings { bytes: B },
    /// Look whether a profile keeps settings.
    HasSettings { profile: T },
    /// Copy the settings that a profile keeps over the live ones.
    InstallSettings { profile: T },
    /// Keep settings with a profile.
    StoreSettings { profile: T, bytes: B },
    /// Look whether a profile has a directory.
    HasDir { profile: T },
    /// Rename the directory of a profile.
    MoveDir { from: T, to: T },
    /// Point the shared links into the directory of a profile.
    RetargetLinks { profile: T },
    /// Note the active profile beside the live settings.
    MarkActive { profile: T },
    /// Tell the time, in milliseconds since the epoch.
    Clock,
    /// Count the running CLI processes.
    CountClaude,
    /// Look for the CLI on the path.
    FindClaude,
    /// Let the CLI refresh the canonical credential.
    RunStatus,
    /// Become the CLI with these arguments.
    Exec { args: L },
}

/// What came of an action.
#[derive(Debug, PartialEq, Eq)]
pub enum ReplyOf<T, B> {
    /// It was done, or not.
    Done(Result<(), FaultOf<T>>),
    /// What a keychain entry holds.
    Blob(Result<BlobOf<T, B>, FaultOf<T>>),
    /// The state file, where it could be loaded.
    State(Option<StateOf<T>>),
    /// A file, where it could be read.
    Bytes(Option<B>),
    /// Yes or no.
    Flag(bool),
    /// How many.
    Count(u64),
    /// The time.
    Now(i64),
    /// Why the CLI could not be started in place of this process.
    ExecFailed(T),
}

/// A line for the user.
#[derive(Debug, PartialEq, Eq)]
pub enum NoteOf<T> {
    /// The line itself.
    Line(T),
    /// The token of `name` is valid for `secs` more seconds.
    StillValid { name: T, secs: u64 },
}

/// How a job goes on: it shows some lines, then waits for another action or ends.
pub enum NextOf<J, T, N> {
    Wait { notes: N, job: J },
    End { notes: N, result: Result<(), ErrorOf<T>> },
}

pub type Fault = FaultOf<String>;

pub type Blob = BlobOf<String, Vec<u8>>;

pub type Action = ActionOf<String, Vec<u8>, Vec<String>>;

pub type Reply = ReplyOf<String, Vec<u8>>;

pub type Note = NoteOf<String>;

pub type Next<J> = NextOf<J, String, Vec<Note>>;

/// An action in specifications.
pub type Act = ActionOf<Seq<char>, Seq<u8>, Seq<Seq<char>>>;

/// A reply in specifications.
pub type Rep = ReplyOf<Seq<char>, Seq<u8>>;

/// A step in specifications.
pub type Step<J> = NextOf<J, Seq<char>, Seq<NoteOf<Seq<char>>>>;

impl<T: View> View for FaultOf<T> {
    type V = FaultOf<T::V>;

    open spec fn view(&self) -> FaultOf<T::V> {
        FaultOf { error: self.error@, shown: self.shown@ }
    }
}

impl<T: View, B: View> View for BlobOf<T, B> {
    type V = BlobOf<T::V, B::V>;

    open spec fn view(&self) -> BlobOf<T::V, B::V> {
        BlobOf { bytes: self.bytes@, creds: views::res(self.creds) }
    }
}

impl View for ActionOf<String, Vec<u8>, Vec<String>> {
    type V = Act;

    open spec fn view(&self) -> Act {
        match self {
            ActionOf::Lock => ActionOf::Lock,
            ActionOf::EnsureHome => ActionOf::EnsureHome,
            ActionOf::Read { account } => ActionOf::Read { account: account@ },
            ActionOf::Write { account, bytes } => ActionOf::Write {
                account: account@,
                bytes: bytes@,
            },
            ActionOf::WriteVerified { account, bytes } => ActionOf::WriteVerified {
                account: account@,
                bytes: bytes@,
            },
            ActionOf::Delete { account } => ActionOf::Delete { account: account@ },
            ActionOf::LoadState => ActionOf::LoadState,
            ActionOf::SaveState { state } => ActionOf::SaveState { state: state@ },
            ActionOf::ReadSettings => ActionOf::ReadSettings,
            ActionOf::WriteSettings { bytes } => ActionOf::WriteSettings { bytes: bytes@ },
            ActionOf::HasSettings { profile } => ActionOf::HasSettings { profile: profile@ },
            ActionOf::InstallSettings { profile } => ActionOf::InstallSettings {
                profile: profile@,
            },
            ActionOf::StoreSettings { profile, bytes } => ActionOf::StoreSettings {
                profile: profile@,
                bytes: bytes@,
            },
            ActionOf::HasDir { profile } => ActionOf::HasDir { profile: profile@ },
            ActionOf::MoveDir { from, to } => ActionOf::MoveDir { from: from@, to: to@ },
            ActionOf::RetargetLinks { profile } => ActionOf::RetargetLinks { profile: profile@ },
            ActionOf::MarkActive { profile } => ActionOf::MarkActive { profile: profile@ },
            ActionOf::Clock => ActionOf::Clock,
            ActionOf::CountClaude => ActionOf::CountClaude,
            ActionOf::FindClaude => ActionOf::FindClaude,
            ActionOf::RunStatus => ActionOf::RunStatus,
            ActionOf::Exec { args } => ActionOf::Exec { args: views::list(args@) },
        }
    }
}

impl<T: View, B: View> View for ReplyOf<T, B> {
    type V = ReplyOf<T::V, B::V>;

    open spec fn view(&self) -> ReplyOf<T::V, B::V> {
        match self {
            ReplyOf::Done(r) => ReplyOf::Done(views::done(*r)),
            ReplyOf::Blob(r) => ReplyOf::Blob(views::res(*r)),
            ReplyOf::State(s) => ReplyOf::State(views::opt(*s)),
            ReplyOf::Bytes(b) => ReplyOf::Bytes(views::opt(*b)),
            ReplyOf::Flag(b) => ReplyOf::Flag(*b),
            ReplyOf::Count(n) => ReplyOf::Count(*n),
            ReplyOf::Now(t) => ReplyOf::Now(*t),
            ReplyOf::ExecFailed(t) => ReplyOf::ExecFailed(t@),
        }
    }
}

impl<T: View> View for NoteOf<T> {
    type V = NoteOf<T::V>;

    open spec fn view(&self) -> NoteOf<T::V> {
        match self {
            NoteOf::Line(t) => NoteOf::Line(t@),
            NoteOf::StillValid { name, secs } => NoteOf::StillValid { name: name@, secs: *secs },
        }
    }
}

impl<J: View> View for NextOf<J, String, Vec<Note>> {
    type V = Step<J::V>;

    open spec fn view(&self) -> Step<J::V> {
        match self {
            NextOf::Wait { notes, job } => NextOf::Wait { notes: views::list(notes@), job: job@ },
            NextOf::End { notes, result } => NextOf::End {
                notes: views::list(notes@),
                result: views::done(*result),
            },
        }
    }
}

/// A reply of this kind answers the action.
pub open spec fn answers<T, B, L, U, C>(action: ActionOf<T, B, L>, reply: ReplyOf<U, C>) -> bool {
    match action {
        ActionOf::Read { .. } => reply is Blob,
        ActionOf::LoadState => reply is State,
        ActionOf::ReadSettings => reply is Bytes,
        ActionOf::HasSettings { .. } => reply is Flag,
        ActionOf::HasDir { .. } => reply is Flag,
        ActionOf::FindClaude => reply is Flag,
        ActionOf::Clock => reply is Now,
        ActionOf::CountClaude => reply is Count,
        ActionOf::Exec { .. } => reply is ExecFailed,
        _ => reply is Done,
    }
}

/// Whether a reply is of the kind that answers the action.
pub fn is_answer(action: &Action, reply: &Reply) -> (res: bool)
    ensures
        res == answers(action@, reply@),
{
    match (action, reply) {
        (ActionOf::Read { .. }, r) => matches!(r, ReplyOf::Blob(_)),
        (ActionOf::LoadState, r) => matches!(r, ReplyOf::State(_)),
        (ActionOf::ReadSettings, r) => matches!(r, ReplyOf::Bytes(_)),
        (ActionOf::HasSettings { .. }, r) => matches!(r, ReplyOf::Flag(_)),
        (ActionOf::HasDir { .. }, r) => matches!(r, ReplyOf::Flag(_)),
        (ActionOf::FindClaude, r) => matches!(r, ReplyOf::Flag(_)),
        (ActionOf::Clock, r) => matches!(r, ReplyOf::Now(_)),
        (ActionOf::CountClaude, r) => matches!(r, ReplyOf::Count(_)),
        (ActionOf::Exec { .. }, r) => matches!(r, ReplyOf::ExecFailed(_)),
        (_, r) => matches!(r, ReplyOf::Done(_)),
    }
}

/// The line that tells how long a token is still valid, where `left` says it in words.
pub fn still_valid_line(name: &str, left: &str) -> (res: String)
    ensures
        res@ == "`"@ + name@ + "` token still valid for "@ + left@ + "; nothing to refresh"@,
{
    text::join5("`", name, "` token still valid for ", left, "; nothing to refresh")
}

/// A job in specifications.
pub trait Script: Sized {
    /// The action that the job waits for.
    spec fn pending(self) -> Act;

    /// How the job goes on after a reply. A reply that does not answer the pending action
    /// leaves it waiting.
    spec fn after(self, reply: Rep) -> Step<Self>;
}

/// After the reply, `job` goes on as `next`.
pub open spec fn goes_on<J: Script>(job: J, reply: Rep, next: J) -> bool {
    job.after(reply) matches NextOf::Wait { notes, job: then } && then == next
}

/// After the reply, `job` ends with `result`.
pub open spec fn ends<J: Script>(
    job: J,
    reply: Rep,
    result: Result<(), ErrorOf<Seq<char>>>,
) -> bool {
    job.after(reply) matches NextOf::End { notes, result: r } && r == result
}

/// A job waits, without a word.
pub open spec fn waits<J>(job: J) -> Step<J> {
    NextOf::Wait { notes: quiet(), job }
}

/// A job ends with an error, without a word.
pub open spec fn stops<J>(error: ErrorOf<Seq<char>>) -> Step<J> {
    NextOf::End { notes: quiet(), result: Err(error) }
}

/// No lines.
pub open spec fn quiet() -> Seq<NoteOf<Seq<char>>> {
    Seq::empty()
}

/// One line.
pub open spec fn say(line: Seq<char>) -> Seq<NoteOf<Seq<char>>> {
    seq![NoteOf::Line(line)]
}

/// No lines.
pub fn no_notes() -> (res: Vec<Note>)
    ensures
        views::list(res@) == quiet(),
{
    let res: Vec<Note> = Vec::new();
    assert(views::list(res@) =~= quiet());
    res
}

/// One line.
pub fn one_line(line: String) -> (res: Vec<Note>)
    ensures
        views::list(res@) == say(line@),
{
    let ghost text = line@;
    let mut res: Vec<Note> = Vec::new();
    res.push(NoteOf::Line(line));
    assert(views::list(res@) =~= say(text));
    res
}

/// Saying one line makes one note of it, and saying nothing makes none.
pub proof fn law_a_line_is_one_note(line: Seq<char>)
    ensures
        say(line).len() == 1,
        say(line)[0] == NoteOf::Line(line),
        quiet().len() == 0,
{
}

/// A reply is seen whole: its kind, and what it holds.
pub proof fn law_reply_is_seen_whole<T: View, B: View>(
    done: Result<(), FaultOf<T>>,
    blob: BlobOf<T, B>,
    fault: FaultOf<T>,
    state: Option<StateOf<T>>,
    bytes: Option<B>,
    flag: bool,
    count: u64,
    now: i64,
    text: T,
)
    ensures
        ReplyOf::<T, B>::Done(done)@ == ReplyOf::<T::V, B::V>::Done(views::done(done)),
        ReplyOf::<T, B>::Blob(Ok(blob))@ == ReplyOf::<T::V, B::V>::Blob(Ok(blob@)),
        ReplyOf::<T, B>::Blob(Err(fault))@ == ReplyOf::<T::V, B::V>::Blob(Err(fault@)),
        ReplyOf::<T, B>::State(state)@ == ReplyOf::<T::V, B::V>::State(views::opt(state)),
        ReplyOf::<T, B>::Bytes(bytes)@ == ReplyOf::<T::V, B::V>::Bytes(views::opt(bytes)),
        ReplyOf::<T, B>::Flag(flag)@ == ReplyOf::<T::V, B::V>::Flag(flag),
        ReplyOf::<T, B>::Count(count)@ == ReplyOf::<T::V, B::V>::Count(count),
        ReplyOf::<T, B>::Now(now)@ == ReplyOf::<T::V, B::V>::Now(now),
        ReplyOf::<T, B>::ExecFailed(text)@ == ReplyOf::<T::V, B::V>::ExecFailed(text@),
        blob@.bytes == blob.bytes@,
        blob.creds matches Ok(creds) ==> blob@.creds == Ok::<_, ErrorOf<T::V>>(creds@),
        blob.creds matches Err(e) ==> blob@.creds == Err::<OauthCredsOf<T::V>, _>(e@),
        fault@.error == fault.error@,
        fault@.shown == fault.shown@,
{
}

/// A step is seen whole: every line in its place, and then the job, or the result.
pub proof fn law_step_is_seen_whole<J: View>(job: J, notes: Vec<Note>, error: ErrorOf<String>, i: int)
    ensures
        ({
            let wait: Next<J> = NextOf::Wait { notes, job };
            &&& wait@ matches NextOf::Wait { notes: seen, job: then }
            &&& then == job@
            &&& seen.len() == notes@.len()
            &&& 0 <= i < seen.len() ==> seen[i] == notes@[i]@
        }),
        ({
            let end: Next<J> = NextOf::End { notes, result: Err(error) };
            &&& end@ matches NextOf::End { notes: seen, result }
            &&& result == Err::<(), _>(error@)
            &&& seen.len() == notes@.len()
            &&& 0 <= i < seen.len() ==> seen[i] == notes@[i]@
        }),
        ({
            let end: Next<J> = NextOf::End { notes, result: Ok(()) };
            end@ matches NextOf::End { notes: seen, result } && result is Ok && seen.len()
                == notes@.len()
        }),
{
}

/// A line is seen whole.
pub proof fn law_note_is_seen_whole<T: View>(t: T, secs: u64)
    ensures
        NoteOf::Line(t)@ == NoteOf::Line(t@),
        (NoteOf::StillValid { name: t, secs })@ == (NoteOf::StillValid { name: t@, secs }),
{
}

} // verus!
