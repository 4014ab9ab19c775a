//! What holds of whole commands, run in a world that does what it is asked.

use vstd::prelude::*;

use crate::effect;
use crate::effect::{Act, ActionOf, BlobOf, FaultOf, NextOf, NoteOf, Rep, ReplyOf, Script};
use crate::error::ErrorOf;
use crate::profile::OauthCredsOf;
use crate::state::StateOf;

pub mod refresh;
pub mod rename;
pub mod save;
pub mod switch;

verus! {

/// All that the commands touch. Every operation does what it is asked, except that
/// the CLI does with the canonical credential what it likes.
#[verifier::ext_equal]
pub struct World {
    /// The keychain.
    pub entries: Map<Seq<char>, Seq<u8>>,
    /// What bytes hold credentials, and which.
    pub parse: spec_fn(Seq<u8>) -> Result<OauthCredsOf<Seq<char>>, ErrorOf<Seq<char>>>,
    /// How the keychain and the file system say that something is not there.
    pub missing: FaultOf<Seq<char>>,
    /// The state file, where it can be loaded.
    pub state: Option<StateOf<Seq<char>>>,
    /// The live settings, where there are any.
    pub settings: Option<Seq<u8>>,
    /// The settings that profiles keep.
    pub kept: Map<Seq<char>, Seq<u8>>,
    /// The profiles that have a directory.
    pub dirs: Set<Seq<char>>,
    /// The profile that the shared links point into, where there are links.
    pub links: Option<Seq<char>>,
    /// The profile noted beside the live settings.
    pub marker: Option<Seq<char>>,
    /// The account that the CLI uses.
    pub canonical: Seq<char>,
    /// What the status run makes of that account's entry, and how it ends.
    pub status: spec_fn(Option<Seq<u8>>) -> (Option<Seq<u8>>, Result<(), FaultOf<Seq<char>>>),
    /// The time.
    pub now: i64,
    /// How many CLI processes run.
    pub running: u64,
    /// Whether the CLI is on the path.
    pub on_path: bool,
}

/// The keychain with an entry set, or cleared.
pub open spec fn put(
    entries: Map<Seq<char>, Seq<u8>>,
    account: Seq<char>,
    entry: Option<Seq<u8>>,
) -> Map<Seq<char>, Seq<u8>> {
    match entry {
        Some(bytes) => entries.insert(account, bytes),
        None => entries.remove(account),
    }
}

impl World {
    /// What an account's entry holds.
    pub open spec fn entry(self, account: Seq<char>) -> Option<Seq<u8>> {
        if self.entries.contains_key(account) {
            Some(self.entries[account])
        } else {
            None
        }
    }

    /// Bytes and what they hold.
    pub open spec fn blob(self, bytes: Seq<u8>) -> BlobOf<Seq<char>, Seq<u8>> {
        BlobOf { bytes, creds: (self.parse)(bytes) }
    }

    /// What comes of an action.
    pub open spec fn perform(self, action: Act) -> (Rep, World) {
        match action {
            ActionOf::Read { account } => (
                ReplyOf::Blob(
                    match self.entry(account) {
                        Some(bytes) => Ok(self.blob(bytes)),
                        None => Err(self.missing),
                    },
                ),
                self,
            ),
            ActionOf::Write { account, bytes } => (
                ReplyOf::Done(Ok(())),
                World { entries: self.entries.insert(account, bytes), ..self },
            ),
            ActionOf::WriteVerified { account, bytes } => (
                ReplyOf::Done(Ok(())),
                World { entries: self.entries.insert(account, bytes), ..self },
            ),
            ActionOf::Delete { account } => (
                ReplyOf::Done(
                    if self.entries.contains_key(account) {
                        Ok(())
                    } else {
                        Err(self.missing)
                    },
                ),
                World { entries: self.entries.remove(account), ..self },
            ),
            ActionOf::LoadState => (ReplyOf::State(self.state), self),
            ActionOf::SaveState { state } => (
                ReplyOf::Done(Ok(())),
                World { state: Some(state), ..self },
            ),
            ActionOf::ReadSettings => (ReplyOf::Bytes(self.settings), self),
            ActionOf::WriteSettings { bytes } => (
                ReplyOf::Done(Ok(())),
                World { settings: Some(bytes), ..self },
            ),
            ActionOf::HasSettings { profile } => (
                ReplyOf::Flag(self.kept.contains_key(profile)),
                self,
            ),
            ActionOf::InstallSettings { profile } => if self.kept.contains_key(profile) {
                (
                    ReplyOf::Done(Ok(())),
                    World { settings: Some(self.kept[profile]), ..self },
                )
            } else {
                (ReplyOf::Done(Err(self.missing)), self)
            },
            ActionOf::StoreSettings { profile, bytes } => (
                ReplyOf::Done(Ok(())),
                World {
                    kept: self.kept.insert(profile, bytes),
                    dirs: self.dirs.insert(profile),
                    ..self
                },
            ),
            ActionOf::HasDir { profile } => (ReplyOf::Flag(self.dirs.contains(profile)), self),
            ActionOf::MoveDir { from, to } => (
                ReplyOf::Done(Ok(())),
                World {
                    dirs: self.dirs.remove(from).insert(to),
                    kept: if self.kept.contains_key(from) {
                        self.kept.remove(from).insert(to, self.kept[from])
                    } else {
                        self.kept
                    },
                    ..self
                },
            ),
            ActionOf::RetargetLinks { profile } => (
                ReplyOf::Done(Ok(())),
                World { links: Some(profile), ..self },
            ),
            ActionOf::MarkActive { profile } => (
                ReplyOf::Done(Ok(())),
                World { marker: Some(profile), ..self },
            ),
            ActionOf::Clock => (ReplyOf::Now(self.now), self),
            ActionOf::CountClaude => (ReplyOf::Count(self.running), self),
            ActionOf::FindClaude => (ReplyOf::Flag(self.on_path), self),
            ActionOf::RunStatus => {
                let (entry, outcome) = (self.status)(self.entry(self.canonical));
                (
                    ReplyOf::Done(outcome),
                    World { entries: put(self.entries, self.canonical, entry), ..self },
                )
            },
            ActionOf::Exec { args } => (ReplyOf::ExecFailed(self.missing.shown), self),
            ActionOf::Lock => (ReplyOf::Done(Ok(())), self),
            ActionOf::EnsureHome => (ReplyOf::Done(Ok(())), self),
        }
    }
}

/// A job in a world, with what it has told the user so far.
#[verifier::ext_equal]
pub enum Run<J> {
    On { job: J, world: World, told: Seq<NoteOf<Seq<char>>> },
    Over { world: World, told: Seq<NoteOf<Seq<char>>>, result: Result<(), ErrorOf<Seq<char>>> },
}

/// A job at its start in a world.
pub open spec fn begin<J: Script>(job: J, world: World) -> Run<J> {
    Run::On { job, world, told: effect::quiet() }
}

/// One action and its reply.
pub open spec fn tick<J: Script>(run: Run<J>) -> Run<J> {
    match run {
        Run::On { job, world, told } => {
            let (reply, world) = world.perform(job.pending());
            match job.after(reply) {
                NextOf::Wait { notes, job } => Run::On { job, world, told: told + notes },
                NextOf::End { notes, result } => Run::Over { world, told: told + notes, result },
            }
        },
        over => over,
    }
}

/// Any number of actions.
pub open spec fn ticks<J: Script>(run: Run<J>, n: nat) -> Run<J>
    decreases n,
{
    if n == 0 {
        run
    } else {
        ticks(tick(run), (n - 1) as nat)
    }
}

/// One run leads to another.
pub open spec fn reaches<J: Script>(from: Run<J>, to: Run<J>) -> bool {
    exists|n: nat| ticks(from, n) == to
}

/// The job after any replies, unless it has ended. Nothing is said of where the replies
/// come from: a law on this holds whatever the world does.
pub open spec fn heard<J: Script>(job: J, replies: Seq<Rep>) -> Option<J>
    decreases replies.len(),
{
    if replies.len() == 0 {
        Some(job)
    } else {
        match job.after(replies[0]) {
            NextOf::Wait { notes, job } => heard(job, replies.skip(1)),
            NextOf::End { .. } => None,
        }
    }
}

/// A run leads where what it leads to leads.
pub proof fn lemma_onward<J: Script>(from: Run<J>, by: Run<J>, to: Run<J>)
    requires
        reaches(from, by),
        reaches(by, to),
    ensures
        reaches(from, to),
{
    let n = choose|n: nat| ticks(from, n) == by;
    let m = choose|m: nat| ticks(by, m) == to;
    lemma_add(from, n, m);
}

proof fn lemma_add<J: Script>(run: Run<J>, n: nat, m: nat)
    ensures
        ticks(ticks(run, n), m) == ticks(run, n + m),
    decreases n,
{
    if n > 0 {
        lemma_add(tick(run), (n - 1) as nat, m);
    }
}

/// A run leads to what it is after any number of ticks.
pub proof fn lemma_ticks<J: Script>(run: Run<J>, n: nat)
    ensures
        reaches(run, ticks(run, n)),
{
}

proof fn lemma_over_stays<J: Script>(run: Run<J>, n: nat)
    requires
        run is Over,
    ensures
        ticks(run, n) == run,
    decreases n,
{
    if n > 0 {
        lemma_over_stays(run, (n - 1) as nat);
    }
}

/// A run comes to one end at most.
pub proof fn law_end_is_unique<J: Script>(run: Run<J>, a: Run<J>, b: Run<J>)
    requires
        reaches(run, a),
        reaches(run, b),
        a is Over,
        b is Over,
    ensures
        a == b,
{
    let n = choose|n: nat| ticks(run, n) == a;
    let m = choose|m: nat| ticks(run, m) == b;
    lemma_same_end(run, n, m);
}

proof fn lemma_same_end<J: Script>(run: Run<J>, n: nat, m: nat)
    requires
        ticks(run, n) is Over,
        ticks(run, m) is Over,
    ensures
        ticks(run, n) == ticks(run, m),
    decreases n,
{
    if n == 0 || m == 0 {
        lemma_over_stays(run, n);
        lemma_over_stays(run, m);
    } else {
        lemma_same_end(tick(run), (n - 1) as nat, (m - 1) as nat);
    }
}

/// The reply says that it was done.
pub open spec fn granted(reply: Rep) -> bool {
    reply matches ReplyOf::Done(r) && r is Ok
}

/// One of the replies says that it was done.
pub open spec fn any_granted(replies: Seq<Rep>) -> bool {
    exists|i: int| 0 <= i < replies.len() && granted(#[trigger] replies[i])
}

/// What the later replies grant is granted.
pub proof fn lemma_any_granted(replies: Seq<Rep>)
    requires
        replies.len() > 0,
    ensures
        granted(replies[0]) ==> any_granted(replies),
        any_granted(replies.skip(1)) ==> any_granted(replies),
{
    if any_granted(replies.skip(1)) {
        let i = choose|i: int| 0 <= i < replies.skip(1).len() && granted(replies.skip(1)[i]);
        assert(granted(replies[i + 1]));
    }
}

/// The action changes a keychain entry.
pub open spec fn is_change(action: Act) -> bool {
    action is Write || action is WriteVerified || action is Delete
}

/// The changes of keychain entries that a job asks for and gets an answer to, in order.
pub open spec fn changes<J: Script>(job: J, replies: Seq<Rep>) -> Seq<Act>
    decreases replies.len(),
{
    if replies.len() == 0 {
        Seq::empty()
    } else {
        let here = if is_change(job.pending()) && effect::answers(job.pending(), replies[0]) {
            seq![job.pending()]
        } else {
            Seq::empty()
        };
        match job.after(replies[0]) {
            NextOf::Wait { notes, job } => here + changes(job, replies.skip(1)),
            NextOf::End { .. } => here,
        }
    }
}

/// A job in a world comes to an end, and leaves this world, these lines and this result.
pub open spec fn comes_to<J: Script>(
    job: J,
    world: World,
    end: World,
    told: Seq<NoteOf<Seq<char>>>,
    result: Result<(), ErrorOf<Seq<char>>>,
) -> bool {
    reaches(begin(job, world), Run::Over { world: end, told, result })
}

} // verus!
