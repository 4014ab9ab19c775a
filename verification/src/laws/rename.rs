//! What holds of a whole `cs rename`.

use vstd::prelude::*;

use crate::commands::rename;
use crate::commands::rename::RenameAtOf;
use crate::effect;
use crate::effect::{Act, FaultOf, NextOf, NoteOf, Rep, ReplyOf, Script};
use crate::error::ErrorOf;
use crate::keychain;
use crate::laws;
use crate::laws::{Run, World};
use crate::paths;
use crate::state;
use crate::state::StateOf;

verus! {

/// Why a rename fails in a world, if it does.
pub open spec fn conflict(world: World, from: Seq<char>, to: Seq<char>) -> Option<
    ErrorOf<Seq<char>>,
> {
    let entry = world.entry(keychain::account_of(from));
    if entry is None && !world.dirs.contains(from) {
        Some(ErrorOf::ProfileNotFound(from))
    } else if entry is Some && world.entry(keychain::account_of(to)) is Some {
        Some(ErrorOf::ProfileExists(to))
    } else if world.dirs.contains(from) && world.dirs.contains(to) {
        Some(ErrorOf::ProfileExists(to))
    } else {
        None
    }
}

/// The world after a rename that succeeds.
pub open spec fn moved(world: World, from: Seq<char>, to: Seq<char>) -> World {
    let state = StateOf::or_fresh(world.state);
    let dir = world.dirs.contains(from);
    World {
        entries: match world.entry(keychain::account_of(from)) {
            Some(bytes) => world.entries.insert(keychain::account_of(to), bytes).remove(
                keychain::account_of(from),
            ),
            None => world.entries,
        },
        dirs: if dir {
            world.dirs.remove(from).insert(to)
        } else {
            world.dirs
        },
        kept: if dir && world.kept.contains_key(from) {
            world.kept.remove(from).insert(to, world.kept[from])
        } else {
            world.kept
        },
        links: if dir && state.master == Some(from) {
            Some(to)
        } else {
            world.links
        },
        state: if state.mentions(from) {
            Some(state.renamed(from, to))
        } else {
            world.state
        },
        ..world
    }
}

/// How a rename ends.
pub open spec fn renamed(world: World, from: Seq<char>, to: Seq<char>) -> Run<rename::Job> {
    match conflict(world, from, to) {
        Some(e) => Run::Over { world, told: effect::quiet(), result: Err(e) },
        None => Run::Over {
            world: moved(world, from, to),
            told: effect::say(rename::renamed_line(from, to)),
            result: Ok(()),
        },
    }
}

/// A rename fails without a trace where the source does not exist or the target does.
/// Otherwise the credential, the directory, the shared links and every pointer move to
/// the new name, and nothing else changes.
pub proof fn law_rename(world: World, from: Seq<char>, to: Seq<char>)
    requires
        from != to,
    ensures
        laws::reaches(
            laws::begin(rename::started(from, to), world),
            renamed(world, from, to),
        ),
{
    keychain::law_accounts_are_distinct(from, to);
    let start = laws::begin(rename::started(from, to), world);
    let end = renamed(world, from, to);
    if conflict(world, from, to) is Some {
        reveal_with_fuel(laws::ticks, 6);
        laws::lemma_ticks(start, 5);
        let r1 = laws::tick(start);
        let r2 = laws::tick(r1);
        let r3 = laws::tick(r2);
        let r4 = laws::tick(r3);
        assert(laws::tick(r4) =~= end);
    } else {
        lemma_checked(world, from, to);
        lemma_moved(world, from, to);
        laws::lemma_onward(start, checked(world, from, to), end);
    }
}

/// A rename that has found no conflict and is about to load the state.
spec fn checked(world: World, from: Seq<char>, to: Seq<char>) -> Run<rename::Job> {
    Run::On {
        job: rename::RenameOf {
            at: RenameAtOf::LoadingState {
                bytes: world.entry(keychain::account_of(from)),
                dir: world.dirs.contains(from),
            },
            ..rename::started(from, to)
        },
        world,
        told: effect::quiet(),
    }
}

proof fn lemma_checked(world: World, from: Seq<char>, to: Seq<char>)
    requires
        conflict(world, from, to) is None,
    ensures
        laws::reaches(
            laws::begin(rename::started(from, to), world),
            checked(world, from, to),
        ),
{
    reveal_with_fuel(laws::ticks, 6);
    let start = laws::begin(rename::started(from, to), world);
    let r1 = laws::tick(start);
    let r2 = laws::tick(r1);
    let r3 = laws::tick(r2);
    let r4 = laws::tick(r3);
    let r5 = laws::tick(r4);
    if world.entry(keychain::account_of(from)) is Some && world.dirs.contains(from) {
        laws::lemma_ticks(start, 5);
        assert(r5 =~= checked(world, from, to));
    } else {
        laws::lemma_ticks(start, 4);
        assert(r4 =~= checked(world, from, to));
    }
}

proof fn lemma_moved(world: World, from: Seq<char>, to: Seq<char>)
    requires
        from != to,
        conflict(world, from, to) is None,
    ensures
        laws::reaches(checked(world, from, to), renamed(world, from, to)),
{
    keychain::law_accounts_are_distinct(from, to);
    reveal_with_fuel(laws::ticks, 7);
    let start = checked(world, from, to);
    laws::lemma_ticks(start, 6);
    let r1 = laws::tick(start);
    let r2 = laws::tick(r1);
    let r3 = laws::tick(r2);
    let r4 = laws::tick(r3);
    let r5 = laws::tick(r4);
    assert(laws::tick(r5) =~= renamed(world, from, to));
}

/// After a rename that succeeds, the new name has the credential that the old one had,
/// the old one has none, every other entry is as it was, and no pointer names the old
/// one.
pub proof fn law_rename_keeps_the_credential(world: World, from: Seq<char>, to: Seq<char>)
    requires
        from != to,
        conflict(world, from, to) is None,
    ensures
        ({
            let after = moved(world, from, to);
            &&& world.entry(keychain::account_of(from)) is Some ==> after.entry(
                keychain::account_of(to),
            ) == world.entry(keychain::account_of(from))
            &&& after.entry(keychain::account_of(from)) is None
            &&& forall|account: Seq<char>|
                account != keychain::account_of(from) && account != keychain::account_of(to)
                    ==> after.entry(account) == world.entry(account)
            &&& !StateOf::or_fresh(after.state).mentions(from)
        }),
{
    keychain::law_accounts_are_distinct(from, to);
    state::law_rename_moves_every_pointer(StateOf::or_fresh(world.state), from, to);
}

/// Renaming back undoes a rename: where nothing bore the new name before, the second rename
/// finds no conflict, and the keychain, the directories, the settings, the links and the
/// state are all as they were. The links of a master with a directory must have led there.
pub proof fn law_renaming_back_restores_the_world(world: World, from: Seq<char>, to: Seq<char>)
    requires
        from != to,
        conflict(world, from, to) is None,
        world.entry(keychain::account_of(to)) is None,
        !world.dirs.contains(to),
        !world.kept.contains_key(to),
        !StateOf::or_fresh(world.state).mentions(to),
        StateOf::or_fresh(world.state).master == Some(from) && world.dirs.contains(from)
            ==> world.links == Some(from),
    ensures
        conflict(moved(world, from, to), to, from) is None,
        moved(moved(world, from, to), to, from) == world,
        laws::reaches(
            laws::begin(rename::started(to, from), moved(world, from, to)),
            Run::Over {
                world,
                told: effect::say(rename::renamed_line(to, from)),
                result: Ok(()),
            },
        ),
{
    keychain::law_accounts_are_distinct(from, to);
    state::law_rename_moves_every_pointer(StateOf::or_fresh(world.state), from, to);
    assert(moved(moved(world, from, to), to, from) =~= world);
    law_rename(moved(world, from, to), to, from);
}

/// The shared links are pointed into the renamed directory before the state is saved:
/// whatever the replies, the move of the master's directory is followed by that, and the
/// rename goes on only once that was done.
pub proof fn law_links_move_before_the_state(job: rename::Job, next: rename::Job, reply: Rep)
    requires
        effect::goes_on(job, reply, next),
        next.at != job.at,
    ensures
        job.at matches RenameAtOf::Moving { state } ==> state.master == Some(job.from)
            ==> next.pending() == (Act::RetargetLinks { profile: job.to }),
        job.at is Retargeting ==> (reply matches ReplyOf::Done(r) && r is Ok),
{
}

/// Whatever the replies, a rename reads and changes nothing before it has the lock.
pub proof fn law_rename_waits_for_the_lock(job: rename::Job, replies: Seq<Rep>)
    requires
        job.at is Locking,
    ensures
        laws::heard(job, replies) matches Some(then) ==> then.pending() is Lock
            || laws::any_granted(replies),
    decreases replies.len(),
{
    if replies.len() > 0 {
        laws::lemma_any_granted(replies);
        if let NextOf::Wait { notes, job: then } = job.after(replies[0]) {
            if then.at is Locking {
                law_rename_waits_for_the_lock(then, replies.skip(1));
            }
        }
    }
}

/// A rename does not lose the credential: whatever the replies, the old entry is deleted
/// only right after the new one was written and read back, and nothing else is deleted.
pub proof fn law_rename_deletes_only_what_was_copied(
    job: rename::Job,
    next: rename::Job,
    reply: Rep,
    account: Seq<char>,
)
    requires
        effect::goes_on(job, reply, next),
        next.pending() == (Act::Delete { account }),
        job.pending() != next.pending(),
    ensures
        account == keychain::account_of(job.from),
        job.at is Copying,
        job.pending() matches Act::WriteVerified { account: copy, bytes } && copy
            == keychain::account_of(job.to),
        laws::granted(reply),
{
}

/// How many more actions a rename takes at most.
pub open spec fn actions_left(at: rename::Stage) -> nat {
    match at {
        RenameAtOf::Locking => 11,
        RenameAtOf::ReadingSource => 10,
        RenameAtOf::LookingForSource { .. } => 9,
        RenameAtOf::ReadingTarget { .. } => 8,
        RenameAtOf::LookingForTarget { .. } => 7,
        RenameAtOf::LoadingState { .. } => 6,
        RenameAtOf::Copying { .. } => 5,
        RenameAtOf::Deleting { .. } => 4,
        RenameAtOf::Moving { .. } => 3,
        RenameAtOf::Retargeting { .. } => 2,
        RenameAtOf::Saving { .. } => 1,
    }
}

/// Whatever the replies, a rename comes to an end: every answer brings it nearer, and a
/// reply that is no answer changes nothing.
pub proof fn law_rename_ends(job: rename::Job, reply: Rep)
    ensures
        effect::answers(job.pending(), reply) ==> (job.after(reply) matches NextOf::Wait {
            notes,
            job: next,
        } ==> actions_left(next.at) < actions_left(job.at)),
        !effect::answers(job.pending(), reply) ==> job.after(reply) == effect::waits(job),
        actions_left(job.at) > 0,
{
}

/// How a rename comes out, told by the entries, the directories and the pointers alone. It
/// fails and changes nothing where the source has neither an entry nor a directory, or where
/// both names have an entry, or both have a directory. Otherwise the entry and the directory
/// move as far as there are any, the settings with the directory; the shared links follow a
/// master with a directory; each pointer names the new profile where that pointer named the
/// old one; and all else is as it was.
pub proof fn law_rename_comes_out(world: World, from: Seq<char>, to: Seq<char>)
    requires
        from != to,
    ensures
        exists|end: World, told: Seq<NoteOf<Seq<char>>>, result: Result<(), ErrorOf<Seq<char>>>|
            {
                let source = keychain::account_of(from);
                let target = keychain::account_of(to);
                let entry = world.entries.contains_key(source);
                let dir = world.dirs.contains(from);
                &&& #[trigger] laws::comes_to(
                    rename::started(from, to),
                    world,
                    end,
                    told,
                    result,
                )
                &&& if !entry && !dir {
                    &&& result == Err::<(), _>(ErrorOf::ProfileNotFound(from))
                    &&& told.len() == 0
                    &&& end == world
                } else if entry && world.entries.contains_key(target) || dir
                    && world.dirs.contains(to) {
                    &&& result == Err::<(), _>(ErrorOf::ProfileExists(to))
                    &&& told.len() == 0
                    &&& end == world
                } else {
                    &&& result is Ok
                    &&& told == seq![
                        NoteOf::Line("renamed `"@ + from + "` -> `"@ + to + "`"@),
                    ]
                    &&& entry ==> end.entry(source) is None && end.entry(target) == Some(
                        world.entries[source],
                    )
                    &&& !entry ==> end.entries == world.entries
                    &&& forall|other: Seq<char>|
                        other != source && other != target ==> #[trigger] end.entry(other)
                            == world.entry(other)
                    &&& dir ==> !end.dirs.contains(from) && end.dirs.contains(to)
                    &&& !dir ==> end.dirs == world.dirs && end.kept == world.kept
                    &&& forall|other: Seq<char>|
                        other != from && other != to ==> #[trigger] end.dirs.contains(other)
                            == world.dirs.contains(other)
                    &&& dir && world.kept.contains_key(from) ==> !end.kept.contains_key(from)
                        && end.kept.contains_key(to) && end.kept[to] == world.kept[from]
                    &&& !world.kept.contains_key(from) ==> end.kept == world.kept
                    &&& forall|other: Seq<char>|
                        other != from && other != to ==> #[trigger] end.kept.contains_key(other)
                            == world.kept.contains_key(other) && (world.kept.contains_key(other)
                            ==> end.kept[other] == world.kept[other])
                    &&& end == (World {
                        entries: end.entries,
                        dirs: end.dirs,
                        kept: end.kept,
                        links: end.links,
                        state: end.state,
                        ..world
                    })
                    &&& match world.state {
                        Some(before) => {
                            &&& end.links == if dir && before.master == Some(from) {
                                Some(to)
                            } else {
                                world.links
                            }
                            &&& end.state matches Some(after)
                            &&& state::is_moved(before.active, after.active, from, to)
                            &&& state::is_moved(before.previous, after.previous, from, to)
                            &&& state::is_moved(before.default, after.default, from, to)
                            &&& state::is_moved(before.master, after.master, from, to)
                        },
                        None => end.state is None && end.links == world.links,
                    }
                }
            },
{
    keychain::law_accounts_are_distinct(from, to);
    law_rename(world, from, to);
    let run = renamed(world, from, to);
    assert(laws::comes_to(
        rename::started(from, to),
        world,
        run->Over_world,
        run->Over_told,
        run->Over_result,
    ));
}

/// A rename is refused before anything is touched exactly where the two names are the same,
/// or one of them is empty, begins with a dot or holds a slash; the source is judged first.
pub proof fn law_rename_is_refused_by_its_names(from: Seq<char>, to: Seq<char>)
    ensures
        ({
            let plain = |name: Seq<char>|
                name.len() > 0 && name[0] != '.' && forall|i: int|
                    0 <= i < name.len() ==> name[i] != '/';
            rename::refusal(from, to) == if from == to {
                Some(ErrorOf::InvalidArgument("source and target are the same"@))
            } else if !plain(from) {
                Some(ErrorOf::InvalidArgument("invalid profile name `"@ + from + "`"@))
            } else if !plain(to) {
                Some(ErrorOf::InvalidArgument("invalid profile name `"@ + to + "`"@))
            } else {
                None
            }
        }),
{
    paths::law_name_is_one_visible_component(from, Seq::empty());
    paths::law_name_is_one_visible_component(to, Seq::empty());
}

/// Every failure ends a rename with its error, silently.
pub proof fn law_rename_ends_with_what_failed(job: rename::Job, fault: FaultOf<Seq<char>>)
    requires
        effect::answers(job.pending(), Rep::Done(Err(fault))),
    ensures
        job.after(ReplyOf::Done(Err(fault))) == effect::stops::<rename::Job>(fault.error),
{
}

/// A rename saves the state exactly with the pointers moved, and succeeds without saving only
/// where no pointer names the old profile.
pub proof fn law_rename_saves_moved_pointers(job: rename::Job, next: rename::Job, reply: Rep)
    ensures
        effect::goes_on(job, reply, next) && next.at is Saving && job.at !is Saving ==> ({
            &&& next.at matches RenameAtOf::Saving { state: after }
            &&& rename_state(job, reply) matches Some(before)
            &&& state::is_moved(before.active, after.active, job.from, job.to)
            &&& state::is_moved(before.previous, after.previous, job.from, job.to)
            &&& state::is_moved(before.default, after.default, job.from, job.to)
            &&& state::is_moved(before.master, after.master, job.from, job.to)
        }),
        effect::ends(job, reply, Ok(())) && job.at !is Saving ==> ({
            &&& rename_state(job, reply) matches Some(before)
            &&& before.active != Some(job.from)
            &&& before.previous != Some(job.from)
            &&& before.default != Some(job.from)
            &&& before.master != Some(job.from)
        }),
{
}

/// The state that a rename works on: as it was loaded, or as it is loaded by this reply.
pub open spec fn rename_state(job: rename::Job, reply: Rep) -> Option<StateOf<Seq<char>>> {
    match (job.at, reply) {
        (RenameAtOf::LoadingState { bytes, dir }, ReplyOf::State(loaded)) => Some(
            match loaded {
                Some(state) => state,
                None => StateOf { active: None, previous: None, default: None, master: None },
            },
        ),
        (RenameAtOf::Deleting { dir, state }, _) => Some(state),
        (RenameAtOf::Moving { state }, _) => Some(state),
        (RenameAtOf::Retargeting { state }, _) => Some(state),
        _ => None,
    }
}

/// Whatever the replies, a rename keeps to its two names.
pub proof fn law_rename_keeps_to_its_purpose(job: rename::Job, replies: Seq<Rep>)
    ensures
        laws::heard(job, replies) matches Some(then) ==> then.from == job.from && then.to
            == job.to,
    decreases replies.len(),
{
    if replies.len() > 0 {
        if let NextOf::Wait { notes, job: then } = job.after(replies[0]) {
            law_rename_keeps_to_its_purpose(then, replies.skip(1));
        }
    }
}

/// A rename makes sure that its copy held: the only write that it asks for is the verified
/// one of the old entry's bytes into the new entry.
pub proof fn law_rename_verifies_its_copy(job: rename::Job)
    ensures
        job.pending() !is Write,
        job.at matches RenameAtOf::Copying { bytes, dir, state } ==> job.pending()
            == (Act::WriteVerified { account: keychain::account_of(job.to), bytes }),
        job.pending() is WriteVerified ==> job.at is Copying,
{
}

} // verus!
