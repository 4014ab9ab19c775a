//! What holds of a whole `cs save`.

use vstd::prelude::*;

use crate::commands::save;
use crate::commands::save::SaveAtOf;
use crate::effect;
use crate::effect::{Act, FaultOf, NextOf, NoteOf, Rep, ReplyOf, Script};
use crate::error::ErrorOf;
use crate::keychain;
use crate::laws;
use crate::laws::switch;
use crate::laws::{Run, World};
use crate::tool;

verus! {

/// A save ends without a trace where there is no live credential, or none that can be
/// parsed. Otherwise it leaves the profile with the live credential and the live
/// settings, and touches nothing else.
pub proof fn law_save(world: World, name: Seq<char>)
    ensures
        laws::reaches(
            laws::begin(save::started(world.canonical, name), world),
            saved(world, name),
        ),
{
    reveal_with_fuel(laws::ticks, 7);
    let start = laws::begin(save::started(world.canonical, name), world);
    laws::lemma_ticks(start, 6);
    let r1 = laws::tick(start);
    let r2 = laws::tick(r1);
    let r3 = laws::tick(r2);
    let r4 = laws::tick(r3);
    let r5 = laws::tick(r4);
    let r6 = laws::tick(r5);
    assert(r6 == saved(world, name));
}

/// How a save ends.
pub open spec fn saved(world: World, name: Seq<char>) -> Run<save::Job> {
    match world.entry(world.canonical) {
        Some(bytes) => match (world.parse)(bytes) {
            Ok(_) => Run::Over {
                world: World {
                    entries: world.entries.insert(keychain::account_of(name), bytes),
                    kept: match world.settings {
                        Some(settings) => world.kept.insert(name, settings),
                        None => world.kept,
                    },
                    dirs: match world.settings {
                        Some(_) => world.dirs.insert(name),
                        None => world.dirs,
                    },
                    ..world
                },
                told: effect::say(
                    save::saved_line(
                        name,
                        world.entries.contains_key(keychain::account_of(name)),
                    ),
                ),
                result: Ok(()),
            },
            Err(e) => Run::Over { world, told: effect::quiet(), result: Err(e) },
        },
        None => Run::Over { world, told: effect::quiet(), result: Err(save::nothing_to_save()) },
    }
}

/// A switch to a profile brings back what was saved as it: the credential, and the
/// settings where there were any.
pub proof fn law_switching_brings_back_what_was_saved(world: World, name: Seq<char>, json: bool)
    requires
        world.entry(world.canonical) matches Some(bytes) && (world.parse)(bytes) is Ok,
    ensures
        ({
            let after = saved(world, name)->Over_world;
            let kept = World { entries: switch::flushed(after), ..after };
            &&& switch::installed(kept, name, json) matches Run::Over { world: end, told, result }
            &&& result is Ok
            &&& end.entry(world.canonical) == world.entry(world.canonical)
            &&& world.settings is Some ==> end.settings == world.settings
        }),
{
}

/// Whatever the replies, a save reads and writes nothing before it has the lock.
pub proof fn law_save_waits_for_the_lock(job: save::Job, replies: Seq<Rep>)
    requires
        job.at is Locking,
    ensures
        laws::heard(job, replies) matches Some(then) ==> then.pending() is Lock
            || laws::any_granted(replies),
    decreases replies.len(),
{
    if replies.len() > 0 {
        laws::lemma_any_granted(replies);
        if let NextOf::Wait { notes, job: then } = job.after(replies[0]) {
            if then.at is Locking {
                law_save_waits_for_the_lock(then, replies.skip(1));
            }
        }
    }
}

/// Whatever the replies, a save keeps only what it has read from the canonical entry,
/// and only if that holds credentials: it goes on from that read with those bytes, and
/// these are what it writes into the profile's entry.
pub proof fn law_save_keeps_only_live_credentials(job: save::Job, next: save::Job, reply: Rep)
    requires
        effect::goes_on(job, reply, next),
        next.at != job.at,
    ensures
        job.at is ReadingCanonical ==> {
            &&& job.pending() == (Act::Read { account: job.canonical })
            &&& reply matches ReplyOf::Blob(Ok(blob))
            &&& blob.creds is Ok
            &&& next.at == (SaveAtOf::ReadingProfile { bytes: blob.bytes })
        },
        next.at is ReadingProfile ==> job.at is ReadingCanonical,
        next.at matches SaveAtOf::ReadingSettings { bytes, existed } ==> job.at == (
        SaveAtOf::ReadingProfile { bytes }),
        next.pending() matches Act::WriteVerified { account, bytes } ==> {
            &&& account == keychain::account_of(job.name)
            &&& job.at matches SaveAtOf::ReadingSettings { bytes: held, existed }
            &&& held == bytes
        },
{
}

/// How many more actions a save takes at most.
pub open spec fn actions_left(at: save::Stage) -> nat {
    match at {
        SaveAtOf::Locking => 6,
        SaveAtOf::ReadingCanonical => 5,
        SaveAtOf::ReadingProfile { .. } => 4,
        SaveAtOf::ReadingSettings { .. } => 3,
        SaveAtOf::Writing { .. } => 2,
        SaveAtOf::StoringSettings { .. } => 1,
    }
}

/// Whatever the replies, a save comes to an end: every answer brings it nearer, and a
/// reply that is no answer changes nothing.
pub proof fn law_save_ends(job: save::Job, reply: Rep)
    ensures
        effect::answers(job.pending(), reply) ==> (job.after(reply) matches NextOf::Wait {
            notes,
            job: next,
        } ==> actions_left(next.at) < actions_left(job.at)),
        !effect::answers(job.pending(), reply) ==> job.after(reply) == effect::waits(job),
        actions_left(job.at) > 0,
{
}

/// How a save comes out, told by the entries and the settings alone: without a live credential
/// that can be parsed it fails and changes nothing; otherwise the profile's entry takes the
/// live credential, the profile keeps the live settings where there are any, and all else is
/// as it was.
pub proof fn law_save_comes_out(world: World, name: Seq<char>)
    ensures
        exists|end: World, told: Seq<NoteOf<Seq<char>>>, result: Result<(), ErrorOf<Seq<char>>>|
            {
                let account = keychain::account_of(name);
                let live = world.entries[world.canonical];
                &&& #[trigger] laws::comes_to(
                    save::started(world.canonical, name),
                    world,
                    end,
                    told,
                    result,
                )
                &&& if !world.entries.contains_key(world.canonical) {
                    &&& result == Err::<(), _>(
                        ErrorOf::Other(
                            "no active "@ + tool::brand_name() + " credential to save (run `"@
                                + tool::command_name() + " /login` first)"@,
                        ),
                    )
                    &&& told.len() == 0
                    &&& end == world
                } else if (world.parse)(live) is Err {
                    &&& result == Err::<(), _>((world.parse)(live)->Err_0)
                    &&& told.len() == 0
                    &&& end == world
                } else {
                    &&& result is Ok
                    &&& told == seq![
                        NoteOf::Line(
                            if world.entries.contains_key(account) {
                                "overwrote profile `"@ + name + "` with current "@
                                    + tool::command_name() + " credentials"@
                            } else {
                                "saved profile `"@ + name + "` for "@ + tool::command_name()
                            },
                        ),
                    ]
                    &&& end.entry(account) == Some(live)
                    &&& forall|other: Seq<char>|
                        other != account ==> #[trigger] end.entry(other) == world.entry(other)
                    &&& end == (World {
                        entries: end.entries,
                        kept: end.kept,
                        dirs: end.dirs,
                        ..world
                    })
                    &&& match world.settings {
                        Some(settings) => {
                            &&& end.kept.contains_key(name)
                            &&& end.kept[name] == settings
                            &&& end.dirs.contains(name)
                        },
                        None => end.kept == world.kept && end.dirs == world.dirs,
                    }
                    &&& forall|other: Seq<char>|
                        other != name ==> #[trigger] end.kept.contains_key(other)
                            == world.kept.contains_key(other) && (world.kept.contains_key(other)
                            ==> end.kept[other] == world.kept[other])
                    &&& forall|other: Seq<char>|
                        other != name ==> #[trigger] end.dirs.contains(other)
                            == world.dirs.contains(other)
                }
            },
{
    law_save(world, name);
    let run = saved(world, name);
    assert(laws::comes_to(
        save::started(world.canonical, name),
        world,
        run->Over_world,
        run->Over_told,
        run->Over_result,
    ));
}

/// Every failure ends a save with its error, silently.
pub proof fn law_save_ends_with_what_failed(job: save::Job, fault: FaultOf<Seq<char>>)
    requires
        effect::answers(job.pending(), Rep::Done(Err(fault))),
    ensures
        job.after(ReplyOf::Done(Err(fault))) == effect::stops::<save::Job>(fault.error),
{
}

/// Whatever the replies, a save keeps to its profile and its account.
pub proof fn law_save_keeps_to_its_purpose(job: save::Job, replies: Seq<Rep>)
    ensures
        laws::heard(job, replies) matches Some(then) ==> then.canonical == job.canonical
            && then.name == job.name,
    decreases replies.len(),
{
    if replies.len() > 0 {
        if let NextOf::Wait { notes, job: then } = job.after(replies[0]) {
            law_save_keeps_to_its_purpose(then, replies.skip(1));
        }
    }
}

/// A save makes sure that its write held, and deletes nothing: the only change of an entry
/// that it asks for is the verified write of the live credential into the profile's.
pub proof fn law_save_verifies_its_write(job: save::Job)
    ensures
        job.pending() !is Write,
        job.pending() !is Delete,
        job.at matches SaveAtOf::Writing { bytes, existed, settings } ==> job.pending()
            == (Act::WriteVerified { account: keychain::account_of(job.name), bytes }),
        job.pending() is WriteVerified ==> job.at is Writing,
{
}

} // verus!
