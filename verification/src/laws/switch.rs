//! What holds of a whole `cs <profile>`.

use vstd::prelude::*;

use crate::commands::switch;
use crate::commands::switch::SwitchAtOf;
use crate::effect;
use crate::effect::{Act, BlobOf, FaultOf, NextOf, NoteOf, Rep, ReplyOf, Script};
use crate::error::ErrorOf;
use crate::keychain;
use crate::laws;
use crate::laws::{Run, World};
use crate::profile;
use crate::remark::RemarkOf;
use crate::state::StateOf;
use crate::tool;

verus! {

/// The profile that is active before a switch.
pub open spec fn outgoing(world: World) -> Option<Seq<char>> {
    StateOf::or_fresh(world.state).active
}

/// The live credential is written into the outgoing profile's entry.
pub open spec fn flushes(world: World) -> bool {
    &&& outgoing(world) matches Some(name)
    &&& world.entry(world.canonical) matches Some(live)
    &&& world.entry(keychain::account_of(name)) matches Some(held)
    &&& switch::sync_due(world.blob(held), world.blob(live))
}

/// The keychain once the outgoing profile has the live credential, where that is due.
pub open spec fn flushed(world: World) -> Map<Seq<char>, Seq<u8>> {
    if flushes(world) {
        world.entries.insert(
            keychain::account_of(outgoing(world)->0),
            world.entries[world.canonical],
        )
    } else {
        world.entries
    }
}

/// The world once the target's credential is live.
pub open spec fn switched(world: World, target: Seq<char>) -> World {
    World {
        entries: world.entries.insert(
            world.canonical,
            world.entries[keychain::account_of(target)],
        ),
        settings: if world.kept.contains_key(target) {
            Some(world.kept[target])
        } else {
            world.settings
        },
        state: Some(StateOf::or_fresh(world.state).switched(target)),
        marker: Some(target),
        ..world
    }
}

/// What a switch that succeeds tells the user.
pub open spec fn told(world: World, target: Seq<char>, json: bool) -> Seq<NoteOf<Seq<char>>> {
    let creds = (world.parse)(world.entries[keychain::account_of(target)])->Ok_0;
    (if creds.expired(switch::EXPIRY_WARNING_SECS as int, world.now as int) {
        effect::say(switch::near_expiry_line(target))
    } else {
        effect::quiet()
    }) + (if json {
        effect::quiet()
    } else {
        effect::say(switch::switched_line(target))
    }) + (if world.running > 0 {
        effect::say(switch::running_line())
    } else {
        effect::quiet()
    })
}

/// How a switch ends, once the outgoing profile has the live credential.
pub open spec fn installed(world: World, target: Seq<char>, json: bool) -> Run<switch::Job> {
    match world.entry(keychain::account_of(target)) {
        Some(bytes) => match (world.parse)(bytes) {
            Ok(_) => Run::Over {
                world: switched(world, target),
                told: told(world, target, json),
                result: Ok(()),
            },
            Err(e) => Run::Over { world, told: effect::quiet(), result: Err(e) },
        },
        None => Run::Over {
            world,
            told: effect::quiet(),
            result: Err(ErrorOf::ProfileNotFound(target)),
        },
    }
}

/// How a switch ends that is to start the CLI afterwards: the CLI does not come back where
/// it can be started, so that what is left is that it could not.
pub open spec fn started_cli(
    run: Run<switch::Job>,
    args: Seq<Seq<char>>,
    message: Seq<char>,
) -> Run<switch::Job> {
    match run {
        Run::Over { world, told, result: Ok(_) } if args.len() > 0 => Run::Over {
            world,
            told,
            result: Err(ErrorOf::Subprocess { cmd: tool::command_name(), message }),
        },
        run => run,
    }
}

/// A switch that has just taken the lock.
spec fn locked(
    world: World,
    target: Seq<char>,
    json: bool,
    args: Seq<Seq<char>>,
) -> Run<switch::Job> {
    laws::begin(
        switch::SwitchOf { args, ..switch::started_locked(world.canonical, target, json) },
        world,
    )
}

/// A switch that is about to read the target's entry.
spec fn at_target(
    world: World,
    target: Seq<char>,
    json: bool,
    args: Seq<Seq<char>>,
    live: Option<Seq<u8>>,
) -> Run<switch::Job> {
    Run::On {
        job: switch::SwitchOf {
            at: SwitchAtOf::ReadingTarget { live, state: StateOf::or_fresh(world.state) },
            args,
            ..switch::started_locked(world.canonical, target, json)
        },
        world,
        told: effect::quiet(),
    }
}

proof fn lemma_flush(world: World, target: Seq<char>, json: bool, args: Seq<Seq<char>>)
    ensures
        laws::reaches(
            locked(world, target, json, args),
            at_target(
                World { entries: flushed(world), ..world },
                target,
                json,
                args,
                world.entry(world.canonical),
            ),
        ),
{
    reveal_with_fuel(laws::ticks, 6);
    let start = locked(world, target, json, args);
    let end = at_target(
        World { entries: flushed(world), ..world },
        target,
        json,
        args,
        world.entry(world.canonical),
    );
    let r1 = laws::tick(start);
    let r2 = laws::tick(r1);
    let r3 = laws::tick(r2);
    let r4 = laws::tick(r3);
    let r5 = laws::tick(r4);
    if flushes(world) {
        assert(r5 == end);
        laws::lemma_ticks(start, 5);
    } else if outgoing(world) is Some && world.entry(world.canonical) is Some {
        assert(r3 == end);
        laws::lemma_ticks(start, 3);
    } else {
        assert(r2 == end);
        laws::lemma_ticks(start, 2);
    }
}

proof fn lemma_install(
    world: World,
    target: Seq<char>,
    json: bool,
    args: Seq<Seq<char>>,
    live: Option<Seq<u8>>,
)
    ensures
        laws::reaches(
            at_target(world, target, json, args, live),
            started_cli(installed(world, target, json), args, world.missing.shown),
        ),
{
    let start = at_target(world, target, json, args, live);
    let end = started_cli(installed(world, target, json), args, world.missing.shown);
    let account = keychain::account_of(target);
    if world.entries.contains_key(account) && (world.parse)(world.entries[account]) is Ok {
        let bytes = world.entries[account];
        let creds = (world.parse)(bytes)->Ok_0;
        let by = Run::On {
            job: switch::SwitchOf {
                at: SwitchAtOf::LookingForSettings {
                    live,
                    state: StateOf::or_fresh(world.state),
                    settings: world.settings,
                },
                args,
                ..switch::started_locked(world.canonical, target, json)
            },
            world: World { entries: world.entries.insert(world.canonical, bytes), ..world },
            told: if creds.expired(switch::EXPIRY_WARNING_SECS as int, world.now as int) {
                effect::say(switch::near_expiry_line(target))
            } else {
                effect::quiet()
            },
        };
        assert(laws::reaches(start, by)) by {
            reveal_with_fuel(laws::ticks, 6);
            laws::lemma_ticks(start, 5);
            let r1 = laws::tick(start);
            let r2 = laws::tick(r1);
            let r3 = laws::tick(r2);
            let r4 = laws::tick(r3);
            assert(laws::tick(r4) =~= by);
        }
        assert(laws::reaches(by, end)) by {
            reveal_with_fuel(laws::ticks, 7);
            laws::lemma_ticks(by, 6);
            let r1 = laws::tick(by);
            let r2 = laws::tick(r1);
            let r3 = laws::tick(r2);
            let r4 = laws::tick(r3);
            let r5 = laws::tick(r4);
            assert(laws::tick(r5) =~= end);
        }
        laws::lemma_onward(start, by, end);
    } else {
        reveal_with_fuel(laws::ticks, 2);
        laws::lemma_ticks(start, 1);
        assert(laws::tick(start) =~= end);
    }
}

/// A switch first gives the outgoing profile the live credential, where that is due.
/// Where the target has no credential, that is all, and it fails. Otherwise the target's
/// credential and settings are live afterwards and the state names it as active; nothing
/// else changes.
pub proof fn law_switch(world: World, target: Seq<char>, json: bool)
    ensures
        laws::reaches(
            laws::begin(switch::started_locked(world.canonical, target, json), world),
            installed(World { entries: flushed(world), ..world }, target, json),
        ),
{
    lemma_switch(world, target, json, Seq::empty());
}

proof fn lemma_switch(world: World, target: Seq<char>, json: bool, args: Seq<Seq<char>>)
    ensures
        laws::reaches(
            locked(world, target, json, args),
            started_cli(
                installed(World { entries: flushed(world), ..world }, target, json),
                args,
                world.missing.shown,
            ),
        ),
{
    let kept = World { entries: flushed(world), ..world };
    let live = world.entry(world.canonical);
    lemma_flush(world, target, json, args);
    lemma_install(kept, target, json, args, live);
    laws::lemma_onward(
        locked(world, target, json, args),
        at_target(kept, target, json, args, live),
        started_cli(installed(kept, target, json), args, world.missing.shown),
    );
}

/// A switch that takes the lock itself ends as one under its caller's lock, and is to
/// start the CLI once it has succeeded, where there are arguments to start it with.
pub proof fn law_switch_with_lock(
    world: World,
    target: Seq<char>,
    json: bool,
    args: Seq<Seq<char>>,
)
    ensures
        laws::reaches(
            laws::begin(switch::started(world.canonical, target, json, args), world),
            started_cli(
                installed(World { entries: flushed(world), ..world }, target, json),
                args,
                world.missing.shown,
            ),
        ),
{
    reveal_with_fuel(laws::ticks, 3);
    let start = laws::begin(switch::started(world.canonical, target, json, args), world);
    assert(laws::tick(laws::tick(start)) =~= locked(world, target, json, args));
    laws::lemma_ticks(start, 2);
    lemma_switch(world, target, json, args);
    laws::lemma_onward(
        start,
        locked(world, target, json, args),
        started_cli(
            installed(World { entries: flushed(world), ..world }, target, json),
            args,
            world.missing.shown,
        ),
    );
}

/// The live credential is of the account that the outgoing profile `name` holds, as far
/// as is known: both are credentials, and they are not known to be of different accounts.
pub open spec fn live_is_of(world: World, name: Seq<char>) -> bool {
    &&& outgoing(world) == Some(name)
    &&& world.entry(world.canonical) matches Some(live)
    &&& world.entry(keychain::account_of(name)) matches Some(held)
    &&& (world.parse)(live) matches Ok(incoming)
    &&& (world.parse)(held) matches Ok(existing)
    &&& !profile::cross_account(incoming.email, existing.email)
}

/// The world after a switch to a target that has a credential.
pub open spec fn world_after(world: World, target: Seq<char>) -> World {
    switched(World { entries: flushed(world), ..world }, target)
}

/// Switching away keeps the rotated token: whatever token the CLI has put into the
/// canonical entry meanwhile, the outgoing profile has it after the switch.
pub proof fn law_switching_away_keeps_the_rotated_token(
    world: World,
    name: Seq<char>,
    target: Seq<char>,
)
    requires
        live_is_of(world, name),
        world.canonical != keychain::account_of(name),
    ensures
        world_after(world, target).entry(keychain::account_of(name)) == world.entry(
            world.canonical,
        ),
{
}

/// Selecting the active profile again keeps the live credential: it is not replaced by
/// an older snapshot.
pub proof fn law_reselecting_keeps_the_live_credential(world: World, name: Seq<char>)
    requires
        live_is_of(world, name),
        world.canonical != keychain::account_of(name),
    ensures
        world_after(world, name).entry(world.canonical) == world.entry(world.canonical),
        StateOf::or_fresh(world_after(world, name).state) == StateOf::or_fresh(world.state),
{
}

/// Switching away and back makes the credential live again that was live before, token
/// rotation included, and the profile holds it too.
pub proof fn law_switching_back_restores_the_live_credential(
    world: World,
    name: Seq<char>,
    target: Seq<char>,
)
    requires
        live_is_of(world, name),
        name != target,
        world.canonical != keychain::account_of(name),
        world.entry(keychain::account_of(target)) is Some,
    ensures
        world_after(world_after(world, target), name).entry(world.canonical) == world.entry(
            world.canonical,
        ),
        world_after(world_after(world, target), name).entry(keychain::account_of(name))
            == world.entry(world.canonical),
{
    keychain::law_accounts_are_distinct(name, target);
    let away = world_after(world, target);
    assert(!flushes(away));
}

/// A profile's entry never takes a credential of another account, nor one that cannot
/// be parsed, and an entry that is gone stays gone.
pub proof fn law_foreign_login_is_not_synced(world: World, name: Seq<char>)
    requires
        outgoing(world) == Some(name),
        !live_is_of(world, name),
    ensures
        flushed(world) == world.entries,
{
}

/// A switch leaves every entry alone but the canonical one and the outgoing profile's.
pub proof fn law_switch_leaves_other_entries_alone(
    world: World,
    target: Seq<char>,
    account: Seq<char>,
)
    requires
        account != world.canonical,
        outgoing(world) matches Some(name) ==> account != keychain::account_of(name),
    ensures
        world_after(world, target).entry(account) == world.entry(account),
{
}

/// Whatever the replies, a switch writes into another entry than the canonical one only
/// right after it has read that entry, and only the live credential, and only if that is
/// not known to be of another account.
pub proof fn law_sync_is_guarded(
    job: switch::Job,
    next: switch::Job,
    reply: Rep,
    account: Seq<char>,
    bytes: Seq<u8>,
)
    requires
        effect::goes_on(job, reply, next),
        account != job.canonical,
        next.pending() == (Act::Write { account, bytes }),
        job.pending() != next.pending(),
    ensures
        job.pending() == (Act::Read { account }),
        ({
            &&& job.at matches SwitchAtOf::ReadingOutgoing { profile, live, state }
            &&& account == keychain::account_of(profile)
            &&& bytes == live.bytes
            &&& reply matches ReplyOf::Blob(Ok(existing))
            &&& switch::sync_due(existing, live)
        }),
{
}

/// The switch has seen the target's credential in the canonical entry.
pub open spec fn verified(job: switch::Job) -> bool {
    ||| job.at is LookingForSettings
    ||| job.at is InstallingSettings
    ||| job.at is Saving
    ||| job.at is Marking
    ||| job.at is Counting
    ||| job.at is Executing
}

/// Whatever the replies, a switch saves the state, and succeeds, only once the canonical
/// entry has read back as the target's credential.
pub proof fn law_nothing_is_saved_unverified(job: switch::Job, next: switch::Job, reply: Rep)
    ensures
        job.pending() is SaveState ==> verified(job),
        effect::ends(job, reply, Ok(())) ==> verified(job),
        effect::goes_on(job, reply, next) && verified(next) && !verified(job) ==> {
            &&& job.pending() == (Act::Read { account: job.canonical })
            &&& job.at matches SwitchAtOf::Verifying { live, state, bytes, settings }
            &&& reply matches ReplyOf::Blob(Ok(blob))
            &&& blob.bytes == bytes
        },
{
}

/// The stage knows what to put back into the canonical entry: `live`, or nothing.
pub open spec fn remembers(at: switch::Stage, live: Option<Seq<u8>>) -> bool {
    match at {
        SwitchAtOf::LoadingState { live: l } => live == match l {
            Some(blob) => Some(blob.bytes),
            None => None,
        },
        SwitchAtOf::ReadingOutgoing { profile, live: l, state } => live == Some(l.bytes),
        SwitchAtOf::Syncing { profile, live: l, state } => live == Some(l),
        SwitchAtOf::CheckingSync { profile, live: l, state } => live == Some(l),
        SwitchAtOf::ReadingTarget { live: l, state } => l == live,
        SwitchAtOf::ReadingSettings { live: l, state, bytes, creds } => l == live,
        SwitchAtOf::CheckingExpiry { live: l, state, bytes, creds, settings } => l == live,
        SwitchAtOf::Installing { live: l, state, bytes, settings } => l == live,
        SwitchAtOf::Verifying { live: l, state, bytes, settings } => l == live,
        SwitchAtOf::LookingForSettings { live: l, state, settings } => l == live,
        SwitchAtOf::InstallingSettings { live: l, state, settings } => l == live,
        SwitchAtOf::RollingBack { live: l, settings, error } => live == Some(l),
        SwitchAtOf::RestoringSettings { settings, error } => true,
        SwitchAtOf::Saving { state } => true,
        SwitchAtOf::Marking => true,
        SwitchAtOf::Counting => true,
        SwitchAtOf::Executing => true,
        SwitchAtOf::Locking => false,
        SwitchAtOf::Preparing => false,
        SwitchAtOf::ReadingCanonical => false,
    }
}

/// Whatever the replies, a switch deletes no entry, and a rollback writes back exactly
/// what the canonical entry held when the switch began.
pub proof fn law_switch_writes_back_what_was_live(
    job: switch::Job,
    live: Option<Seq<u8>>,
    replies: Seq<Rep>,
)
    requires
        remembers(job.at, live),
    ensures
        laws::heard(job, replies) matches Some(then) ==> {
            &&& remembers(then.at, live)
            &&& then.pending() !is Delete
            &&& then.at is RollingBack ==> live is Some && then.pending() == (Act::Write {
                account: job.canonical,
                bytes: live->0,
            })
        },
    decreases replies.len(),
{
    if replies.len() > 0 {
        if let NextOf::Wait { notes, job: then } = job.after(replies[0]) {
            law_switch_writes_back_what_was_live(then, live, replies.skip(1));
        }
    }
}

/// Where the canonical entry does not read back as the target's credential, the one that
/// was live is written back and the switch fails, whatever comes of the write. Without a
/// live credential nothing is written, and the switch fails at once.
pub proof fn law_unverified_switch_is_rolled_back(
    job: switch::Job,
    reply: Rep,
    second: Rep,
    live: Option<Seq<u8>>,
)
    requires
        reply is Blob,
        second is Done,
        ({
            &&& job.at matches SwitchAtOf::Verifying { live: found, state, bytes, settings }
            &&& found == live
            &&& !(reply matches ReplyOf::Blob(Ok(blob)) && blob.bytes == bytes)
        }),
    ensures
        match live {
            Some(bytes) => exists|back: switch::Job|
                {
                    &&& #[trigger] effect::goes_on(job, reply, back)
                    &&& back.pending() == (Act::Write { account: job.canonical, bytes })
                    &&& effect::ends(back, second, Err(switch::unverified()))
                },
            None => effect::ends(job, reply, Err(switch::unverified())),
        },
{
    if let Some(bytes) = live {
        let back = switch::SwitchOf {
            at: SwitchAtOf::RollingBack {
                live: bytes,
                settings: None,
                error: switch::unverified(),
            },
            ..job
        };
        assert(effect::goes_on(job, reply, back));
    }
}

/// After `reply`, the settings that were live are written back, where there were any, and
/// then the switch fails with `error`, whatever comes of the write.
pub open spec fn puts_settings_back(
    job: switch::Job,
    reply: Rep,
    before: Option<Seq<u8>>,
    written: Rep,
    error: ErrorOf<Seq<char>>,
) -> bool {
    match before {
        Some(bytes) => exists|last: switch::Job|
            {
                &&& #[trigger] effect::goes_on(job, reply, last)
                &&& last.pending() == (Act::WriteSettings { bytes })
                &&& effect::ends(last, written, Err(error))
            },
        None => effect::ends(job, reply, Err(error)),
    }
}

/// Where the target's settings cannot be installed, the credential that was live is
/// written back, then the settings that were live, and the switch fails with the error
/// of the installation, whatever comes of the two writes. Without a live credential the
/// canonical entry is not written, and without live settings no settings are.
pub proof fn law_failed_settings_are_rolled_back(
    job: switch::Job,
    fault: FaultOf<Seq<char>>,
    second: Rep,
    third: Rep,
    live: Option<Seq<u8>>,
    before: Option<Seq<u8>>,
)
    requires
        second is Done,
        third is Done,
        ({
            &&& job.at matches SwitchAtOf::InstallingSettings { live: found, state, settings }
            &&& found == live
            &&& settings == before
        }),
    ensures
        match live {
            Some(bytes) => exists|back: switch::Job|
                {
                    &&& #[trigger] effect::goes_on(job, ReplyOf::Done(Err(fault)), back)
                    &&& back.pending() == (Act::Write { account: job.canonical, bytes })
                    &&& puts_settings_back(back, second, before, third, fault.error)
                },
            None => puts_settings_back(
                job,
                ReplyOf::Done(Err(fault)),
                before,
                third,
                fault.error,
            ),
        },
{
    let failed = ReplyOf::Done(Err(fault));
    let last = switch::SwitchOf {
        at: SwitchAtOf::RestoringSettings { settings: before->0, error: fault.error },
        ..job
    };
    if let Some(bytes) = live {
        let back = switch::SwitchOf {
            at: SwitchAtOf::RollingBack { live: bytes, settings: before, error: fault.error },
            ..job
        };
        assert(effect::goes_on(job, failed, back));
        if before is Some {
            assert(effect::goes_on(back, second, last));
        }
    } else if before is Some {
        assert(effect::goes_on(job, failed, last));
    }
}

/// Whatever the replies, a switch that takes the lock itself reads and changes nothing
/// before it has it.
pub proof fn law_switch_waits_for_the_lock(job: switch::Job, replies: Seq<Rep>)
    requires
        job.at is Locking,
    ensures
        laws::heard(job, replies) matches Some(then) ==> then.pending() is Lock
            || laws::any_granted(replies),
    decreases replies.len(),
{
    if replies.len() > 0 {
        laws::lemma_any_granted(replies);
        if let NextOf::Wait { notes, job: then } = job.after(replies[0]) {
            if then.at is Locking {
                law_switch_waits_for_the_lock(then, replies.skip(1));
            }
        }
    }
}

/// How many more actions a switch takes at most.
pub open spec fn actions_left(at: switch::Stage) -> nat {
    match at {
        SwitchAtOf::Locking => 18,
        SwitchAtOf::Preparing => 17,
        SwitchAtOf::ReadingCanonical => 16,
        SwitchAtOf::LoadingState { .. } => 15,
        SwitchAtOf::ReadingOutgoing { .. } => 14,
        SwitchAtOf::Syncing { .. } => 13,
        SwitchAtOf::CheckingSync { .. } => 12,
        SwitchAtOf::ReadingTarget { .. } => 11,
        SwitchAtOf::ReadingSettings { .. } => 10,
        SwitchAtOf::CheckingExpiry { .. } => 9,
        SwitchAtOf::Installing { .. } => 8,
        SwitchAtOf::Verifying { .. } => 7,
        SwitchAtOf::LookingForSettings { .. } => 6,
        SwitchAtOf::InstallingSettings { .. } => 5,
        SwitchAtOf::RollingBack { .. } => 2,
        SwitchAtOf::RestoringSettings { .. } => 1,
        SwitchAtOf::Saving { .. } => 4,
        SwitchAtOf::Marking => 3,
        SwitchAtOf::Counting => 2,
        SwitchAtOf::Executing => 1,
    }
}

/// Whatever the replies, a switch comes to an end: every answer brings it nearer, and a
/// reply that is no answer changes nothing.
pub proof fn law_switch_ends(job: switch::Job, reply: Rep)
    ensures
        effect::answers(job.pending(), reply) ==> (job.after(reply) matches NextOf::Wait {
            notes,
            job: next,
        } ==> actions_left(next.at) < actions_left(job.at)),
        !effect::answers(job.pending(), reply) ==> job.after(reply) == effect::waits(job),
        actions_left(job.at) > 0,
{
}

/// The profile that a switch finds active in the state that it loads.
pub open spec fn found_active(job: switch::Job, replies: Seq<Rep>) -> Option<Seq<char>>
    decreases replies.len(),
{
    if replies.len() == 0 {
        None
    } else {
        match (job.at, replies[0]) {
            (SwitchAtOf::LoadingState { live }, ReplyOf::State(loaded)) => StateOf::or_fresh(
                loaded,
            ).active,
            _ => match job.after(replies[0]) {
                NextOf::Wait { notes, job } => found_active(job, replies.skip(1)),
                NextOf::End { .. } => None,
            },
        }
    }
}

/// The stages before a switch has loaded the state.
pub open spec fn is_early(at: switch::Stage) -> bool {
    ||| at is Locking
    ||| at is Preparing
    ||| at is ReadingCanonical
    ||| at is LoadingState
}

/// The action writes the canonical entry, or that of the profile `name`.
pub open spec fn writes_either(
    action: Act,
    canonical: Seq<char>,
    name: Option<Seq<char>>,
) -> bool {
    action matches Act::Write { account, bytes } && (account == canonical || (name matches Some(n)
        && account == keychain::account_of(n)))
}

/// The action changes another entry than the canonical one.
pub open spec fn is_aside(action: Act, canonical: Seq<char>) -> bool {
    !(action matches Act::Write { account, bytes } && account == canonical)
}

/// Whatever the replies, a switch changes no keychain entry but the canonical one and, at
/// most once, that of the profile that was active, and it changes them only by writing.
pub proof fn law_switch_writes_two_entries(job: switch::Job, replies: Seq<Rep>)
    requires
        is_early(job.at),
    ensures
        ({
            let made = laws::changes(job, replies);
            let name = found_active(job, replies);
            &&& forall|i: int|
                0 <= i < made.len() ==> writes_either(#[trigger] made[i], job.canonical, name)
            &&& forall|i: int, j: int|
                0 <= i < made.len() && 0 <= j < made.len() && is_aside(
                    #[trigger] made[i],
                    job.canonical,
                ) && is_aside(#[trigger] made[j], job.canonical) ==> i == j
        }),
    decreases replies.len(),
{
    if replies.len() > 0 {
        if let NextOf::Wait { notes, job: then } = job.after(replies[0]) {
            let rest = laws::changes(then, replies.skip(1));
            assert(laws::changes(job, replies) =~= rest);
            if is_early(then.at) {
                law_switch_writes_two_entries(then, replies.skip(1));
            } else {
                lemma_late_writes(then, found_active(job, replies), replies.skip(1));
            }
        }
    }
}

/// The stage may still write the entry of the profile that was active.
spec fn may_sync(at: switch::Stage, name: Option<Seq<char>>) -> bool {
    match at {
        SwitchAtOf::ReadingOutgoing { profile, live, state } => name == Some(profile),
        SwitchAtOf::Syncing { profile, live, state } => name == Some(profile),
        _ => false,
    }
}

proof fn lemma_late_writes(job: switch::Job, name: Option<Seq<char>>, replies: Seq<Rep>)
    requires
        !is_early(job.at),
        may_sync(job.at, name) || !(job.at is ReadingOutgoing || job.at is Syncing),
    ensures
        ({
            let made = laws::changes(job, replies);
            &&& forall|i: int|
                0 <= i < made.len() ==> writes_either(#[trigger] made[i], job.canonical, name)
            &&& forall|i: int, j: int|
                0 <= i < made.len() && 0 <= j < made.len() && is_aside(
                    #[trigger] made[i],
                    job.canonical,
                ) && is_aside(#[trigger] made[j], job.canonical) ==> i == j
            &&& !may_sync(job.at, name) ==> forall|i: int|
                0 <= i < made.len() ==> !is_aside(#[trigger] made[i], job.canonical)
        }),
    decreases replies.len(),
{
    if replies.len() > 0 {
        if let NextOf::Wait { notes, job: then } = job.after(replies[0]) {
            lemma_late_writes(then, name, replies.skip(1));
            let rest = laws::changes(then, replies.skip(1));
            let made = laws::changes(job, replies);
            if laws::is_change(job.pending()) && effect::answers(job.pending(), replies[0]) {
                assert(made =~= seq![job.pending()] + rest);
                assert forall|i: int| 0 < i < made.len() implies #[trigger] made[i] == rest[
                    i - 1] by {}
            } else {
                assert(made =~= rest);
            }
        }
    }
}

/// How a switch comes out, told by the entries, the addresses, the instants and the pointers
/// alone. The outgoing profile's entry takes the live credential where the two differ, both
/// can be parsed, and not both carry an address or the addresses are equal. Then the target's
/// entry decides: without one, or with one that cannot be parsed, nothing more happens.
/// Otherwise it is live afterwards, with the settings that the target keeps; the pointers,
/// the marker and the lines are as they should be; and every other entry, and all else, is
/// as it was.
pub proof fn law_switch_comes_out(
    world: World,
    target: Seq<char>,
    json: bool,
    args: Seq<Seq<char>>,
)
    ensures
        exists|end: World, told: Seq<NoteOf<Seq<char>>>, result: Result<(), ErrorOf<Seq<char>>>|
            {
                let active = match world.state {
                    Some(state) => state.active,
                    None => None,
                };
                let synced = {
                    &&& active matches Some(name)
                    &&& world.entries.contains_key(world.canonical)
                    &&& world.entries.contains_key(keychain::account_of(name))
                    &&& world.entries[world.canonical] != world.entries[keychain::account_of(name)]
                    &&& (world.parse)(world.entries[world.canonical]) matches Ok(live)
                    &&& (world.parse)(world.entries[keychain::account_of(name)]) matches Ok(held)
                    &&& live.email is None || held.email is None || live.email == held.email
                };
                let kept = if synced {
                    world.entries.insert(
                        keychain::account_of(active->0),
                        world.entries[world.canonical],
                    )
                } else {
                    world.entries
                };
                let account = keychain::account_of(target);
                let bytes = kept[account];
                &&& #[trigger] laws::comes_to(
                    switch::started(world.canonical, target, json, args),
                    world,
                    end,
                    told,
                    result,
                )
                &&& end == (World {
                    entries: end.entries,
                    state: end.state,
                    settings: end.settings,
                    marker: end.marker,
                    ..world
                })
                &&& if !kept.contains_key(account) {
                    &&& result == Err::<(), _>(ErrorOf::ProfileNotFound(target))
                    &&& end == (World { entries: kept, ..world })
                    &&& told.len() == 0
                } else if (world.parse)(bytes) is Err {
                    &&& result == Err::<(), _>((world.parse)(bytes)->Err_0)
                    &&& end == (World { entries: kept, ..world })
                    &&& told.len() == 0
                } else {
                    let creds = (world.parse)(bytes)->Ok_0;
                    let soon = creds.expires_at_ms matches Some(at) && at <= world.now + 60_000;
                    &&& args.len() == 0 ==> result is Ok
                    &&& args.len() > 0 ==> result == Err::<(), _>(
                        ErrorOf::Subprocess {
                            cmd: tool::command_name(),
                            message: world.missing.shown,
                        },
                    )
                    &&& end.entry(world.canonical) == Some(bytes)
                    &&& forall|other: Seq<char>|
                        other != world.canonical ==> #[trigger] end.entry(other) == World {
                            entries: kept,
                            ..world
                        }.entry(other)
                    &&& end.state matches Some(state)
                    &&& state.active == Some(target)
                    &&& state.previous == if active == Some(target) {
                        match world.state {
                            Some(before) => before.previous,
                            None => None,
                        }
                    } else {
                        active
                    }
                    &&& state.default == match world.state {
                        Some(before) => before.default,
                        None => None,
                    }
                    &&& state.master == match world.state {
                        Some(before) => before.master,
                        None => None,
                    }
                    &&& end.settings == if world.kept.contains_key(target) {
                        Some(world.kept[target])
                    } else {
                        world.settings
                    }
                    &&& end.marker == Some(target)
                    &&& told == (if soon {
                        seq![
                            NoteOf::Line(
                                "warning: target "@ + tool::brand_name() + " profile `"@ + target
                                    + "` token is near expiry; consider `cs refresh "@ + target
                                    + "` first"@,
                            ),
                        ]
                    } else {
                        Seq::empty()
                    }) + (if json {
                        Seq::empty()
                    } else {
                        seq![
                            NoteOf::Line(
                                "switched -> "@ + target + " ("@ + tool::command_name() + ")"@,
                            ),
                        ]
                    }) + (if world.running > 0 {
                        seq![
                            NoteOf::Line(
                                "note: detected running `"@ + tool::command_name()
                                    + "` process(es); restart them to pick up the new account"@,
                            ),
                        ]
                    } else {
                        Seq::empty()
                    })
                }
            },
{
    law_switch_with_lock(world, target, json, args);
    let run = started_cli(
        installed(World { entries: flushed(world), ..world }, target, json),
        args,
        world.missing.shown,
    );
    assert(laws::comes_to(
        switch::started(world.canonical, target, json, args),
        world,
        run->Over_world,
        run->Over_told,
        run->Over_result,
    ));
}

/// A switch under its caller's lock comes out as one that takes the lock itself and has
/// nothing to start.
pub proof fn law_switch_under_a_lock_comes_out_alike(
    world: World,
    target: Seq<char>,
    json: bool,
    end: World,
    told: Seq<NoteOf<Seq<char>>>,
    result: Result<(), ErrorOf<Seq<char>>>,
)
    requires
        laws::comes_to(
            switch::started(world.canonical, target, json, Seq::empty()),
            world,
            end,
            told,
            result,
        ),
    ensures
        laws::comes_to(
            switch::started_locked(world.canonical, target, json),
            world,
            end,
            told,
            result,
        ),
{
    let kept = World { entries: flushed(world), ..world };
    law_switch(world, target, json);
    law_switch_with_lock(world, target, json, Seq::empty());
    laws::law_end_is_unique(
        laws::begin(switch::started(world.canonical, target, json, Seq::empty()), world),
        Run::Over { world: end, told, result },
        installed(kept, target, json),
    );
}

/// The live credential belongs into the outgoing profile's entry exactly where the bytes
/// differ, both can be parsed, and not both carry an address or the addresses are equal.
pub proof fn law_sync_goes_by_bytes_and_addresses(
    existing: BlobOf<Seq<char>, Seq<u8>>,
    live: BlobOf<Seq<char>, Seq<u8>>,
)
    ensures
        switch::sync_due(existing, live) <==> {
            &&& existing.bytes != live.bytes
            &&& live.creds matches Ok(a)
            &&& existing.creds matches Ok(b)
            &&& a.email is None || b.email is None || a.email == b.email
        },
{
}

/// A failure that a switch cannot do without ends it with the error of that failure, and
/// silently: of the lock, of the directory, of the write of the canonical entry, and of the
/// state. A failure to sync or to mark the active profile lets it go on.
pub proof fn law_switch_ends_with_what_failed(job: switch::Job, fault: FaultOf<Seq<char>>)
    ensures
        job.at is Locking || job.at is Preparing || job.at is Installing || job.at is Saving
            ==> job.after(ReplyOf::Done(Err(fault))) == effect::stops::<switch::Job>(fault.error),
        job.at matches SwitchAtOf::Syncing { profile, live, state } ==> job.after(
            ReplyOf::Done(Err(fault)),
        ) == effect::waits(
            switch::SwitchOf {
                at: SwitchAtOf::ReadingTarget { live: Some(live), state },
                ..job
            },
        ),
        job.at is Marking ==> job.after(ReplyOf::Done(Err(fault))) == job.after(
            ReplyOf::Done(Ok(())),
        ),
{
}

/// A rollback that fails is told, with the account and the failure.
pub proof fn law_failed_rollback_is_told(job: switch::Job, fault: FaultOf<Seq<char>>)
    requires
        job.at is RollingBack,
    ensures
        ({
            let line = "error: keychain rollback failed for "@ + job.canonical + ": "@
                + fault.shown;
            match job.after(ReplyOf::Done(Err(fault))) {
                NextOf::Wait { notes, job: next } => notes == seq![NoteOf::Line(line)],
                NextOf::End { notes, result } => notes == seq![NoteOf::Line(line)],
            }
        }),
{
}

/// A switch remarks on its sync: that it was refused exactly where the outgoing profile holds
/// other bytes and they do not go together, that it failed, that it was done exactly where
/// the entry reads back as the live credential, and otherwise that it was lost.
pub proof fn law_switch_remarks_on_its_sync(
    job: switch::Job,
    blob: BlobOf<Seq<char>, Seq<u8>>,
    fault: FaultOf<Seq<char>>,
)
    ensures
        job.at matches SwitchAtOf::ReadingOutgoing { profile, live, state } ==> job.noticed(
            ReplyOf::Blob(Ok(blob)),
        ) == if blob.bytes == live.bytes || ({
            &&& live.creds matches Ok(a)
            &&& blob.creds matches Ok(b)
            &&& a.email is None || b.email is None || a.email == b.email
        }) {
            None
        } else {
            Some(RemarkOf::NotSynced { profile })
        },
        job.at matches SwitchAtOf::Syncing { profile, live, state } ==> job.noticed(
            ReplyOf::Done(Err(fault)),
        ) == Some(RemarkOf::SyncFailed { profile, shown: fault.shown }) && job.noticed(
            ReplyOf::Done(Ok(())),
        ) is None,
        job.at matches SwitchAtOf::CheckingSync { profile, live, state } ==> job.noticed(
            ReplyOf::Blob(Ok(blob)),
        ) == if blob.bytes == live {
            Some(RemarkOf::Synced { profile })
        } else {
            Some(RemarkOf::SyncLost { profile })
        } && job.noticed(ReplyOf::Blob(Err(fault))) == Some(RemarkOf::SyncLost { profile }),
        job.at is RollingBack ==> job.noticed(ReplyOf::Done(Err(fault))) == Some(
            RemarkOf::RollbackFailed { account: job.canonical, shown: fault.shown },
        ),
{
}

/// Whatever the replies, a switch keeps to what it was started for, and when it comes to
/// start the CLI, it starts it with just the arguments that it was given.
pub proof fn law_switch_keeps_to_its_purpose(job: switch::Job, replies: Seq<Rep>)
    ensures
        laws::heard(job, replies) matches Some(then) ==> {
            &&& then.canonical == job.canonical
            &&& then.target == job.target
            &&& then.json == job.json
            &&& then.args == job.args
            &&& then.pending() matches Act::Exec { args } ==> args == job.args && args.len() > 0
                || job.at is Executing
        },
    decreases replies.len(),
{
    if replies.len() > 0 {
        if let NextOf::Wait { notes, job: then } = job.after(replies[0]) {
            law_switch_keeps_to_its_purpose(then, replies.skip(1));
        }
    }
}

/// The CLI is started with the arguments of the switch, and the failure to start it is the
/// switch's.
pub proof fn law_cli_is_started_with_the_arguments(job: switch::Job, message: Seq<char>)
    requires
        job.at is Executing,
    ensures
        job.pending() == (Act::Exec { args: job.args }),
        job.after(ReplyOf::ExecFailed(message)) == effect::stops::<switch::Job>(
            ErrorOf::Subprocess { cmd: tool::command_name(), message },
        ),
{
}

/// The lock comes first, then the directory of `cs`, and then the canonical entry is read.
pub proof fn law_switch_prepares_in_order(job: switch::Job, next: switch::Job)
    requires
        effect::goes_on(job, ReplyOf::Done(Ok(())), next),
    ensures
        job.at is Locking ==> job.pending() is Lock && next.pending() is EnsureHome,
        job.at is Preparing ==> job.pending() is EnsureHome && next.pending() == (Act::Read {
            account: job.canonical,
        }),
{
}

} // verus!
