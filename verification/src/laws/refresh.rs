//! What holds of a whole `cs refresh`.

use vstd::prelude::*;

use crate::commands::refresh;
use crate::commands::refresh::{OutcomeOf, RefreshAtOf};
use crate::effect;
use crate::effect::{Act, BlobOf, FaultOf, NextOf, NoteOf, Rep, ReplyOf, Script};
use crate::error::ErrorOf;
use crate::keychain;
use crate::laws;
use crate::laws::{Run, World};
use crate::profile;
use crate::profile::OauthCredsOf;
use crate::remark::RemarkOf;
use crate::tool;

verus! {

/// A run that is over.
pub open spec fn over(
    world: World,
    told: Seq<NoteOf<Seq<char>>>,
    result: Result<(), ErrorOf<Seq<char>>>,
) -> Run<refresh::Job> {
    Run::Over { world, told, result }
}

/// The end of a refresh that left a credential as it was.
pub open spec fn verdict(
    world: World,
    told: Seq<NoteOf<Seq<char>>>,
    creds: OauthCredsOf<Seq<char>>,
    name: Seq<char>,
) -> Run<refresh::Job> {
    match refresh::unchanged(creds, name, world.now as int) {
        Ok(note) => over(world, told.push(note), Ok(())),
        Err(e) => over(world, told, Err(e)),
    }
}

/// The world with the canonical entry set, or cleared.
pub open spec fn with_canonical(world: World, entry: Option<Seq<u8>>) -> World {
    World { entries: laws::put(world.entries, world.canonical, entry), ..world }
}

/// How a refresh in place ends, where the profile holds `creds` and the canonical entry
/// holds `before`: whatever the CLI made of the canonical entry stays there, and goes
/// into the profile's entry too unless it is known to be of another account.
pub open spec fn refreshed_in_place(
    world: World,
    name: Seq<char>,
    creds: OauthCredsOf<Seq<char>>,
    before: Seq<u8>,
) -> Run<refresh::Job> {
    let (entry, outcome) = (world.status)(Some(before));
    let after = with_canonical(world, entry);
    match outcome {
        Err(f) => over(after, effect::quiet(), Err(f.error)),
        Ok(_) => match entry {
            None => over(after, effect::quiet(), Err(world.missing.error)),
            Some(bytes) => if refresh::same_account(world.blob(bytes), creds) {
                let mirrored = World {
                    entries: after.entries.insert(keychain::account_of(name), bytes),
                    ..after
                };
                if bytes != before {
                    over(mirrored, effect::say(refresh::refreshed_line(name)), Ok(()))
                } else {
                    verdict(mirrored, effect::quiet(), (world.parse)(bytes)->Ok_0, name)
                }
            } else if bytes != before {
                over(after, effect::say(refresh::refreshed_line(name)), Ok(()))
            } else {
                verdict(after, effect::quiet(), creds, name)
            },
        },
    }
}

/// What a staged refresh tells the user beforehand.
pub open spec fn warned(world: World) -> Seq<NoteOf<Seq<char>>> {
    if world.running > 0 {
        effect::say(refresh::running_line())
    } else {
        effect::quiet()
    }
}

/// How a staged refresh ends, where the profile holds `stale`. A failed run is undone: the
/// canonical entry holds again what it held before, except that where nobody was logged in
/// before, what has replaced the staged credential stays.
pub open spec fn refreshed_staged(
    world: World,
    name: Seq<char>,
    creds: OauthCredsOf<Seq<char>>,
    stale: Seq<u8>,
) -> Run<refresh::Job> {
    let live = world.entry(world.canonical);
    let told = warned(world);
    let (entry, outcome) = (world.status)(Some(stale));
    let backed_out = with_canonical(
        world,
        if live is None && entry is Some && entry != Some(stale) {
            entry
        } else {
            live
        },
    );
    match outcome {
        Err(f) => over(backed_out, told, Err(f.error)),
        Ok(_) => match entry {
            None => over(
                backed_out,
                told,
                Err(ErrorOf::Keychain("read refreshed canonical: "@ + world.missing.shown)),
            ),
            Some(bytes) => if bytes == stale {
                verdict(with_canonical(world, live), told, creds, name)
            } else if refresh::same_account(world.blob(bytes), creds) {
                over(
                    World {
                        entries: laws::put(
                            world.entries.insert(keychain::account_of(name), bytes),
                            world.canonical,
                            live,
                        ),
                        ..world
                    },
                    told + effect::say(refresh::refreshed_line(name)),
                    Ok(()),
                )
            } else {
                over(with_canonical(world, entry), told, Err(refresh::overtaken(name)))
            },
        },
    }
}

/// The canonical entry holds the profile's own account, as far as is known.
pub open spec fn canonical_is_ours(world: World, creds: OauthCredsOf<Seq<char>>) -> bool {
    world.entry(world.canonical) matches Some(bytes) && refresh::same_account(
        world.blob(bytes),
        creds,
    )
}

/// How a refresh ends.
pub open spec fn refreshed(world: World, name: Seq<char>, active: bool) -> Run<refresh::Job> {
    match world.entry(keychain::account_of(name)) {
        None => over(world, effect::quiet(), Err(ErrorOf::ProfileNotFound(name))),
        Some(stale) => match (world.parse)(stale) {
            Err(e) => over(world, effect::quiet(), Err(e)),
            Ok(creds) => if !world.on_path {
                over(world, effect::quiet(), Err(refresh::no_claude()))
            } else if active && canonical_is_ours(world, creds) {
                refreshed_in_place(world, name, creds, world.entries[world.canonical])
            } else {
                refreshed_staged(world, name, creds, stale)
            },
        },
    }
}

spec fn at(
    world: World,
    name: Seq<char>,
    active: bool,
    told: Seq<NoteOf<Seq<char>>>,
    stage: refresh::Stage,
) -> Run<refresh::Job> {
    Run::On {
        job: refresh::RefreshOf {
            at: stage,
            ..refresh::started(world.canonical, name, active)
        },
        world,
        told,
    }
}

proof fn lemma_in_place(
    world: World,
    name: Seq<char>,
    active: bool,
    creds: OauthCredsOf<Seq<char>>,
)
    requires
        world.entries.contains_key(world.canonical),
    ensures
        laws::reaches(
            at(world, name, active, effect::quiet(), RefreshAtOf::ReadingBefore { creds }),
            refreshed_in_place(world, name, creds, world.entries[world.canonical]),
        ),
{
    reveal_with_fuel(laws::ticks, 6);
    let start = at(world, name, active, effect::quiet(), RefreshAtOf::ReadingBefore { creds });
    laws::lemma_ticks(start, 5);
    let r1 = laws::tick(start);
    let r2 = laws::tick(r1);
    let r3 = laws::tick(r2);
    let r4 = laws::tick(r3);
    let r5 = laws::tick(r4);
    assert(r5 =~= refreshed_in_place(world, name, creds, world.entries[world.canonical]));
}

/// The world once the CLI has worked on the staged credential.
spec fn worked(world: World, stale: Seq<u8>) -> World {
    with_canonical(world, (world.status)(Some(stale)).0)
}

proof fn lemma_stage(
    world: World,
    name: Seq<char>,
    active: bool,
    creds: OauthCredsOf<Seq<char>>,
    stale: Seq<u8>,
)
    ensures
        laws::reaches(
            at(world, name, active, effect::quiet(), RefreshAtOf::ReadingLive { stale, creds }),
            if (world.status)(Some(stale)).1 is Ok {
                at(
                    worked(world, stale),
                    name,
                    active,
                    warned(world),
                    RefreshAtOf::ReadingRefreshed {
                        stale,
                        creds,
                        live: world.entry(world.canonical),
                    },
                )
            } else {
                refreshed_staged(world, name, creds, stale)
            },
        ),
{
    let start = at(
        world,
        name,
        active,
        effect::quiet(),
        RefreshAtOf::ReadingLive { stale, creds },
    );
    let live = world.entry(world.canonical);
    let staged = with_canonical(world, Some(stale));
    let r3 = at(
        staged,
        name,
        active,
        warned(world),
        RefreshAtOf::CheckingStage { stale, creds, live },
    );
    assert(laws::reaches(start, r3)) by {
        reveal_with_fuel(laws::ticks, 4);
        laws::lemma_ticks(start, 3);
        let r1 = laws::tick(start);
        let r2 = laws::tick(r1);
        assert(laws::tick(r2) =~= r3);
    }
    let (entry, outcome) = (world.status)(Some(stale));
    let end = if outcome is Ok {
        at(
            worked(world, stale),
            name,
            active,
            warned(world),
            RefreshAtOf::ReadingRefreshed { stale, creds, live },
        )
    } else {
        refreshed_staged(world, name, creds, stale)
    };
    assert(laws::reaches(r3, end)) by {
        reveal_with_fuel(laws::ticks, 5);
        let r4 = laws::tick(r3);
        let r5 = laws::tick(r4);
        assert(staged.entry(world.canonical) == Some(stale));
        if outcome is Ok {
            laws::lemma_ticks(r3, 2);
            assert(r5 =~= end);
        } else {
            laws::lemma_ticks(r3, 4);
            assert(laws::tick(laws::tick(r5)) =~= end);
        }
    }
    laws::lemma_onward(start, r3, end);
}

proof fn lemma_staged(
    world: World,
    name: Seq<char>,
    active: bool,
    creds: OauthCredsOf<Seq<char>>,
    stale: Seq<u8>,
)
    ensures
        laws::reaches(
            at(world, name, active, effect::quiet(), RefreshAtOf::ReadingLive { stale, creds }),
            refreshed_staged(world, name, creds, stale),
        ),
{
    let start = at(
        world,
        name,
        active,
        effect::quiet(),
        RefreshAtOf::ReadingLive { stale, creds },
    );
    let live = world.entry(world.canonical);
    let (entry, outcome) = (world.status)(Some(stale));
    let end = refreshed_staged(world, name, creds, stale);
    lemma_stage(world, name, active, creds, stale);
    if outcome is Ok {
        let from = at(
            worked(world, stale),
            name,
            active,
            warned(world),
            RefreshAtOf::ReadingRefreshed { stale, creds, live },
        );
        assert(laws::reaches(from, end)) by {
            reveal_with_fuel(laws::ticks, 5);
            let r1 = laws::tick(from);
            let r2 = laws::tick(r1);
            let r3 = laws::tick(r2);
            let r4 = laws::tick(r3);
            laws::lemma_ticks(from, 4);
            assert(r4 =~= end);
        }
        laws::lemma_onward(start, from, end);
    }
}

/// A refresh in a world that does what it is asked ends as `refreshed` says: without the
/// profile, with an entry that holds no credentials, or without the CLI it changes
/// nothing; an active profile whose account is live is refreshed in place; any other is
/// staged, refreshed, and the live credential put back.
pub proof fn law_refresh(world: World, name: Seq<char>, active: bool)
    ensures
        laws::reaches(
            laws::begin(refresh::started(world.canonical, name, active), world),
            refreshed(world, name, active),
        ),
{
    let start = laws::begin(refresh::started(world.canonical, name, active), world);
    let end = refreshed(world, name, active);
    match world.entry(keychain::account_of(name)) {
        Some(stale) if (world.parse)(stale) is Ok && world.on_path => {
            let creds = (world.parse)(stale)->Ok_0;
            if active && canonical_is_ours(world, creds) {
                let from = at(
                    world,
                    name,
                    active,
                    effect::quiet(),
                    RefreshAtOf::ReadingBefore { creds },
                );
                assert(laws::reaches(start, from)) by {
                    reveal_with_fuel(laws::ticks, 5);
                    laws::lemma_ticks(start, 4);
                    let r1 = laws::tick(start);
                    let r2 = laws::tick(r1);
                    let r3 = laws::tick(r2);
                    assert(laws::tick(r3) =~= from);
                }
                lemma_in_place(world, name, active, creds);
                laws::lemma_onward(start, from, end);
            } else {
                let from = at(
                    world,
                    name,
                    active,
                    effect::quiet(),
                    RefreshAtOf::ReadingLive { stale, creds },
                );
                assert(laws::reaches(start, from)) by {
                    reveal_with_fuel(laws::ticks, 5);
                    let r1 = laws::tick(start);
                    let r2 = laws::tick(r1);
                    let r3 = laws::tick(r2);
                    if active {
                        laws::lemma_ticks(start, 4);
                        assert(laws::tick(r3) =~= from);
                    } else {
                        laws::lemma_ticks(start, 3);
                        assert(r3 =~= from);
                    }
                }
                lemma_staged(world, name, active, creds, stale);
                laws::lemma_onward(start, from, end);
            }
        },
        _ => {
            reveal_with_fuel(laws::ticks, 3);
            laws::lemma_ticks(start, 2);
            let r1 = laws::tick(start);
            assert(laws::tick(r1) =~= end);
        },
    }
}

/// The world that a refresh leaves.
pub open spec fn world_after(world: World, name: Seq<char>, active: bool) -> World {
    refreshed(world, name, active)->Over_world
}

/// How a refresh comes out.
pub open spec fn result(world: World, name: Seq<char>, active: bool) -> Result<
    (),
    ErrorOf<Seq<char>>,
> {
    refreshed(world, name, active)->Over_result
}

/// The profile can be refreshed: it holds credentials, and the CLI is there to renew them.
pub open spec fn ready(world: World, name: Seq<char>) -> bool {
    &&& world.on_path
    &&& world.entry(keychain::account_of(name)) matches Some(stale)
    &&& (world.parse)(stale) is Ok
}

/// What the profile holds.
pub open spec fn held(world: World, name: Seq<char>) -> OauthCredsOf<Seq<char>> {
    (world.parse)(world.entries[keychain::account_of(name)])->Ok_0
}

/// The profile is refreshed in place.
pub open spec fn in_place(world: World, name: Seq<char>, active: bool) -> bool {
    &&& ready(world, name)
    &&& active
    &&& canonical_is_ours(world, held(world, name))
}

/// The profile is staged into the canonical entry.
pub open spec fn staged(world: World, name: Seq<char>, active: bool) -> bool {
    ready(world, name) && !in_place(world, name, active)
}

/// What the CLI leaves in the canonical entry where the profile is staged.
pub open spec fn made_of_staged(world: World, name: Seq<char>) -> Option<Seq<u8>> {
    (world.status)(Some(world.entries[keychain::account_of(name)])).0
}

/// Another session has written its own credential over the staged one.
pub open spec fn is_overtaken(world: World, name: Seq<char>) -> bool {
    let stale = world.entries[keychain::account_of(name)];
    &&& (world.status)(Some(stale)).1 is Ok
    &&& made_of_staged(world, name) matches Some(bytes)
    &&& bytes != stale
    &&& !refresh::same_account(world.blob(bytes), held(world, name))
}

/// The active profile's session is never lost: after a refresh in place, however it comes
/// out, the canonical entry holds exactly what the CLI left there.
pub proof fn law_in_place_refresh_leaves_the_session_to_claude(
    world: World,
    name: Seq<char>,
    active: bool,
)
    requires
        in_place(world, name, active),
    ensures
        world_after(world, name, active).entry(world.canonical) == (world.status)(
            world.entry(world.canonical),
        ).0,
{
}

/// The active profile tracks its session: after a refresh in place whose status run
/// succeeded and left this profile's account, the profile holds what is live, rotated or
/// not.
pub proof fn law_in_place_refresh_mirrors_the_session(world: World, name: Seq<char>, active: bool)
    requires
        in_place(world, name, active),
        (world.status)(world.entry(world.canonical)).1 is Ok,
        ({
            &&& (world.status)(world.entry(world.canonical)).0 matches Some(bytes)
            &&& refresh::same_account(world.blob(bytes), held(world, name))
        }),
    ensures
        world_after(world, name, active).entry(keychain::account_of(name)) == world_after(
            world,
            name,
            active,
        ).entry(world.canonical),
{
}

/// A background refresh keeps the live session: with a live credential, the canonical
/// entry holds it again afterwards, however the refresh comes out. The one exception is a
/// run that succeeded and left another account's credential: that one is left in place, and
/// the refresh fails.
pub proof fn law_background_refresh_keeps_the_session(
    world: World,
    name: Seq<char>,
    active: bool,
)
    requires
        staged(world, name, active),
        world.entry(world.canonical) is Some,
    ensures
        world_after(world, name, active).entry(world.canonical) == if is_overtaken(world, name) {
            made_of_staged(world, name)
        } else {
            world.entry(world.canonical)
        },
        is_overtaken(world, name) ==> result(world, name, active) == Err::<(), _>(
            refresh::overtaken(name),
        ),
{
}

/// A background refresh does not leave the profile staged: with nobody logged in, the staged
/// credential is gone again afterwards, however the refresh comes out, and one that succeeds
/// leaves the canonical entry empty. What may stand there after a failure is what replaced
/// the staged credential during the status run.
pub proof fn law_background_refresh_leaves_nothing_staged(world: World, name: Seq<char>, active: bool)
    requires
        staged(world, name, active),
        world.entry(world.canonical) is None,
    ensures
        world_after(world, name, active).entry(world.canonical) == ({
            let stale = world.entries[keychain::account_of(name)];
            let failed = (world.status)(Some(stale)).1 is Err;
            match made_of_staged(world, name) {
                Some(bytes) => if bytes != stale && (failed || !refresh::same_account(
                    world.blob(bytes),
                    held(world, name),
                )) {
                    Some(bytes)
                } else {
                    None
                },
                None => None,
            }
        }),
        world_after(world, name, active).entry(world.canonical) != Some(
            world.entries[keychain::account_of(name)],
        ),
        result(world, name, active) is Ok ==> world_after(world, name, active).entry(
            world.canonical,
        ) is None,
{
}

/// A background refresh keeps the rotated token: where the CLI left a new credential of
/// this profile's account, the refresh succeeds and the profile holds that credential.
pub proof fn law_background_refresh_keeps_the_rotated_token(
    world: World,
    name: Seq<char>,
    active: bool,
    bytes: Seq<u8>,
)
    requires
        staged(world, name, active),
        world.canonical != keychain::account_of(name),
        (world.status)(Some(world.entries[keychain::account_of(name)])).1 is Ok,
        made_of_staged(world, name) == Some(bytes),
        bytes != world.entries[keychain::account_of(name)],
        refresh::same_account(world.blob(bytes), held(world, name)),
    ensures
        result(world, name, active) is Ok,
        world_after(world, name, active).entry(keychain::account_of(name)) == Some(bytes),
{
}

/// A profile's entry never takes a credential that cannot be parsed or is known to be of
/// another account, and a refresh never deletes it.
pub proof fn law_refresh_takes_no_foreign_credential(world: World, name: Seq<char>, active: bool)
    requires
        ready(world, name),
        world.canonical != keychain::account_of(name),
    ensures
        world_after(world, name, active).entry(keychain::account_of(name)) matches Some(bytes) && (
        bytes == world.entries[keychain::account_of(name)] || refresh::same_account(
            world.blob(bytes),
            held(world, name),
        )),
{
}

/// A refresh leaves alone every entry but the canonical one and the profile's, and all
/// that is not in the keychain.
pub proof fn law_refresh_leaves_the_rest_alone(
    world: World,
    name: Seq<char>,
    active: bool,
    account: Seq<char>,
)
    requires
        account != world.canonical,
        account != keychain::account_of(name),
    ensures
        world_after(world, name, active).entry(account) == world.entry(account),
        world_after(world, name, active) == (World {
            entries: world_after(world, name, active).entries,
            ..world
        }),
{
}

/// A refresh that cannot begin changes nothing.
pub proof fn law_refresh_needs_profile_and_claude(world: World, name: Seq<char>, active: bool)
    requires
        !ready(world, name),
    ensures
        world_after(world, name, active) == world,
        result(world, name, active) is Err,
{
}

/// The stages of a refresh in place.
pub open spec fn is_in_place(at: refresh::Stage) -> bool {
    ||| at is ReadingBefore
    ||| at is RefreshingInPlace
    ||| at is ReadingAfter
    ||| at is Mirroring
    ||| at is CheckingValidity
}

/// Whatever the replies, a refresh in place asks for no change of the canonical entry but
/// the one that the CLI makes: it writes into the profile's entry alone, and deletes
/// nothing.
pub proof fn law_in_place_refresh_stages_nothing(job: refresh::Job, replies: Seq<Rep>)
    requires
        is_in_place(job.at),
    ensures
        laws::heard(job, replies) matches Some(then) ==> {
            &&& is_in_place(then.at)
            &&& then.pending() !is Write
            &&& then.pending() !is Delete
            &&& then.pending() matches Act::WriteVerified { account, bytes } ==> account
                == keychain::account_of(job.name)
        },
    decreases replies.len(),
{
    if replies.len() > 0 {
        if let NextOf::Wait { notes, job: then } = job.after(replies[0]) {
            law_in_place_refresh_stages_nothing(then, replies.skip(1));
        }
    }
}

/// The stage knows what to put back into the canonical entry: `live`, or nothing.
pub open spec fn remembers(at: refresh::Stage, stale: Seq<u8>, live: Option<Seq<u8>>) -> bool {
    match at {
        RefreshAtOf::Counting { stale: s, creds, live: l } => s == stale && l == live,
        RefreshAtOf::Staging { stale: s, creds, live: l } => s == stale && l == live,
        RefreshAtOf::CheckingStage { stale: s, creds, live: l } => s == stale && l == live,
        RefreshAtOf::RefreshingStaged { stale: s, creds, live: l } => s == stale && l == live,
        RefreshAtOf::ReadingRefreshed { stale: s, creds, live: l } => s == stale && l == live,
        RefreshAtOf::Persisting { refreshed, live: l } => l == live,
        RefreshAtOf::CheckingRestore { expected, live: l, then } => l == live,
        RefreshAtOf::Restoring { live: l, then } => live == Some(l),
        RefreshAtOf::Clearing { then } => live is None,
        RefreshAtOf::RollingBack { live: l, error } => live == Some(l),
        RefreshAtOf::CheckingValidity { creds } => true,
        _ => false,
    }
}

/// Whatever the replies, once a staged refresh has seen the live credential it writes
/// nothing into the canonical entry but the profile's old credential and then the live one,
/// and deletes that entry only if there was no live credential.
pub proof fn law_staged_refresh_writes_back_what_was_live(
    job: refresh::Job,
    stale: Seq<u8>,
    live: Option<Seq<u8>>,
    replies: Seq<Rep>,
)
    requires
        remembers(job.at, stale, live),
    ensures
        laws::heard(job, replies) matches Some(then) ==> {
            &&& remembers(then.at, stale, live)
            &&& then.pending() matches Act::Write { account, bytes } ==> {
                &&& account == job.canonical
                &&& bytes == stale && then.at is Staging || live == Some(bytes)
            }
            &&& then.pending() matches Act::Delete { account } ==> account == job.canonical
                && live is None
        },
    decreases replies.len(),
{
    if replies.len() > 0 {
        if let NextOf::Wait { notes, job: then } = job.after(replies[0]) {
            law_staged_refresh_writes_back_what_was_live(then, stale, live, replies.skip(1));
        }
    }
}

/// Whatever the replies, a refresh writes into the profile's entry only what it has just
/// read from the canonical one, and only if that holds credentials that are not known to
/// be of another account than the profile's.
pub proof fn law_refresh_is_guarded(
    job: refresh::Job,
    next: refresh::Job,
    reply: Rep,
    account: Seq<char>,
    bytes: Seq<u8>,
)
    requires
        effect::goes_on(job, reply, next),
        next.pending() == (Act::WriteVerified { account, bytes }),
        job.pending() != next.pending(),
    ensures
        account == keychain::account_of(job.name),
        job.pending() == (Act::Read { account: job.canonical }),
        ({
            &&& reply matches ReplyOf::Blob(Ok(blob))
            &&& blob.bytes == bytes
            &&& job.at matches RefreshAtOf::ReadingAfter { creds, before }
                ==> refresh::same_account(blob, creds)
            &&& job.at matches RefreshAtOf::ReadingRefreshed { stale, creds, live }
                ==> refresh::same_account(blob, creds)
            &&& job.at is ReadingAfter || job.at is ReadingRefreshed
        }),
{
}

/// A write of another process is never undone: where the canonical entry no longer holds
/// what the staged refresh left there, nothing more is written or deleted, whatever the
/// replies.
pub proof fn law_concurrent_write_is_left_in_place(
    job: refresh::Job,
    blob: BlobOf<Seq<char>, Seq<u8>>,
    replies: Seq<Rep>,
)
    requires
        job.at matches RefreshAtOf::CheckingRestore { expected, live, then } && blob.bytes
            != expected,
    ensures
        job.after(ReplyOf::Blob(Ok(blob))) matches NextOf::Wait { notes, job: next } ==> (
        laws::heard(next, replies) matches Some(last) ==> last.pending() is Clock),
{
    if let NextOf::Wait { notes, job: next } = job.after(ReplyOf::Blob(Ok(blob))) {
        lemma_only_clock(next, replies);
    }
}

/// The error with which a reply makes a staged refresh back out, if it does: the staged
/// credential does not read back, the status run fails, or the canonical entry cannot be
/// read after it.
pub open spec fn staging_failure(job: refresh::Job, reply: Rep) -> Option<ErrorOf<Seq<char>>> {
    match (job.at, reply) {
        (RefreshAtOf::CheckingStage { stale, creds, live }, ReplyOf::Blob(r)) => if r matches Ok(
            blob,
        ) && blob.bytes == stale {
            None
        } else {
            Some(refresh::not_staged())
        },
        (RefreshAtOf::RefreshingStaged { stale, creds, live }, ReplyOf::Done(Err(f))) => Some(
            f.error,
        ),
        (RefreshAtOf::ReadingRefreshed { stale, creds, live }, ReplyOf::Blob(Err(f))) => Some(
            ErrorOf::Keychain("read refreshed canonical: "@ + f.shown),
        ),
        _ => None,
    }
}

/// A staged refresh that fails where nobody was logged in is undone: whatever the replies,
/// the canonical entry is read again, and deleted unless it no longer holds the staged
/// credential. Either way the refresh ends with the error of the failure.
pub proof fn law_failed_staging_is_cleared(
    job: refresh::Job,
    stale: Seq<u8>,
    reply: Rep,
    error: ErrorOf<Seq<char>>,
    found: Rep,
    deleted: Rep,
)
    requires
        remembers(job.at, stale, None),
        staging_failure(job, reply) == Some(error),
        found is Blob,
        deleted is Done,
    ensures
        exists|look: refresh::Job|
            {
                &&& #[trigger] effect::goes_on(job, reply, look)
                &&& look.pending() == (Act::Read { account: job.canonical })
                &&& if found matches ReplyOf::Blob(Ok(blob)) && blob.bytes != stale {
                    effect::ends(look, found, Err(error))
                } else {
                    exists|clear: refresh::Job|
                        {
                            &&& #[trigger] effect::goes_on(look, found, clear)
                            &&& clear.pending() == (Act::Delete { account: job.canonical })
                            &&& effect::ends(clear, deleted, Err(error))
                        }
                }
            },
{
    let then = OutcomeOf::Failed { error };
    let look = refresh::RefreshOf {
        at: RefreshAtOf::CheckingRestore { expected: stale, live: None, then },
        ..job
    };
    let clear = refresh::RefreshOf { at: RefreshAtOf::Clearing { then }, ..job };
    assert(effect::goes_on(job, reply, look));
    if !(found matches ReplyOf::Blob(Ok(blob)) && blob.bytes != stale) {
        assert(effect::goes_on(look, found, clear));
    }
}

/// A staged refresh that fails with a session to restore restores it: whatever the replies,
/// the live credential is written back, and the refresh ends with the error of the failure,
/// whatever comes of the write.
pub proof fn law_failed_staging_restores_the_session(
    job: refresh::Job,
    stale: Seq<u8>,
    live: Seq<u8>,
    reply: Rep,
    error: ErrorOf<Seq<char>>,
    written: Rep,
)
    requires
        remembers(job.at, stale, Some(live)),
        staging_failure(job, reply) == Some(error),
        written is Done,
    ensures
        exists|back: refresh::Job|
            {
                &&& #[trigger] effect::goes_on(job, reply, back)
                &&& back.pending() == (Act::Write { account: job.canonical, bytes: live })
                &&& effect::ends(back, written, Err(error))
            },
{
    let back = refresh::RefreshOf { at: RefreshAtOf::RollingBack { live, error }, ..job };
    assert(effect::goes_on(job, reply, back));
}

proof fn lemma_only_clock(job: refresh::Job, replies: Seq<Rep>)
    requires
        job.at is CheckingValidity,
    ensures
        laws::heard(job, replies) matches Some(last) ==> last.at is CheckingValidity,
    decreases replies.len(),
{
    if replies.len() > 0 {
        if let NextOf::Wait { notes, job: then } = job.after(replies[0]) {
            lemma_only_clock(then, replies.skip(1));
        }
    }
}

/// The stages before a refresh has the lock.
pub open spec fn is_unlocked(at: refresh::Stage) -> bool {
    at is ReadingProfile || at is FindingClaude || at is Locking
}

/// Whatever the replies, a refresh only reads the profile and looks for the CLI before it
/// has the lock.
pub proof fn law_refresh_waits_for_the_lock(job: refresh::Job, replies: Seq<Rep>)
    requires
        is_unlocked(job.at),
    ensures
        laws::heard(job, replies) matches Some(then) ==> laws::any_granted(replies) || {
            ||| then.pending() == (Act::Read { account: keychain::account_of(job.name) })
            ||| then.pending() is FindClaude
            ||| then.pending() is Lock
        },
    decreases replies.len(),
{
    if replies.len() > 0 {
        laws::lemma_any_granted(replies);
        if let NextOf::Wait { notes, job: then } = job.after(replies[0]) {
            if is_unlocked(then.at) {
                law_refresh_waits_for_the_lock(then, replies.skip(1));
            }
        }
    }
}

/// Whatever the replies, a profile is refreshed in place only right after the canonical
/// entry was seen to hold credentials that are not known to be of another account than
/// the profile's.
pub proof fn law_in_place_refresh_needs_the_same_account(
    job: refresh::Job,
    next: refresh::Job,
    reply: Rep,
)
    requires
        effect::goes_on(job, reply, next),
        next.at is ReadingBefore,
        job.at !is ReadingBefore,
    ensures
        job.pending() == (Act::Read { account: job.canonical }),
        ({
            &&& job.at matches RefreshAtOf::Probing { stale, creds }
            &&& reply matches ReplyOf::Blob(Ok(blob))
            &&& refresh::same_account(blob, creds)
        }),
{
}

/// Whatever the replies, a staged refresh comes to the word of success only once the new
/// credential was written into the profile's entry and read back: the live credential is
/// put back after that.
pub proof fn law_staged_refresh_keeps_before_it_restores(
    job: refresh::Job,
    next: refresh::Job,
    reply: Rep,
    expected: Seq<u8>,
    live: Option<Seq<u8>>,
)
    requires
        effect::goes_on(job, reply, next),
        next.at == (refresh::Stage::CheckingRestore {
            expected,
            live,
            then: OutcomeOf::Refreshed,
        }),
        next.at != job.at,
    ensures
        job.at == (refresh::Stage::Persisting { refreshed: expected, live }),
        job.pending() == (Act::WriteVerified {
            account: keychain::account_of(job.name),
            bytes: expected,
        }),
        laws::granted(reply),
{
}

/// A live credential that is still valid makes for a success, however old the profile's
/// own copy is: after a refresh in place that left the canonical entry as it was, the
/// verdict is on that entry.
pub proof fn law_in_place_refresh_judges_the_live_credential(
    world: World,
    name: Seq<char>,
    active: bool,
)
    requires
        in_place(world, name, active),
        (world.status)(world.entry(world.canonical)) == (
            world.entry(world.canonical),
            Ok::<(), FaultOf<Seq<char>>>(()),
        ),
    ensures
        ({
            let live = (world.parse)(world.entries[world.canonical])->Ok_0;
            result(world, name, active) is Ok <==> !live.expired(0, world.now as int)
        }),
{
}

/// How many more actions a refresh takes at most.
pub open spec fn actions_left(at: refresh::Stage) -> nat {
    match at {
        RefreshAtOf::ReadingProfile => 14,
        RefreshAtOf::FindingClaude { .. } => 13,
        RefreshAtOf::Locking { .. } => 12,
        RefreshAtOf::Probing { .. } => 11,
        RefreshAtOf::ReadingBefore { .. } => 5,
        RefreshAtOf::RefreshingInPlace { .. } => 4,
        RefreshAtOf::ReadingAfter { .. } => 3,
        RefreshAtOf::Mirroring { .. } => 2,
        RefreshAtOf::ReadingLive { .. } => 10,
        RefreshAtOf::Counting { .. } => 9,
        RefreshAtOf::Staging { .. } => 8,
        RefreshAtOf::CheckingStage { .. } => 7,
        RefreshAtOf::RefreshingStaged { .. } => 6,
        RefreshAtOf::ReadingRefreshed { .. } => 5,
        RefreshAtOf::Persisting { .. } => 4,
        RefreshAtOf::CheckingRestore { .. } => 3,
        RefreshAtOf::Restoring { .. } => 2,
        RefreshAtOf::Clearing { .. } => 2,
        RefreshAtOf::RollingBack { .. } => 1,
        RefreshAtOf::CheckingValidity { .. } => 1,
    }
}

/// Whatever the replies, a refresh comes to an end: every answer brings it nearer, and a
/// reply that is no answer changes nothing.
pub proof fn law_refresh_ends(job: refresh::Job, reply: Rep)
    ensures
        effect::answers(job.pending(), reply) ==> (job.after(reply) matches NextOf::Wait {
            notes,
            job: next,
        } ==> actions_left(next.at) < actions_left(job.at)),
        !effect::answers(job.pending(), reply) ==> job.after(reply) == effect::waits(job),
        actions_left(job.at) > 0,
{
}

/// Not both credentials carry an address, or the addresses are equal.
pub open spec fn go_together(a: OauthCredsOf<Seq<char>>, b: OauthCredsOf<Seq<char>>) -> bool {
    a.email is None || b.email is None || a.email == b.email
}

/// What a refresh says of a credential that the CLI left as it was.
pub open spec fn is_verdict(
    creds: OauthCredsOf<Seq<char>>,
    name: Seq<char>,
    now: i64,
    told: Seq<NoteOf<Seq<char>>>,
    result: Result<(), ErrorOf<Seq<char>>>,
) -> bool {
    match creds.expires_at_ms {
        Some(at) => if at <= now {
            &&& told.len() == 0
            &&& result == Err::<(), _>(
                ErrorOf::Other(
                    tool::brand_name() + " Code did not refresh `"@ + name + "`; run `"@
                        + tool::command_name() + " /login` for this profile manually"@,
                ),
            )
        } else {
            &&& result is Ok
            &&& told.len() == 1
            &&& told[0] matches NoteOf::StillValid { name: whose, secs }
            &&& whose == name
            &&& now + 1000 * secs <= at < now + 1000 * (secs + 1)
        },
        None => {
            &&& result is Ok
            &&& told == seq![
                NoteOf::Line("`"@ + name + "` token still valid; nothing to refresh"@),
            ]
        },
    }
}

/// A refresh that cannot begin tells why and changes nothing: there is no such profile, its
/// entry cannot be parsed, or the CLI is not on the path, in this order.
pub proof fn law_refresh_is_refused(world: World, name: Seq<char>, active: bool)
    ensures
        ({
            let account = keychain::account_of(name);
            let job = refresh::started(world.canonical, name, active);
            if !world.entries.contains_key(account) {
                laws::comes_to(
                    job,
                    world,
                    world,
                    Seq::empty(),
                    Err(ErrorOf::ProfileNotFound(name)),
                )
            } else {
                match (world.parse)(world.entries[account]) {
                    Err(e) => laws::comes_to(job, world, world, Seq::empty(), Err(e)),
                    Ok(_) => !world.on_path ==> laws::comes_to(
                        job,
                        world,
                        world,
                        Seq::empty(),
                        Err(
                            ErrorOf::Other(
                                "`"@ + tool::command_name() + "` CLI not on PATH; run `"@
                                    + tool::command_name()
                                    + " /login` for this profile manually"@,
                            ),
                        ),
                    ),
                }
            }
        }),
{
    law_refresh(world, name, active);
    assert(effect::quiet() =~= Seq::empty());
}

/// How a refresh in place comes out, told by the entries, the addresses and the instants
/// alone. It is one where the profile is the active one, and the live credential can be
/// parsed and goes together with the profile's. The canonical entry is then left as the CLI
/// left it; the profile takes it where the run succeeded and it goes together with what the
/// profile holds; and a live token that was left as it was is a failure exactly where its
/// instant of expiry has passed.
pub proof fn law_refresh_in_place_comes_out(
    world: World,
    name: Seq<char>,
    held: OauthCredsOf<Seq<char>>,
    live: OauthCredsOf<Seq<char>>,
)
    requires
        world.on_path,
        world.canonical != keychain::account_of(name),
        world.entries.contains_key(keychain::account_of(name)),
        (world.parse)(world.entries[keychain::account_of(name)]) == Ok::<
            _,
            ErrorOf<Seq<char>>,
        >(held),
        world.entries.contains_key(world.canonical),
        (world.parse)(world.entries[world.canonical]) == Ok::<_, ErrorOf<Seq<char>>>(live),
        go_together(live, held),
    ensures
        exists|end: World, told: Seq<NoteOf<Seq<char>>>, result: Result<(), ErrorOf<Seq<char>>>|
            {
                let account = keychain::account_of(name);
                let before = world.entries[world.canonical];
                let (left, outcome) = (world.status)(Some(before));
                &&& #[trigger] laws::comes_to(
                    refresh::started(world.canonical, name, true),
                    world,
                    end,
                    told,
                    result,
                )
                &&& end == (World { entries: end.entries, ..world })
                &&& end.entry(world.canonical) == left
                &&& forall|other: Seq<char>|
                    other != world.canonical && other != account ==> #[trigger] end.entry(other)
                        == world.entry(other)
                &&& match (outcome, left) {
                    (Err(f), _) => {
                        &&& result == Err::<(), _>(f.error)
                        &&& told.len() == 0
                        &&& end.entry(account) == world.entry(account)
                    },
                    (Ok(_), None) => {
                        &&& result == Err::<(), _>(world.missing.error)
                        &&& told.len() == 0
                        &&& end.entry(account) == world.entry(account)
                    },
                    (Ok(_), Some(bytes)) => {
                        &&& end.entry(account) == if (world.parse)(bytes) matches Ok(fresh)
                            && go_together(fresh, held) {
                            Some(bytes)
                        } else {
                            world.entry(account)
                        }
                        &&& bytes != before ==> result is Ok && told == seq![
                            NoteOf::Line("refreshed `"@ + name + "`"@),
                        ]
                        &&& bytes == before ==> is_verdict(live, name, world.now, told, result)
                    },
                }
            },
{
    law_refresh(world, name, true);
    let run = refreshed(world, name, true);
    profile::law_seconds_left_lead_to_the_expiry(
        OauthCredsOf { email: live.email, expires_at_ms: Some(live.expires_at_ms->0) },
        live.expires_at_ms->0,
        world.now,
    );
    assert(canonical_is_ours(world, held));
    assert(laws::comes_to(
        refresh::started(world.canonical, name, true),
        world,
        run->Over_world,
        run->Over_told,
        run->Over_result,
    ));
}

/// How a staged refresh comes out, told by the entries, the addresses and the instants alone.
/// It is one where the profile is not the active one, or the live credential is missing,
/// cannot be parsed, or carries another address than the profile's. A new credential that can
/// be parsed and does not carry another address than the profile's is kept in the profile,
/// and what was live is live again. One that does is left in place. A token that was left as
/// it was is a failure exactly where its instant of expiry has passed. A run that fails is
/// undone.
pub proof fn law_staged_refresh_comes_out(
    world: World,
    name: Seq<char>,
    active: bool,
    held: OauthCredsOf<Seq<char>>,
)
    requires
        world.on_path,
        world.canonical != keychain::account_of(name),
        world.entries.contains_key(keychain::account_of(name)),
        (world.parse)(world.entries[keychain::account_of(name)]) == Ok::<
            _,
            ErrorOf<Seq<char>>,
        >(held),
        !({
            &&& active
            &&& world.entries.contains_key(world.canonical)
            &&& (world.parse)(world.entries[world.canonical]) matches Ok(live)
            &&& go_together(live, held)
        }),
    ensures
        exists|end: World, told: Seq<NoteOf<Seq<char>>>, result: Result<(), ErrorOf<Seq<char>>>|
            {
                let account = keychain::account_of(name);
                let stale = world.entries[account];
                let live = world.entry(world.canonical);
                let (left, outcome) = (world.status)(Some(stale));
                let warning = if world.running > 0 {
                    seq![
                        NoteOf::Line(
                            "warning: `"@ + tool::command_name()
                                + "` is running; refreshing a background profile briefly swaps the live credential. Quit "@
                                + tool::command_name()
                                + ", or run `cs refresh` for the active profile instead."@,
                        ),
                    ]
                } else {
                    Seq::empty()
                };
                let n = warning.len() as int;
                &&& #[trigger] laws::comes_to(
                    refresh::started(world.canonical, name, active),
                    world,
                    end,
                    told,
                    result,
                )
                &&& end == (World { entries: end.entries, ..world })
                &&& forall|other: Seq<char>|
                    other != world.canonical && other != account ==> #[trigger] end.entry(other)
                        == world.entry(other)
                &&& n <= told.len()
                &&& told.take(n) == warning
                &&& match (outcome, left) {
                    (Err(f), _) => {
                        &&& result == Err::<(), _>(f.error)
                        &&& told.len() == n
                        &&& end.entry(account) == Some(stale)
                        &&& end.entry(world.canonical) == if live is None && left is Some && left
                            != Some(stale) {
                            left
                        } else {
                            live
                        }
                    },
                    (Ok(_), None) => {
                        &&& result == Err::<(), _>(
                            ErrorOf::Keychain(
                                "read refreshed canonical: "@ + world.missing.shown,
                            ),
                        )
                        &&& told.len() == n
                        &&& end.entry(account) == Some(stale)
                        &&& end.entry(world.canonical) == live
                    },
                    (Ok(_), Some(bytes)) => if bytes == stale {
                        &&& is_verdict(held, name, world.now, told.skip(n), result)
                        &&& end.entry(account) == Some(stale)
                        &&& end.entry(world.canonical) == live
                    } else if (world.parse)(bytes) matches Ok(fresh) && go_together(fresh, held) {
                        &&& result is Ok
                        &&& told.skip(n) == seq![NoteOf::Line("refreshed `"@ + name + "`"@)]
                        &&& end.entry(account) == Some(bytes)
                        &&& end.entry(world.canonical) == live
                    } else {
                        &&& result == Err::<(), _>(
                            ErrorOf::Other(
                                "another `"@ + tool::command_name()
                                    + "` session changed the live credential while refreshing `"@
                                    + name + "`; quit "@ + tool::command_name()
                                    + " and retry, or run `cs refresh` for the active profile"@,
                            ),
                        )
                        &&& told.len() == n
                        &&& end.entry(account) == Some(stale)
                        &&& end.entry(world.canonical) == Some(bytes)
                    },
                }
            },
{
    law_refresh(world, name, active);
    let run = refreshed(world, name, active);
    let told = run->Over_told;
    profile::law_seconds_left_lead_to_the_expiry(
        OauthCredsOf { email: held.email, expires_at_ms: Some(held.expires_at_ms->0) },
        held.expires_at_ms->0,
        world.now,
    );
    let n = warned(world).len() as int;
    assert(told.take(n) =~= warned(world));
    assert(run == refreshed_staged(
        world,
        name,
        held,
        world.entries[keychain::account_of(name)],
    ));
    assert(told.skip(n) =~= Seq::empty() || told.skip(n) =~= seq![told[n]]);
    assert(laws::comes_to(
        refresh::started(world.canonical, name, active),
        world,
        run->Over_world,
        run->Over_told,
        run->Over_result,
    ));
}

/// A staged refresh keeps what is not known to be of another account: where the status run
/// succeeds and leaves a new credential that can be parsed, and that credential or the
/// profile's carries no address, or the addresses are equal, the refresh succeeds, the
/// profile holds the new credential, and the canonical entry holds what was live before.
pub proof fn law_addressless_refresh_is_kept(
    world: World,
    name: Seq<char>,
    held: OauthCredsOf<Seq<char>>,
    fresh: OauthCredsOf<Seq<char>>,
    bytes: Seq<u8>,
    end: World,
    told: Seq<NoteOf<Seq<char>>>,
    result: Result<(), ErrorOf<Seq<char>>>,
)
    requires
        world.on_path,
        world.canonical != keychain::account_of(name),
        world.entries.contains_key(keychain::account_of(name)),
        (world.parse)(world.entries[keychain::account_of(name)]) == Ok::<
            _,
            ErrorOf<Seq<char>>,
        >(held),
        (world.status)(Some(world.entries[keychain::account_of(name)])) == (
            Some(bytes),
            Ok::<(), FaultOf<Seq<char>>>(()),
        ),
        bytes != world.entries[keychain::account_of(name)],
        (world.parse)(bytes) == Ok::<_, ErrorOf<Seq<char>>>(fresh),
        fresh.email is None || held.email is None || fresh.email == held.email,
        laws::comes_to(
            refresh::started(world.canonical, name, false),
            world,
            end,
            told,
            result,
        ),
    ensures
        result is Ok,
        end.entry(keychain::account_of(name)) == Some(bytes),
        end.entry(world.canonical) == world.entry(world.canonical),
{
    law_refresh(world, name, false);
    laws::law_end_is_unique(
        laws::begin(refresh::started(world.canonical, name, false), world),
        Run::Over { world: end, told, result },
        refreshed(world, name, false),
    );
}

/// An expired token that the CLI leaves as it was makes for a failure, live or staged: where
/// its instant of expiry is not later than now, the refresh ends with an error.
pub proof fn law_expired_token_left_alone_is_a_failure(
    world: World,
    name: Seq<char>,
    active: bool,
    held: OauthCredsOf<Seq<char>>,
    at: i64,
    end: World,
    told: Seq<NoteOf<Seq<char>>>,
    result: Result<(), ErrorOf<Seq<char>>>,
)
    requires
        world.on_path,
        world.entries.contains_key(keychain::account_of(name)),
        (world.parse)(world.entries[keychain::account_of(name)]) == Ok::<
            _,
            ErrorOf<Seq<char>>,
        >(held),
        active ==> world.entry(world.canonical) == world.entry(keychain::account_of(name)),
        (world.status)(world.entry(keychain::account_of(name))) == (
            world.entry(keychain::account_of(name)),
            Ok::<(), FaultOf<Seq<char>>>(()),
        ),
        held.expires_at_ms == Some(at),
        laws::comes_to(
            refresh::started(world.canonical, name, active),
            world,
            end,
            told,
            result,
        ),
    ensures
        result is Err <==> at <= world.now,
{
    law_refresh(world, name, active);
    laws::law_end_is_unique(
        laws::begin(refresh::started(world.canonical, name, active), world),
        Run::Over { world: end, told, result },
        refreshed(world, name, active),
    );
}

/// A refresh means the profile that is named, and the active one where none is.
pub proof fn law_named_profile_comes_first(name: Seq<char>, active: Option<Seq<char>>)
    ensures
        refresh::meant(Some(name), active) == Some(name),
        refresh::meant(None, active) == active,
{
}

/// A failure that a refresh cannot do without ends it with the error of that failure, and
/// silently: of the lock, of the status run in place, of the read after it, of the copy into
/// the profile, and of the staging write.
pub proof fn law_refresh_ends_with_what_failed(job: refresh::Job, fault: FaultOf<Seq<char>>)
    ensures
        job.at is Locking || job.at is RefreshingInPlace || job.at is Mirroring || job.at
            is Staging ==> job.after(ReplyOf::Done(Err(fault))) == effect::stops::<refresh::Job>(
            fault.error,
        ),
        job.at is ReadingAfter ==> job.after(ReplyOf::Blob(Err(fault))) == effect::stops::<
            refresh::Job,
        >(fault.error),
        job.at matches RefreshAtOf::Persisting { refreshed, live } ==> job.after(
            ReplyOf::Done(Err(fault)),
        ) == effect::waits(
            refresh::RefreshOf {
                at: RefreshAtOf::CheckingRestore {
                    expected: refreshed,
                    live,
                    then: OutcomeOf::Failed { error: fault.error },
                },
                ..job
            },
        ),
{
}

/// Once the canonical entry reads back as the staged refresh left it, or cannot be read, it
/// is put back: what was live is written, and where nothing was live it is deleted.
pub proof fn law_restore_puts_back_what_was_live(job: refresh::Job, reply: Rep)
    requires
        reply is Blob,
        ({
            &&& job.at matches RefreshAtOf::CheckingRestore { expected, live, then }
            &&& reply matches ReplyOf::Blob(Ok(blob)) ==> blob.bytes == expected
        }),
    ensures
        exists|next: refresh::Job|
            {
                &&& job.at matches RefreshAtOf::CheckingRestore { expected, live, then }
                &&& #[trigger] effect::goes_on(job, reply, next)
                &&& next.pending() == match live {
                    Some(bytes) => Act::Write { account: job.canonical, bytes },
                    None => Act::Delete { account: job.canonical },
                }
            },
{
    if let NextOf::Wait { notes, job: next } = job.after(reply) {
        assert(effect::goes_on(job, reply, next));
    }
}

/// Putting the canonical entry back never changes how the refresh comes out; that it failed
/// is told, with the account and the failure.
pub proof fn law_failed_restore_is_told(job: refresh::Job, fault: FaultOf<Seq<char>>)
    ensures
        ({
            let line = NoteOf::Line(
                "error: could not restore canonical keychain entry "@ + job.canonical + ": "@
                    + fault.shown,
            );
            &&& job.at matches RefreshAtOf::RollingBack { live, error } ==> {
                &&& job.after(ReplyOf::Done(Ok(()))) == effect::stops::<refresh::Job>(error)
                &&& job.after(ReplyOf::Done(Err(fault))) == NextOf::<
                    refresh::Job,
                    Seq<char>,
                    Seq<NoteOf<Seq<char>>>,
                >::End { notes: seq![line], result: Err(error) }
            }
            &&& job.at matches RefreshAtOf::Restoring { live, then } ==> match (
                job.after(ReplyOf::Done(Ok(()))),
                job.after(ReplyOf::Done(Err(fault))),
            ) {
                (
                    NextOf::Wait { notes: a, job: x },
                    NextOf::Wait { notes: b, job: y },
                ) => x == y && b == seq![line] + a,
                (
                    NextOf::End { notes: a, result: x },
                    NextOf::End { notes: b, result: y },
                ) => x == y && b == seq![line] + a,
                _ => false,
            }
            &&& job.at is Clearing ==> job.after(ReplyOf::Done(Ok(()))) == job.after(
                ReplyOf::Done(Err(fault)),
            )
        }),
{
    let line = NoteOf::Line(
        "error: could not restore canonical keychain entry "@ + job.canonical + ": "@
            + fault.shown,
    );
    let note = effect::say(refresh::refreshed_line(job.name));
    assert(seq![line] + (Seq::empty() + note) =~= seq![line] + note);
    assert(seq![line] + Seq::empty() =~= seq![line]);
}

/// What a staged refresh comes to is shown as such: success, a verdict still to come, or the
/// failure.
pub proof fn law_restored_refresh_comes_to_its_outcome(job: refresh::Job)
    ensures
        job.at matches RefreshAtOf::Restoring { live, then } ==> match then {
            OutcomeOf::Refreshed => job.after(ReplyOf::Done(Ok(()))) == NextOf::<
                refresh::Job,
                Seq<char>,
                Seq<NoteOf<Seq<char>>>,
            >::End {
                notes: seq![NoteOf::Line("refreshed `"@ + job.name + "`"@)],
                result: Ok(()),
            },
            OutcomeOf::Unchanged { creds } => job.after(ReplyOf::Done(Ok(()))) == effect::waits(
                refresh::RefreshOf { at: RefreshAtOf::CheckingValidity { creds }, ..job },
            ),
            OutcomeOf::Failed { error } => job.after(ReplyOf::Done(Ok(()))) == effect::stops::<
                refresh::Job,
            >(error),
        },
{
    let note = effect::say(refresh::refreshed_line(job.name));
    assert(effect::quiet() + note =~= note);
}

/// A refresh remarks on a credential that is not known to go together with the profile's, on
/// what another process wrote, and on a canonical entry that could not be put back; on
/// nothing else.
pub proof fn law_refresh_remarks_on_what_is_amiss(
    job: refresh::Job,
    blob: BlobOf<Seq<char>, Seq<u8>>,
    fault: FaultOf<Seq<char>>,
)
    ensures
        job.at matches RefreshAtOf::ReadingAfter { creds, before } ==> job.noticed(
            ReplyOf::Blob(Ok(blob)),
        ) == if blob.creds matches Ok(found) && go_together(found, creds) {
            None
        } else {
            Some(RemarkOf::NotMirrored { profile: job.name })
        },
        job.at matches RefreshAtOf::ReadingRefreshed { stale, creds, live } ==> job.noticed(
            ReplyOf::Blob(Ok(blob)),
        ) == if blob.bytes == stale || (blob.creds matches Ok(found) && go_together(
            found,
            creds,
        )) {
            None
        } else {
            Some(RemarkOf::Overtaken { profile: job.name })
        },
        job.at matches RefreshAtOf::CheckingRestore { expected, live, then } ==> job.noticed(
            ReplyOf::Blob(Ok(blob)),
        ) == if blob.bytes == expected {
            None
        } else {
            Some(RemarkOf::<Seq<char>>::Overwritten)
        },
        job.at is Clearing ==> job.noticed(ReplyOf::Done(Err(fault))) == Some(
            RemarkOf::NotCleared { shown: fault.shown },
        ),
        job.at is Restoring || job.at is RollingBack ==> job.noticed(ReplyOf::Done(Err(fault)))
            == Some(RemarkOf::NotRestored { account: job.canonical, shown: fault.shown }),
        job.noticed(ReplyOf::Done(Ok(()))) is None,
{
}

/// Whatever the replies, a refresh keeps to what it was started for.
pub proof fn law_refresh_keeps_to_its_purpose(job: refresh::Job, replies: Seq<Rep>)
    ensures
        laws::heard(job, replies) matches Some(then) ==> then.canonical == job.canonical
            && then.name == job.name && then.active == job.active,
    decreases replies.len(),
{
    if replies.len() > 0 {
        if let NextOf::Wait { notes, job: then } = job.after(replies[0]) {
            law_refresh_keeps_to_its_purpose(then, replies.skip(1));
        }
    }
}

/// Whatever the replies, a staged credential is renewed only right after the canonical entry
/// has read back as just that credential.
pub proof fn law_only_what_was_staged_is_renewed(
    job: refresh::Job,
    next: refresh::Job,
    reply: Rep,
)
    requires
        effect::goes_on(job, reply, next),
        next.at is RefreshingStaged,
        job.at !is RefreshingStaged,
    ensures
        job.pending() == (Act::Read { account: job.canonical }),
        ({
            &&& job.at matches RefreshAtOf::CheckingStage { stale, creds, live }
            &&& reply matches ReplyOf::Blob(Ok(blob))
            &&& blob.bytes == stale
            &&& next.at == (RefreshAtOf::RefreshingStaged { stale, creds, live })
        }),
        next.pending() is RunStatus,
{
}

/// A refresh makes sure that what it keeps held: it writes the profile's entry only by a
/// verified write, and every other write and delete is of the canonical entry.
pub proof fn law_refresh_verifies_what_it_keeps(job: refresh::Job)
    ensures
        job.pending() matches Act::Write { account, bytes } ==> account == job.canonical,
        job.pending() matches Act::Delete { account } ==> account == job.canonical,
        job.at matches RefreshAtOf::Mirroring { after, fresh, changed } ==> job.pending()
            == (Act::WriteVerified { account: keychain::account_of(job.name), bytes: after }),
        job.at matches RefreshAtOf::Persisting { refreshed, live } ==> job.pending()
            == (Act::WriteVerified { account: keychain::account_of(job.name), bytes: refreshed }),
        job.pending() is WriteVerified ==> job.at is Mirroring || job.at is Persisting,
{
}

} // verus!
