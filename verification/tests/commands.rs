//! Whole commands, run in a world held in memory.

use std::collections::{HashMap, HashSet};

use claude_switch::cli::{GlobalOpts, OptionalNameArg, RenameArgs, SaveArgs};
use claude_switch::commands::process::{run_claude_status, PollOf, WatchOf};
use claude_switch::commands::refresh::{self, Refresh};
use claude_switch::commands::rename::{self, Rename};
use claude_switch::commands::save::{self, Save};
use claude_switch::commands::switch::{self, Switch};
use claude_switch::effect::{
    is_answer, Action, ActionOf, BlobOf, Fault, FaultOf, Next, NextOf, Note, NoteOf, Reply,
    ReplyOf,
};
use claude_switch::error::{Error, ErrorOf};
use claude_switch::profile::{OauthCreds, OauthCredsOf};
use claude_switch::remark::{Level, Remark, RemarkOf};
use claude_switch::state::{State, StateOf};

const USER: &str = "test-user";
const NOW_MS: i64 = 1_700_000_000_000;

/// The command of the CLI: what this package switches.
fn cli() -> &'static str {
    "claude_switch".split_once('_').unwrap().0
}

/// The CLI's name in running text.
fn brand() -> String {
    format!("C{}", &cli()[1..])
}

/// The account of a profile.
fn acct(name: &str) -> String {
    format!("{} Code-credentials-{name}", brand())
}

/// What every command has in common.
trait Job: Sized {
    fn next_action(&self) -> Action;
    fn go_on(self, reply: Reply) -> Next<Self>;
    fn remark_on(&self, _reply: &Reply) -> Option<Remark> {
        None
    }
}

impl Job for Switch {
    fn next_action(&self) -> Action {
        self.pending()
    }
    fn remark_on(&self, reply: &Reply) -> Option<Remark> {
        self.remark(reply)
    }
    fn go_on(self, reply: Reply) -> Next<Self> {
        self.after(reply)
    }
}

impl Job for Refresh {
    fn next_action(&self) -> Action {
        self.pending()
    }
    fn remark_on(&self, reply: &Reply) -> Option<Remark> {
        self.remark(reply)
    }
    fn go_on(self, reply: Reply) -> Next<Self> {
        self.after(reply)
    }
}

impl Job for Rename {
    fn next_action(&self) -> Action {
        self.pending()
    }
    fn go_on(self, reply: Reply) -> Next<Self> {
        self.after(reply)
    }
}

impl Job for Save {
    fn next_action(&self) -> Action {
        self.pending()
    }
    fn go_on(self, reply: Reply) -> Next<Self> {
        self.after(reply)
    }
}

type Keychain = HashMap<String, String>;

/// What the status run does to the keychain, and how it ends.
type Status = Box<dyn Fn(&mut Keychain) -> Result<(), Error>>;

struct World {
    entries: Keychain,
    state: Option<State>,
    settings: Option<Vec<u8>>,
    kept: HashMap<String, Vec<u8>>,
    dirs: HashSet<String>,
    links: Option<String>,
    marker: Option<String>,
    running: u64,
    on_path: bool,
    status: Status,
    /// Actions that fail, by how they are logged.
    refused: HashSet<String>,
    /// Accounts whose entry takes something else than what is written.
    garbled: HashSet<String>,
    log: Vec<String>,
    told: Vec<String>,
    remarks: Vec<Remark>,
}

fn world(entries: &[(&str, &str)]) -> World {
    World {
        entries: entries.iter().map(|(a, b)| (a.to_string(), b.to_string())).collect(),
        state: None,
        settings: None,
        kept: HashMap::new(),
        dirs: HashSet::new(),
        links: None,
        marker: None,
        running: 0,
        on_path: true,
        status: Box::new(|_| Ok(())),
        refused: HashSet::new(),
        garbled: HashSet::new(),
        log: Vec::new(),
        told: Vec::new(),
        remarks: Vec::new(),
    }
}

fn fake_oauth(email: &str, expires_in_secs: i64) -> String {
    fake_oauth_tagged(email, expires_in_secs, email)
}

fn fake_oauth_tagged(email: &str, expires_in_secs: i64, tag: &str) -> String {
    let exp = NOW_MS + expires_in_secs * 1000;
    format!(
        "{{\"claudeAiOauth\":{{\"accessToken\":\"tok-{tag}\",\"refreshToken\":\"ref-{tag}\",\
         \"expiresAt\":{exp},\"scopes\":[\"user:profile\"],\"subscriptionType\":\"max\",\
         \"email\":\"{email}\"}}}}"
    )
}

fn fake_oauth_no_email(expires_in_secs: i64, tag: &str) -> String {
    let exp = NOW_MS + expires_in_secs * 1000;
    format!(
        "{{\"claudeAiOauth\":{{\"accessToken\":\"tok-{tag}\",\"refreshToken\":\"ref-{tag}\",\
         \"expiresAt\":{exp},\"scopes\":[\"user:profile\"],\"subscriptionType\":\"max\"}}}}"
    )
}

/// Enough of a parser for the blobs above.
fn parse(text: &str) -> Result<OauthCreds, Error> {
    if !text.starts_with("{\"claudeAiOauth\":") {
        return Err(ErrorOf::Other("not an OAuth blob".to_string()));
    }
    let after = |key: &str| text.split_once(key).map(|(_, rest)| rest);
    Ok(OauthCredsOf {
        email: after("\"email\":\"").map(|r| r.split('"').next().unwrap().to_string()),
        expires_at_ms: after("\"expiresAt\":").map(|r| {
            r.split(',').next().unwrap().parse().unwrap()
        }),
    })
}

fn fault(message: &str) -> Fault {
    FaultOf {
        error: ErrorOf::Keychain(message.to_string()),
        shown: format!("keychain: {message}"),
    }
}

fn text(bytes: Vec<u8>) -> String {
    String::from_utf8(bytes).unwrap()
}

/// An account as the log shows it.
fn entry_name(account: &str) -> String {
    match account.strip_prefix(&acct("")) {
        Some(name) => format!("profile {name}"),
        None => account.to_string(),
    }
}

fn named(action: &Action) -> String {
    match action {
        ActionOf::Lock => "lock".to_string(),
        ActionOf::EnsureHome => "ensure home".to_string(),
        ActionOf::Read { account } => format!("read {}", entry_name(account)),
        ActionOf::Write { account, .. } => format!("write {}", entry_name(account)),
        ActionOf::WriteVerified { account, .. } => format!("write verified {}", entry_name(account)),
        ActionOf::Delete { account } => format!("delete {}", entry_name(account)),
        ActionOf::LoadState => "load state".to_string(),
        ActionOf::SaveState { .. } => "save state".to_string(),
        ActionOf::ReadSettings => "read settings".to_string(),
        ActionOf::WriteSettings { .. } => "write settings".to_string(),
        ActionOf::HasSettings { profile } => format!("has settings {profile}"),
        ActionOf::InstallSettings { profile } => format!("install settings {profile}"),
        ActionOf::StoreSettings { profile, .. } => format!("store settings {profile}"),
        ActionOf::HasDir { profile } => format!("has dir {profile}"),
        ActionOf::MoveDir { from, to } => format!("move dir {from} {to}"),
        ActionOf::RetargetLinks { profile } => format!("retarget links {profile}"),
        ActionOf::MarkActive { profile } => format!("mark active {profile}"),
        ActionOf::Clock => "clock".to_string(),
        ActionOf::CountClaude => "count running".to_string(),
        ActionOf::FindClaude => "find cli".to_string(),
        ActionOf::RunStatus => "run status".to_string(),
        ActionOf::Exec { args } => format!("exec {}", args.join(" ")),
    }
}

impl World {
    fn write(&mut self, account: String, bytes: Vec<u8>) -> Result<(), Fault> {
        if self.garbled.contains(&account) {
            self.entries.insert(account, "garbled".to_string());
        } else {
            self.entries.insert(account, text(bytes));
        }
        Ok(())
    }

    fn perform(&mut self, action: Action) -> Reply {
        let refused = self.refused.contains(&named(&action));
        if refused {
            match action {
                ActionOf::Read { .. } => return ReplyOf::Blob(Err(fault("refused"))),
                _ => return ReplyOf::Done(Err(fault("refused"))),
            }
        }
        match action {
            ActionOf::Lock | ActionOf::EnsureHome => ReplyOf::Done(Ok(())),
            ActionOf::Read { account } => ReplyOf::Blob(match self.entries.get(&account) {
                Some(entry) => {
                    Ok(BlobOf { bytes: entry.clone().into_bytes(), creds: parse(entry) })
                }
                None => Err(fault("no such entry")),
            }),
            ActionOf::Write { account, bytes } => ReplyOf::Done(self.write(account, bytes)),
            ActionOf::WriteVerified { account, bytes } => {
                let garbled = self.garbled.contains(&account);
                let _ = self.write(account, bytes);
                ReplyOf::Done(if garbled { Err(fault("did not hold")) } else { Ok(()) })
            }
            ActionOf::Delete { account } => ReplyOf::Done(match self.entries.remove(&account) {
                Some(_) => Ok(()),
                None => Err(fault("no such entry")),
            }),
            ActionOf::LoadState => ReplyOf::State(self.state.as_ref().map(State::copy)),
            ActionOf::SaveState { state } => {
                self.state = Some(state);
                ReplyOf::Done(Ok(()))
            }
            ActionOf::ReadSettings => ReplyOf::Bytes(self.settings.clone()),
            ActionOf::WriteSettings { bytes } => {
                self.settings = Some(bytes);
                ReplyOf::Done(Ok(()))
            }
            ActionOf::HasSettings { profile } => ReplyOf::Flag(self.kept.contains_key(&profile)),
            ActionOf::InstallSettings { profile } => {
                self.settings = Some(self.kept[&profile].clone());
                ReplyOf::Done(Ok(()))
            }
            ActionOf::StoreSettings { profile, bytes } => {
                self.dirs.insert(profile.clone());
                self.kept.insert(profile, bytes);
                ReplyOf::Done(Ok(()))
            }
            ActionOf::HasDir { profile } => ReplyOf::Flag(self.dirs.contains(&profile)),
            ActionOf::MoveDir { from, to } => {
                self.dirs.remove(&from);
                self.dirs.insert(to.clone());
                if let Some(kept) = self.kept.remove(&from) {
                    self.kept.insert(to, kept);
                }
                ReplyOf::Done(Ok(()))
            }
            ActionOf::RetargetLinks { profile } => {
                self.links = Some(profile);
                ReplyOf::Done(Ok(()))
            }
            ActionOf::MarkActive { profile } => {
                self.marker = Some(profile);
                ReplyOf::Done(Ok(()))
            }
            ActionOf::Clock => ReplyOf::Now(NOW_MS),
            ActionOf::CountClaude => ReplyOf::Count(self.running),
            ActionOf::FindClaude => ReplyOf::Flag(self.on_path),
            ActionOf::RunStatus => ReplyOf::Done(
                (self.status)(&mut self.entries)
                    .map_err(|error| FaultOf { error, shown: "status".to_string() }),
            ),
            ActionOf::Exec { .. } => ReplyOf::ExecFailed("no such file".to_string()),
        }
    }

    fn tell(&mut self, notes: Vec<Note>) {
        for note in notes {
            self.told.push(match note {
                NoteOf::Line(line) => line,
                NoteOf::StillValid { name, secs } => format!("{name} still valid: {secs}"),
            });
        }
    }

    fn drive<J: Job>(&mut self, mut job: J) -> Result<(), Error> {
        self.log.clear();
        self.told.clear();
        self.remarks.clear();
        loop {
            let action = job.next_action();
            self.log.push(named(&action));
            let reply = self.perform(job.next_action());
            assert!(is_answer(&action, &reply));
            self.remarks.extend(job.remark_on(&reply));
            match job.go_on(reply) {
                NextOf::Wait { notes, job: next } => {
                    self.tell(notes);
                    job = next;
                }
                NextOf::End { notes, result } => {
                    self.tell(notes);
                    return result;
                }
            }
        }
    }

    fn switch(&mut self, name: &str) -> Result<(), Error> {
        self.switch_with(name, &[], false)
    }

    fn switch_with(&mut self, name: &str, args: &[&str], json: bool) -> Result<(), Error> {
        let args = args.iter().map(|a| a.to_string()).collect();
        let job = switch::run(USER.to_string(), &GlobalOpts { json }, name, args)?;
        self.drive(job)
    }

    fn switch_previous(&mut self) -> Result<(), Error> {
        let loaded = self.state.as_ref().map(State::copy);
        let job =
            switch::run_previous(USER.to_string(), &GlobalOpts { json: false }, loaded, vec![])?;
        self.drive(job)
    }

    fn save(&mut self, name: &str) -> Result<(), Error> {
        let job = save::run(USER.to_string(), &SaveArgs { name: name.to_string() })?;
        self.drive(job)
    }

    fn rename(&mut self, from: &str, to: &str) -> Result<(), Error> {
        let job = rename::run(&RenameArgs { from: from.to_string(), to: to.to_string() })?;
        self.drive(job)
    }

    fn refresh(&mut self, name: Option<&str>) -> Result<(), Error> {
        let loaded = self.state.as_ref().map(State::copy);
        let args = OptionalNameArg { name: name.map(str::to_string) };
        let job = refresh::run(USER.to_string(), loaded, &args)?;
        self.drive(job)
    }

    fn active(&self) -> Option<&str> {
        self.state.as_ref().and_then(|s| s.active.as_deref())
    }

    fn previous(&self) -> Option<&str> {
        self.state.as_ref().and_then(|s| s.previous.as_deref())
    }

    fn entry(&self, account: &str) -> Option<&str> {
        self.entries.get(account).map(String::as_str)
    }

    fn profile(&self, name: &str) -> Option<&str> {
        self.entry(&acct(name))
    }

    fn set(&mut self, account: &str, blob: &str) {
        self.entries.insert(account.to_string(), blob.to_string());
    }
}

fn active(name: &str) -> Option<State> {
    Some(StateOf { active: Some(name.to_string()), previous: None, default: None, master: None })
}

/// A status run that rotates a token wherever it finds it.
fn rotating(from: &str, to: &str) -> Status {
    let (from, to) = (from.to_string(), to.to_string());
    Box::new(move |entries| {
        for entry in entries.values_mut() {
            *entry = entry.replace(&from, &to);
        }
        Ok(())
    })
}

fn other(message: &str) -> Error {
    ErrorOf::Other(message.to_string())
}

#[test]
fn unknown_name_errors_with_not_found() {
    let mut w = world(&[]);
    assert_eq!(
        w.switch("does-not-exist-yet"),
        Err(ErrorOf::ProfileNotFound("does-not-exist-yet".to_string()))
    );
}

#[test]
fn save_round_trip() {
    let canonical_blob = fake_oauth("primary@example.com", 3600);
    let mut w = world(&[(USER, &canonical_blob)]);
    w.settings = Some(b"{\"theme\":\"dark\"}\n".to_vec());

    assert_eq!(w.save("personal"), Ok(()));

    let entry = w.profile("personal").unwrap();
    assert!(entry.contains("primary@example.com"));
    assert_eq!(w.kept["personal"], b"{\"theme\":\"dark\"}\n");
}

#[test]
fn save_overwrites_existing() {
    let first_blob = fake_oauth("primary@example.com", 3600);
    let mut w = world(&[(USER, &first_blob)]);
    assert_eq!(w.save("personal"), Ok(()));
    assert!(w.told[0].contains("saved profile"));

    // Replace the canonical entry with a different account, then re-save the same profile name.
    let second_blob = fake_oauth("rotated@example.com", 7200);
    let mut w =
        world(&[(USER, &second_blob), (&acct("personal"), &first_blob)]);
    assert_eq!(w.save("personal"), Ok(()));
    assert!(w.told[0].contains("overwrote profile"));

    let entry = w.profile("personal").unwrap();
    assert!(entry.contains("rotated@example.com"));
    assert!(!entry.contains("primary@example.com"));
}

#[test]
fn switch_changes_canonical_and_state() {
    let work_blob = fake_oauth("work@example.com", 3600);
    let personal_blob = fake_oauth("personal@example.com", 3600);
    let mut w = world(&[
        (USER, &work_blob),
        (&acct("personal"), &personal_blob),
        (&acct("work"), &work_blob),
    ]);

    assert_eq!(w.switch("personal"), Ok(()));

    assert_eq!(w.active(), Some("personal"));
    assert_eq!(w.entry(USER), w.profile("personal"));
    assert_eq!(w.entry(USER), Some(personal_blob.as_str()));
}

#[test]
fn switch_previous_toggles() {
    let work_blob = fake_oauth("work@example.com", 3600);
    let personal_blob = fake_oauth("personal@example.com", 3600);
    let mut w = world(&[
        (USER, &work_blob),
        (&acct("personal"), &personal_blob),
        (&acct("work"), &work_blob),
    ]);

    assert_eq!(w.switch("personal"), Ok(()));
    assert_eq!(w.switch("work"), Ok(()));
    assert_eq!(w.switch_previous(), Ok(()));

    assert_eq!(w.active(), Some("personal"));
    assert_eq!(w.previous(), Some("work"));
}

#[test]
fn switch_away_preserves_rotated_canonical_token() {
    let a_v0 = fake_oauth_tagged("a@example.com", 3600, "a-v0");
    let b_blob = fake_oauth_tagged("b@example.com", 3600, "b-v0");
    let mut w = world(&[
        (USER, &a_v0),
        (&acct("a"), &a_v0),
        (&acct("b"), &b_blob),
    ]);

    // Establish `a` as active (nothing was active, so nothing to flush yet).
    assert_eq!(w.switch("a"), Ok(()));

    // The CLI rotates the canonical access+refresh token in place while `a` runs.
    let a_v1 = fake_oauth_tagged("a@example.com", 7200, "a-v1");
    w.set(USER, &a_v1);

    // Switch away to `b`: the outgoing `a` snapshot must capture the rotated token.
    assert_eq!(w.switch("b"), Ok(()));
    assert_eq!(w.profile("a"), Some(a_v1.as_str()));
    assert_eq!(w.entry(USER), Some(b_blob.as_str()));
}

#[test]
fn reselect_active_does_not_downgrade_canonical() {
    let v0 = fake_oauth_tagged("a@example.com", 3600, "a-v0");
    let mut w = world(&[(USER, &v0), (&acct("a"), &v0)]);
    assert_eq!(w.switch("a"), Ok(()));

    let v1 = fake_oauth_tagged("a@example.com", 7200, "a-v1");
    w.set(USER, &v1);
    assert_eq!(w.switch("a"), Ok(()));

    assert_eq!(w.entry(USER), Some(v1.as_str()));
    assert_eq!(w.profile("a"), Some(v1.as_str()));
}

#[test]
fn switch_away_skips_sync_when_canonical_is_a_different_account() {
    let a_v0 = fake_oauth_tagged("a@example.com", 3600, "a-v0");
    let b_blob = fake_oauth_tagged("b@example.com", 3600, "b-v0");
    let mut w = world(&[
        (USER, &a_v0),
        (&acct("a"), &a_v0),
        (&acct("b"), &b_blob),
    ]);
    assert_eq!(w.switch("a"), Ok(()));

    // A *different* account is now in canonical (a direct login, no `cs save`).
    let foreign = fake_oauth_tagged("zzz@example.com", 3600, "z-v0");
    w.set(USER, &foreign);
    assert_eq!(w.switch("b"), Ok(()));

    assert_eq!(w.profile("a"), Some(a_v0.as_str()));
}

#[test]
fn switch_away_preserves_rotated_token_for_emailless_blobs() {
    let a_v0 = fake_oauth_no_email(3600, "a-v0");
    let b_blob = fake_oauth_no_email(3600, "b-v0");
    let mut w = world(&[
        (USER, &a_v0),
        (&acct("a"), &a_v0),
        (&acct("b"), &b_blob),
    ]);
    assert_eq!(w.switch("a"), Ok(()));

    let a_v1 = fake_oauth_no_email(7200, "a-v1");
    w.set(USER, &a_v1);
    assert_eq!(w.switch("b"), Ok(()));

    assert_eq!(w.profile("a"), Some(a_v1.as_str()));
}

#[test]
fn refresh_active_refreshes_canonical_in_place_and_mirrors_snapshot() {
    let canon0 = fake_oauth_tagged("a@example.com", 3600, "canon0");
    let snap0 = fake_oauth_tagged("a@example.com", 3600, "snap0");
    let mut w = world(&[(USER, &canon0), (&acct("a"), &snap0)]);
    w.state = active("a");
    w.status = rotating("canon0", "canon1");

    assert_eq!(w.refresh(Some("a")), Ok(()));
    assert_eq!(w.told, ["refreshed `a`"]);

    let canon1 = canon0.replace("canon0", "canon1");
    // Live session keeps the refreshed token (NOT rolled back to canon0).
    assert_eq!(w.entry(USER), Some(canon1.as_str()));
    // Snapshot mirrors the refreshed canonical.
    assert_eq!(w.profile("a"), Some(canon1.as_str()));
}

#[test]
fn refresh_active_unchanged_updates_stale_snapshot_without_login_prompt() {
    let canonical_fresh = fake_oauth("a@example.com", 3600);
    let snap_expired = fake_oauth("a@example.com", -3600);
    let mut w = world(&[(USER, &canonical_fresh), (&acct("a"), &snap_expired)]);
    w.state = active("a");

    assert_eq!(w.refresh(Some("a")), Ok(()));
    assert_eq!(w.told, ["a still valid: 3600"]);

    assert_eq!(w.profile("a"), Some(canonical_fresh.as_str()));
}

#[test]
fn refresh_background_profile_persists_and_restores_canonical() {
    let active_z = fake_oauth_tagged("z@example.com", 3600, "canonZ");
    let w0 = fake_oauth_tagged("w@example.com", 3600, "snap0");
    let mut w = world(&[
        (USER, &active_z),
        (&acct("z"), &active_z),
        (&acct("w"), &w0),
    ]);
    w.state = active("z");
    w.status = rotating("snap0", "snap1");

    assert_eq!(w.refresh(Some("w")), Ok(()));
    assert_eq!(w.told, ["refreshed `w`"]);

    let w1 = w0.replace("snap0", "snap1");
    // Background profile got refreshed...
    assert_eq!(w.profile("w"), Some(w1.as_str()));
    // ...and the live canonical was restored to the active account (not left as w).
    assert_eq!(w.entry(USER), Some(active_z.as_str()));
}

#[test]
fn rename_preserves_active_pointer() {
    let work_blob = fake_oauth("work@example.com", 3600);
    let mut w = world(&[(USER, &work_blob), (&acct("work"), &work_blob)]);
    assert_eq!(w.switch("work"), Ok(()));
    assert_eq!(w.rename("work", "office"), Ok(()));
    assert_eq!(w.active(), Some("office"));
}

#[test]
fn rename_master_profile_updates_state_and_symlinks() {
    let blob = fake_oauth("personal@example.com", 3600);
    let mut w = world(&[(USER, &blob)]);
    w.settings = Some(b"{}".to_vec());
    assert_eq!(w.save("personal"), Ok(()));
    w.state = Some(StateOf {
        active: None,
        previous: None,
        default: None,
        master: Some("personal".to_string()),
    });
    w.links = Some("personal".to_string());

    assert_eq!(w.rename("personal", "personal2"), Ok(()));

    assert_eq!(w.state.as_ref().unwrap().master.as_deref(), Some("personal2"));
    assert_eq!(w.links.as_deref(), Some("personal2"));
    assert!(w.dirs.contains("personal2"));
    assert!(!w.dirs.contains("personal"));
}

#[test]
fn save_rejects_path_traversal_name() {
    let blob = fake_oauth("primary@example.com", 3600);
    let mut w = world(&[(USER, &blob)]);
    assert_eq!(
        w.save("foo/bar"),
        Err(ErrorOf::InvalidArgument("invalid profile name `foo/bar`".to_string()))
    );
}

#[test]
fn rename_rejects_path_traversal_from() {
    let blob = fake_oauth("primary@example.com", 3600);
    let mut w = world(&[(USER, &blob)]);
    assert_eq!(
        w.rename("../evil", "ok"),
        Err(ErrorOf::InvalidArgument("invalid profile name `../evil`".to_string()))
    );
}

#[test]
fn save_rejects_dotfile_name() {
    let blob = fake_oauth("primary@example.com", 3600);
    let mut w = world(&[(USER, &blob)]);
    assert_eq!(
        w.save(".dotfile"),
        Err(ErrorOf::InvalidArgument("invalid profile name `.dotfile`".to_string()))
    );
}

#[test]
fn refresh_kills_claude_after_timeout() {
    let blob = fake_oauth("work@example.com", 3600);
    let mut w = world(&[(USER, &blob), (&acct("work"), &blob)]);
    w.status = Box::new(|_| {
        let mut elapsed_ns: u128 = 0;
        loop {
            match run_claude_status(PollOf::Running { elapsed_ns }) {
                WatchOf::Sleep(ms) => elapsed_ns += ms as u128 * 1_000_000,
                WatchOf::Kill(error) => {
                    assert!(elapsed_ns < 70_000_000_000);
                    return Err(error);
                }
                WatchOf::Finish(result) => return result,
            }
        }
    });
    assert_eq!(
        w.refresh(Some("work")),
        Err(ErrorOf::Subprocess {
            cmd: format!("{} /status", cli()),
            message: "timed out after 60s".to_string()
        })
    );
    assert_eq!(w.entry(USER), Some(blob.as_str()));
}

#[test]
fn a_switch_goes_through_its_stages_in_order() {
    let a = fake_oauth_tagged("a@example.com", 3600, "v0");
    let live = fake_oauth_tagged("a@example.com", 3600, "v1");
    let b = fake_oauth("b@example.com", 3600);
    let mut w = world(&[
        (USER, &live),
        (&acct("a"), &a),
        (&acct("b"), &b),
    ]);
    w.state = active("a");
    w.kept.insert("b".to_string(), b"for b".to_vec());
    w.settings = Some(b"for a".to_vec());
    w.running = 2;
    assert_eq!(
        w.switch_with("b", &["--resume", "x"], false),
        Err(ErrorOf::Subprocess {
            cmd: cli().to_string(),
            message: "no such file".to_string()
        })
    );
    assert_eq!(
        w.log,
        [
            "lock",
            "ensure home",
            "read test-user",
            "load state",
            "read profile a",
            "write profile a",
            "read profile a",
            "read profile b",
            "read settings",
            "clock",
            "write test-user",
            "read test-user",
            "has settings b",
            "install settings b",
            "save state",
            "mark active b",
            "count running",
            "exec --resume x",
        ]
    );
    assert_eq!(
        w.told,
        [
            format!("switched -> b ({})", cli()),
            format!(
                "note: detected running `{}` process(es); restart them to pick up the new account",
                cli()
            ),
        ]
    );
    assert_eq!(w.settings.as_deref(), Some(&b"for b"[..]));
    assert_eq!(w.marker.as_deref(), Some("b"));
    assert_eq!((w.active(), w.previous()), (Some("b"), Some("a")));
}

#[test]
fn a_token_near_expiry_is_announced() {
    let soon = fake_oauth("a@example.com", 60);
    let later = fake_oauth("b@example.com", 61);
    let mut w =
        world(&[(&acct("a"), &soon), (&acct("b"), &later)]);
    assert_eq!(w.switch_with("a", &[], true), Ok(()));
    assert_eq!(
        w.told,
        [format!(
            "warning: target {} profile `a` token is near expiry; consider `cs refresh a` first",
            brand()
        )]
    );
    assert_eq!(w.switch_with("b", &[], true), Ok(()));
    assert!(w.told.is_empty());
}

#[test]
fn a_switch_under_the_callers_lock_takes_none() {
    let blob = fake_oauth("a@example.com", 3600);
    let mut w = world(&[(&acct("a"), &blob)]);
    let job = switch::run_locked(USER.to_string(), &GlobalOpts { json: false }, "a");
    assert_eq!(w.drive(job), Ok(()));
    assert_eq!(w.log[0], "read test-user");
    assert_eq!(w.entry(USER), Some(blob.as_str()));
}

#[test]
fn there_may_be_no_previous_profile() {
    let mut w = world(&[]);
    assert_eq!(w.switch_previous(), Err(ErrorOf::NoPreviousProfile));
    w.state = active("a");
    assert_eq!(w.switch_previous(), Err(ErrorOf::NoPreviousProfile));
}

#[test]
fn a_switch_refuses_an_invalid_name() {
    let mut w = world(&[]);
    assert_eq!(
        w.switch("../x"),
        Err(ErrorOf::InvalidArgument("invalid profile name `../x`".to_string()))
    );
    assert!(w.log.is_empty());
}

#[test]
fn an_unparseable_target_is_an_error() {
    let live = fake_oauth("a@example.com", 3600);
    let mut w = world(&[(USER, &live), (&acct("b"), "garbage")]);
    assert_eq!(w.switch("b"), Err(other("not an OAuth blob")));
    assert_eq!(w.entry(USER), Some(live.as_str()));
    assert_eq!(w.active(), None);
}

#[test]
fn an_unverified_switch_is_rolled_back() {
    let live = fake_oauth("a@example.com", 3600);
    let b = fake_oauth("b@example.com", 3600);
    let mut w = world(&[(USER, &live), (&acct("b"), &b)]);
    w.garbled.insert(USER.to_string());
    assert_eq!(
        w.switch("b"),
        Err(other("canonical Keychain write verification failed; rolled back to previous"))
    );
    assert_eq!(w.log[w.log.len() - 3..], ["write test-user", "read test-user", "write test-user"]);
    assert!(w.state.is_none());
}

#[test]
fn a_failed_rollback_is_reported() {
    let live = fake_oauth("a@example.com", 3600);
    let job = switch::Switch {
        canonical: USER.to_string(),
        target: "b".to_string(),
        json: false,
        args: vec![],
        at: switch::SwitchAtOf::RollingBack {
            live: live.into_bytes(),
            settings: None,
            error: other("why"),
        },
    };
    let mut w = world(&[]);
    w.refused.insert("write test-user".to_string());
    assert_eq!(w.drive(job), Err(other("why")));
    assert_eq!(w.told, ["error: keychain rollback failed for test-user: keychain: refused"]);
    assert_eq!(
        w.remarks,
        [RemarkOf::RollbackFailed {
            account: USER.to_string(),
            shown: "keychain: refused".to_string()
        }]
    );
}

#[test]
fn settings_that_cannot_be_installed_undo_the_switch() {
    let live = fake_oauth("a@example.com", 3600);
    let b = fake_oauth("b@example.com", 3600);
    let mut w = world(&[(USER, &live), (&acct("b"), &b)]);
    w.kept.insert("b".to_string(), b"for b".to_vec());
    w.settings = Some(b"for a".to_vec());
    w.refused.insert("install settings b".to_string());
    assert_eq!(w.switch("b"), Err(ErrorOf::Keychain("refused".to_string())));
    assert_eq!(w.entry(USER), Some(live.as_str()));
    assert_eq!(w.settings.as_deref(), Some(&b"for a"[..]));
    assert_eq!(
        w.log[w.log.len() - 3..],
        ["install settings b", "write test-user", "write settings"]
    );
    assert!(w.state.is_none());
}

#[test]
fn a_switch_undoes_only_what_there_was() {
    let b = fake_oauth("b@example.com", 3600);
    // Nothing was live: an unverified switch just fails.
    let mut w = world(&[(&acct("b"), &b)]);
    w.garbled.insert(USER.to_string());
    assert_eq!(
        w.switch("b"),
        Err(other("canonical Keychain write verification failed; rolled back to previous"))
    );
    assert_eq!(w.log[w.log.len() - 2..], ["write test-user", "read test-user"]);
    // Neither a credential nor settings were live.
    let mut w = world(&[(&acct("b"), &b)]);
    w.kept.insert("b".to_string(), b"for b".to_vec());
    w.refused.insert("install settings b".to_string());
    assert_eq!(w.switch("b"), Err(ErrorOf::Keychain("refused".to_string())));
    assert_eq!(w.log.last().unwrap(), "install settings b");
    // Only settings were live.
    w.entries.remove(USER);
    w.settings = Some(b"for a".to_vec());
    assert_eq!(w.switch("b"), Err(ErrorOf::Keychain("refused".to_string())));
    assert_eq!(w.log[w.log.len() - 2..], ["install settings b", "write settings"]);
    // Only a credential was live.
    w.settings = None;
    assert_eq!(w.switch("b"), Err(ErrorOf::Keychain("refused".to_string())));
    assert_eq!(w.log[w.log.len() - 2..], ["install settings b", "write test-user"]);
}

#[test]
fn failures_end_a_switch_where_they_happen() {
    let b = fake_oauth("b@example.com", 3600);
    for step in ["lock", "ensure home", "write test-user", "save state"] {
        let mut w = world(&[(&acct("b"), &b)]);
        w.refused.insert(step.to_string());
        assert_eq!(w.switch("b"), Err(ErrorOf::Keychain("refused".to_string())));
        assert_eq!(w.log.last().unwrap(), step);
    }
    // A marker that cannot be written is no failure.
    let mut w = world(&[(&acct("b"), &b)]);
    w.refused.insert("mark active b".to_string());
    assert_eq!(w.switch("b"), Ok(()));
}

#[test]
fn a_sync_that_fails_does_not_stop_the_switch() {
    let a = fake_oauth_tagged("a@example.com", 3600, "v0");
    let live = fake_oauth_tagged("a@example.com", 3600, "v1");
    let b = fake_oauth("b@example.com", 3600);
    for step in ["write profile a", "read profile a"] {
        let mut w = world(&[
            (USER, &live),
            (&acct("a"), &a),
            (&acct("b"), &b),
        ]);
        w.state = active("a");
        w.refused.insert(step.to_string());
        assert_eq!(w.switch("b"), Ok(()));
        assert_eq!(w.profile("a"), Some(a.as_str()));
        assert_eq!(w.entry(USER), Some(b.as_str()));
    }
}

#[test]
fn switching_back_restores_the_live_credential() {
    let a_v0 = fake_oauth_tagged("a@example.com", 3600, "v0");
    let a_v1 = fake_oauth_tagged("a@example.com", 3600, "v1");
    let b = fake_oauth("b@example.com", 3600);
    let mut w = world(&[
        (USER, &a_v1),
        (&acct("a"), &a_v0),
        (&acct("b"), &b),
        (&acct("c"), &b),
    ]);
    w.state = active("a");
    assert_eq!(w.switch("b"), Ok(()));
    assert_eq!(w.switch_previous(), Ok(()));
    assert_eq!(w.entry(USER), Some(a_v1.as_str()));
    assert_eq!(w.profile("a"), Some(a_v1.as_str()));
    assert_eq!(w.profile("c"), Some(b.as_str()));
    assert_eq!((w.active(), w.previous()), (Some("a"), Some("b")));
}

#[test]
fn switching_brings_back_what_was_saved() {
    let a = fake_oauth("a@example.com", 3600);
    let b = fake_oauth("b@example.com", 3600);
    let mut w = world(&[(USER, &a)]);
    w.settings = Some(b"for a".to_vec());
    assert_eq!(w.save("a"), Ok(()));
    w.set(USER, &b);
    w.settings = Some(b"for b".to_vec());
    assert_eq!(w.switch("a"), Ok(()));
    assert_eq!(w.entry(USER), Some(a.as_str()));
    assert_eq!(w.settings.as_deref(), Some(&b"for a"[..]));
}

#[test]
fn a_save_needs_a_live_credential() {
    let mut w = world(&[]);
    assert_eq!(
        w.save("a"),
        Err(other(&format!(
            "no active {} credential to save (run `{} /login` first)",
            brand(),
            cli()
        )))
    );
    let mut w = world(&[(USER, "garbage")]);
    assert_eq!(w.save("a"), Err(other("not an OAuth blob")));
    assert_eq!(w.profile("a"), None);
}

#[test]
fn a_save_goes_through_its_stages_in_order() {
    let blob = fake_oauth("a@example.com", 3600);
    let mut w = world(&[(USER, &blob)]);
    w.settings = Some(b"{}".to_vec());
    assert_eq!(w.save("a"), Ok(()));
    assert_eq!(
        w.log,
        [
            "lock",
            "read test-user",
            "read profile a",
            "read settings",
            "write verified profile a",
            "store settings a",
        ]
    );
    assert_eq!(w.told, [format!("saved profile `a` for {}", cli())]);
    w.settings = None;
    assert_eq!(w.save("a"), Ok(()));
    assert_eq!(w.told, [format!("overwrote profile `a` with current {} credentials", cli())]);
    assert_eq!(w.log.last().unwrap(), "write verified profile a");
    for step in ["lock", "write verified profile a", "store settings a"] {
        let mut w = world(&[(USER, &blob)]);
        w.settings = Some(b"{}".to_vec());
        w.refused.insert(step.to_string());
        assert_eq!(w.save("a"), Err(ErrorOf::Keychain("refused".to_string())));
        assert_eq!(w.log.last().unwrap(), step);
        assert!(w.told.is_empty());
    }
}

#[test]
fn a_rename_needs_two_names_and_one_profile() {
    let blob = fake_oauth("a@example.com", 3600);
    let mut w = world(&[(&acct("a"), &blob)]);
    assert_eq!(
        w.rename("a", "a"),
        Err(ErrorOf::InvalidArgument("source and target are the same".to_string()))
    );
    assert_eq!(
        w.rename("a", "b/c"),
        Err(ErrorOf::InvalidArgument("invalid profile name `b/c`".to_string()))
    );
    assert_eq!(w.rename("x", "b"), Err(ErrorOf::ProfileNotFound("x".to_string())));
    w.set(&acct("b"), &blob);
    assert_eq!(w.rename("a", "b"), Err(ErrorOf::ProfileExists("b".to_string())));
    assert_eq!(w.profile("a"), Some(blob.as_str()));
    // A directory alone is a profile too.
    w.dirs.insert("c".to_string());
    assert_eq!(w.rename("c", "d"), Ok(()));
    assert!(w.dirs.contains("d"));
    w.dirs.insert("e".to_string());
    assert_eq!(w.rename("e", "d"), Err(ErrorOf::ProfileExists("d".to_string())));
}

#[test]
fn a_rename_goes_through_its_stages_in_order() {
    let blob = fake_oauth("a@example.com", 3600);
    let mut w = world(&[(&acct("a"), &blob)]);
    w.dirs.insert("a".to_string());
    w.kept.insert("a".to_string(), b"{}".to_vec());
    w.state = Some(StateOf {
        active: Some("z".to_string()),
        previous: Some("a".to_string()),
        default: Some("a".to_string()),
        master: Some("a".to_string()),
    });
    assert_eq!(w.rename("a", "b"), Ok(()));
    assert_eq!(
        w.log,
        [
            "lock",
            "read profile a",
            "has dir a",
            "read profile b",
            "has dir b",
            "load state",
            "write verified profile b",
            "delete profile a",
            "move dir a b",
            "retarget links b",
            "save state",
        ]
    );
    assert_eq!(w.told, ["renamed `a` -> `b`"]);
    assert_eq!(w.profile("a"), None);
    assert_eq!(w.profile("b"), Some(blob.as_str()));
    assert_eq!(w.kept["b"], b"{}");
    assert_eq!(
        w.state,
        Some(StateOf {
            active: Some("z".to_string()),
            previous: Some("b".to_string()),
            default: Some("b".to_string()),
            master: Some("b".to_string()),
        })
    );
}

#[test]
fn renaming_back_restores_everything() {
    let blob = fake_oauth("a@example.com", 3600);
    let mut w = world(&[(&acct("a"), &blob)]);
    w.dirs.insert("a".to_string());
    w.kept.insert("a".to_string(), b"{}".to_vec());
    w.links = Some("a".to_string());
    let state = || {
        Some(StateOf {
            active: Some("a".to_string()),
            previous: Some("z".to_string()),
            default: None,
            master: Some("a".to_string()),
        })
    };
    w.state = state();
    let (entries, dirs, kept) = (w.entries.clone(), w.dirs.clone(), w.kept.clone());
    assert_eq!(w.rename("a", "b"), Ok(()));
    assert_ne!(w.entries, entries);
    assert_eq!(w.rename("b", "a"), Ok(()));
    assert_eq!((&w.entries, &w.dirs, &w.kept), (&entries, &dirs, &kept));
    assert_eq!(w.links.as_deref(), Some("a"));
    assert_eq!(w.state, state());
}

#[test]
fn failures_end_a_rename_where_they_happen() {
    let blob = fake_oauth("a@example.com", 3600);
    for step in [
        "lock",
        "write verified profile b",
        "delete profile a",
        "move dir a b",
        "retarget links b",
        "save state",
    ] {
        let mut w = world(&[(&acct("a"), &blob)]);
        w.dirs.insert("a".to_string());
        w.state = Some(StateOf {
            active: None,
            previous: None,
            default: None,
            master: Some("a".to_string()),
        });
        w.refused.insert(step.to_string());
        assert_eq!(w.rename("a", "b"), Err(ErrorOf::Keychain("refused".to_string())));
        assert_eq!(w.log.last().unwrap(), step);
        assert!(w.profile("a").is_some() || w.profile("b") == Some(blob.as_str()));
    }
}

#[test]
fn nothing_happens_before_the_lock() {
    let blob = fake_oauth("a@example.com", 3600);
    let mut w = world(&[(USER, &blob), (&acct("a"), &blob)]);
    w.refused.insert("lock".to_string());
    let refused: Result<(), Error> = Err(ErrorOf::Keychain("refused".to_string()));
    assert_eq!(w.switch("a"), refused);
    assert_eq!(w.log, ["lock"]);
    assert_eq!(w.save("a"), refused);
    assert_eq!(w.log, ["lock"]);
    assert_eq!(w.rename("a", "b"), refused);
    assert_eq!(w.log, ["lock"]);
    assert_eq!(w.refresh(Some("a")), refused);
    assert_eq!(w.log, ["read profile a", "find cli", "lock"]);
}

#[test]
fn a_live_credential_that_expired_is_not_refreshed_by_a_fresh_copy() {
    let expired = fake_oauth("a@example.com", -1);
    let fresh = fake_oauth("a@example.com", 3600);
    let mut w = world(&[(USER, &expired), (&acct("a"), &fresh)]);
    w.state = active("a");
    assert_eq!(
        w.refresh(Some("a")),
        Err(other(&format!(
            "{} Code did not refresh `a`; run `{} /login` for this profile manually",
            brand(),
            cli()
        )))
    );
    assert_eq!(w.profile("a"), Some(expired.as_str()));
}

#[test]
fn a_foreign_credential_after_a_refresh_in_place_is_not_mirrored() {
    let a = fake_oauth("a@example.com", 3600);
    let foreign = fake_oauth("z@example.com", 3600);
    let mut w = world(&[(USER, &a), (&acct("a"), &a)]);
    w.state = active("a");
    let written = foreign.clone();
    w.status = Box::new(move |entries| {
        entries.insert(USER.to_string(), written.clone());
        Ok(())
    });
    assert_eq!(w.refresh(Some("a")), Ok(()));
    assert_eq!(w.told, ["refreshed `a`"]);
    assert_eq!(w.entry(USER), Some(foreign.as_str()));
    assert_eq!(w.profile("a"), Some(a.as_str()));
    assert_eq!(w.remarks, [RemarkOf::NotMirrored { profile: "a".to_string() }]);
}

#[test]
fn a_rename_that_concerns_no_pointer_saves_no_state() {
    let blob = fake_oauth("a@example.com", 3600);
    let mut w = world(&[(&acct("a"), &blob)]);
    w.state = active("z");
    assert_eq!(w.rename("a", "b"), Ok(()));
    assert!(!w.log.contains(&"save state".to_string()));
    assert_eq!(w.state, active("z"));
}

#[test]
fn a_refresh_needs_a_profile_and_claude() {
    let blob = fake_oauth("a@example.com", 3600);
    let mut w = world(&[(&acct("a"), &blob)]);
    assert_eq!(w.refresh(None), Err(ErrorOf::NoActiveProfile));
    assert_eq!(w.refresh(Some("x")), Err(ErrorOf::ProfileNotFound("x".to_string())));
    w.on_path = false;
    assert_eq!(
        w.refresh(Some("a")),
        Err(other(&format!(
            "`{0}` CLI not on PATH; run `{0} /login` for this profile manually",
            cli()
        )))
    );
    assert_eq!(w.log, ["read profile a", "find cli"]);
    w.set(&acct("a"), "garbage");
    assert_eq!(w.refresh(Some("a")), Err(other("not an OAuth blob")));
}

#[test]
fn a_refresh_without_a_name_means_the_active_profile() {
    let blob = fake_oauth_tagged("a@example.com", 3600, "v0");
    let mut w = world(&[(USER, &blob), (&acct("a"), &blob)]);
    w.state = active("a");
    w.status = rotating("v0", "v1");
    assert_eq!(w.refresh(None), Ok(()));
    assert_eq!(
        w.log,
        [
            "read profile a",
            "find cli",
            "lock",
            "read test-user",
            "read test-user",
            "run status",
            "read test-user",
            "write verified profile a",
        ]
    );
}

#[test]
fn a_failed_status_run_leaves_the_active_session_alone() {
    let blob = fake_oauth("a@example.com", 3600);
    let mut w = world(&[(USER, &blob), (&acct("a"), &blob)]);
    w.state = active("a");
    w.status = Box::new(|_| Err(ErrorOf::Other("status failed".to_string())));
    assert_eq!(w.refresh(Some("a")), Err(other("status failed")));
    assert_eq!(w.entry(USER), Some(blob.as_str()));
    assert_eq!(w.log.last().unwrap(), "run status");
}

#[test]
fn an_active_profile_with_a_foreign_login_is_staged() {
    let foreign = fake_oauth("z@example.com", 3600);
    let a = fake_oauth_tagged("a@example.com", 3600, "v0");
    let mut w = world(&[(USER, &foreign), (&acct("a"), &a)]);
    w.state = active("a");
    w.running = 1;
    w.status = rotating("v0", "v1");
    assert_eq!(w.refresh(Some("a")), Ok(()));
    assert_eq!(
        w.log,
        [
            "read profile a",
            "find cli",
            "lock",
            "read test-user",
            "read test-user",
            "count running",
            "write test-user",
            "read test-user",
            "run status",
            "read test-user",
            "write verified profile a",
            "read test-user",
            "write test-user",
        ]
    );
    assert_eq!(
        w.told,
        [
            format!(
                "warning: `{0}` is running; refreshing a background profile briefly swaps the live \
                 credential. Quit {0}, or run `cs refresh` for the active profile instead.",
                cli()
            ),
            "refreshed `a`".to_string(),
        ]
    );
    assert_eq!(w.entry(USER), Some(foreign.as_str()));
    assert_eq!(w.profile("a"), Some(a.replace("v0", "v1").as_str()));
}

#[test]
fn a_background_refresh_logs_nobody_in() {
    let a = fake_oauth_tagged("a@example.com", 3600, "v0");
    let mut w = world(&[(&acct("a"), &a)]);
    w.status = rotating("v0", "v1");
    assert_eq!(w.refresh(Some("a")), Ok(()));
    assert_eq!(w.entry(USER), None);
    assert_eq!(w.log.last().unwrap(), "delete test-user");
    assert_eq!(w.profile("a"), Some(a.replace("v0", "v1").as_str()));
}

#[test]
fn a_failed_background_refresh_logs_nobody_in() {
    let a = fake_oauth_tagged("a@example.com", 3600, "v0");
    // The run fails and leaves the staged credential.
    let mut w = world(&[(&acct("a"), &a)]);
    w.status = Box::new(|_| Err(ErrorOf::Other("status failed".to_string())));
    assert_eq!(w.refresh(Some("a")), Err(other("status failed")));
    assert_eq!(w.entry(USER), None);
    assert_eq!(w.profile("a"), Some(a.as_str()));
    assert_eq!(w.log[w.log.len() - 3..], ["run status", "read test-user", "delete test-user"]);
    // The run deletes it and succeeds.
    w.status = Box::new(|entries| {
        entries.remove(USER);
        Ok(())
    });
    assert_eq!(
        w.refresh(Some("a")),
        Err(ErrorOf::Keychain("read refreshed canonical: keychain: no such entry".to_string()))
    );
    assert_eq!(w.entry(USER), None);
    assert_eq!(
        w.remarks,
        [RemarkOf::NotCleared { shown: "keychain: no such entry".to_string() }]
    );
}

#[test]
fn a_staging_that_did_not_hold_leaves_the_entry_alone() {
    let a = fake_oauth("a@example.com", 3600);
    let mut w = world(&[(&acct("a"), &a)]);
    w.garbled.insert(USER.to_string());
    assert_eq!(
        w.refresh(Some("a")),
        Err(other("canonical Keychain staging write failed; rolled back to previous"))
    );
    assert_eq!(w.entry(USER), Some("garbled"));
    assert_eq!(w.log[w.log.len() - 3..], ["write test-user", "read test-user", "read test-user"]);
    assert_eq!(w.remarks, [RemarkOf::Overwritten]);
}

#[test]
fn a_staging_that_cannot_be_read_is_cleared() {
    let a = fake_oauth("a@example.com", 3600);
    let mut w = world(&[(&acct("a"), &a)]);
    w.refused.insert("read test-user".to_string());
    assert_eq!(
        w.refresh(Some("a")),
        Err(other("canonical Keychain staging write failed; rolled back to previous"))
    );
    assert_eq!(w.entry(USER), None);
}

#[test]
fn a_login_made_during_a_failed_background_refresh_stays() {
    let a = fake_oauth("a@example.com", 3600);
    for login in [
        fake_oauth("z@example.com", 3600),
        fake_oauth_no_email(3600, "z"),
        fake_oauth_tagged("a@example.com", 3600, "newer"),
        "garbage".to_string(),
    ] {
        let mut w = world(&[(&acct("a"), &a)]);
        let written = login.clone();
        w.status = Box::new(move |entries| {
            entries.insert(USER.to_string(), written.clone());
            Err(ErrorOf::Other("status failed".to_string()))
        });
        assert_eq!(w.refresh(Some("a")), Err(other("status failed")));
        assert_eq!(w.entry(USER), Some(login.as_str()));
        assert_eq!(w.remarks, [RemarkOf::Overwritten]);
    }
}

#[test]
fn a_switch_remarks_on_its_sync() {
    let held = fake_oauth_tagged("a@example.com", 3600, "v0");
    let b = fake_oauth("b@example.com", 3600);
    let profile = || "a".to_string();
    let refused = "keychain: refused".to_string();
    let same = fake_oauth_tagged("a@example.com", 3600, "v1");
    let foreign = fake_oauth("z@example.com", 3600);
    let cases: [(&str, &str, &str, Vec<Remark>); 6] = [
        (&held, "", "", vec![]),
        (&same, "", "", vec![RemarkOf::Synced { profile: profile() }]),
        (&foreign, "", "", vec![RemarkOf::NotSynced { profile: profile() }]),
        ("garbage", "", "", vec![RemarkOf::NotSynced { profile: profile() }]),
        (
            &same,
            "write profile a",
            "",
            vec![RemarkOf::SyncFailed { profile: profile(), shown: refused }],
        ),
        (&same, "", "a", vec![RemarkOf::SyncLost { profile: profile() }]),
    ];
    for (live, refuse, garble, remarks) in cases {
        let mut w = world(&[(USER, live), (&acct("a"), &held), (&acct("b"), &b)]);
        w.state = active("a");
        w.refused.insert(refuse.to_string());
        w.garbled.insert(acct(garble));
        assert_eq!(w.switch("b"), Ok(()));
        assert_eq!(w.remarks, remarks);
        assert_eq!(w.entry(USER), Some(b.as_str()));
        // Two entries at most are written, that of the profile once.
        assert!(w.log.iter().filter(|l| *l == "write profile a").count() <= 1);
        assert!(w.log.iter().all(|l| !l.starts_with("write profile") || l.ends_with(" a")));
    }
}

#[test]
fn remarks_have_words_and_levels() {
    let profile = || "a".to_string();
    let shown = || "why".to_string();
    let account = || USER.to_string();
    let all: [(Remark, Level, &str); 10] = [
        (
            RemarkOf::NotSynced { profile: profile() },
            Level::Warn,
            "canonical credential is a different account than the saved profile; not syncing",
        ),
        (
            RemarkOf::SyncFailed { profile: profile(), shown: shown() },
            Level::Warn,
            "failed to sync rotated token into profile",
        ),
        (
            RemarkOf::Synced { profile: profile() },
            Level::Info,
            "synced rotated canonical token into outgoing profile",
        ),
        (
            RemarkOf::SyncLost { profile: profile() },
            Level::Warn,
            "sync read-back mismatch; profile snapshot may still be stale",
        ),
        (
            RemarkOf::RollbackFailed { account: account(), shown: shown() },
            Level::Error,
            "keychain rollback failed",
        ),
        (
            RemarkOf::NotMirrored { profile: profile() },
            Level::Warn,
            "refreshed canonical identity differs from profile snapshot; left snapshot untouched",
        ),
        (
            RemarkOf::Overtaken { profile: profile() },
            Level::Warn,
            "canonical changed accounts during refresh; leaving the live credential in place",
        ),
        (
            RemarkOf::Overwritten,
            Level::Warn,
            "canonical was updated by another process during staged refresh; leaving it in place",
        ),
        (
            RemarkOf::NotCleared { shown: shown() },
            Level::Warn,
            "failed to clear canonical after background refresh",
        ),
        (
            RemarkOf::NotRestored { account: account(), shown: shown() },
            Level::Error,
            "canonical keychain restore failed",
        ),
    ];
    for (remark, level, words) in all {
        assert_eq!((remark.level(), remark.message()), (level, words));
    }
}

#[test]
fn a_background_refresh_of_a_valid_token_changes_nothing() {
    let live = fake_oauth("z@example.com", 3600);
    let a = fake_oauth("a@example.com", 120);
    let mut w = world(&[(USER, &live), (&acct("a"), &a)]);
    assert_eq!(w.refresh(Some("a")), Ok(()));
    assert_eq!(w.told, ["a still valid: 120"]);
    assert_eq!(w.entry(USER), Some(live.as_str()));
    assert_eq!(w.profile("a"), Some(a.as_str()));
    // An expired one is a failure, and the session is restored all the same.
    let expired = fake_oauth("a@example.com", 0);
    w.set(&acct("a"), &expired);
    assert_eq!(
        w.refresh(Some("a")),
        Err(other(&format!(
            "{} Code did not refresh `a`; run `{} /login` for this profile manually",
            brand(),
            cli()
        )))
    );
    assert_eq!(w.entry(USER), Some(live.as_str()));
}

#[test]
fn a_session_that_overtakes_a_staged_refresh_wins() {
    let live = fake_oauth_tagged("z@example.com", 3600, "z0");
    let a = fake_oauth("a@example.com", 3600);
    let newer = fake_oauth_tagged("z@example.com", 7200, "z1");
    let mut w = world(&[(USER, &live), (&acct("a"), &a)]);
    let written = newer.clone();
    w.status = Box::new(move |entries| {
        entries.insert(USER.to_string(), written.clone());
        Ok(())
    });
    assert_eq!(
        w.refresh(Some("a")),
        Err(other(&format!(
            "another `{0}` session changed the live credential while refreshing `a`; quit {0} and \
             retry, or run `cs refresh` for the active profile",
            cli()
        )))
    );
    assert_eq!(w.entry(USER), Some(newer.as_str()));
    assert_eq!(w.profile("a"), Some(a.as_str()));
    assert_eq!(w.remarks, [RemarkOf::Overtaken { profile: "a".to_string() }]);
}

#[test]
fn a_failed_staged_run_restores_the_session() {
    let live = fake_oauth("z@example.com", 3600);
    let a = fake_oauth("a@example.com", 3600);
    let mut w = world(&[(USER, &live), (&acct("a"), &a)]);
    w.status = Box::new(|_| Err(ErrorOf::Other("status failed".to_string())));
    assert_eq!(w.refresh(Some("a")), Err(other("status failed")));
    assert_eq!(w.entry(USER), Some(live.as_str()));
    // A canonical entry that the CLI deleted is restored too.
    w.status = Box::new(|entries| {
        entries.remove(USER);
        Ok(())
    });
    assert_eq!(
        w.refresh(Some("a")),
        Err(ErrorOf::Keychain(
            "read refreshed canonical: keychain: no such entry".to_string()
        ))
    );
    assert_eq!(w.entry(USER), Some(live.as_str()));
}

#[test]
fn a_failed_staging_is_rolled_back() {
    let live = fake_oauth("z@example.com", 3600);
    let a = fake_oauth("a@example.com", 3600);
    let mut w = world(&[(USER, &live), (&acct("a"), &a)]);
    w.garbled.insert(USER.to_string());
    assert_eq!(
        w.refresh(Some("a")),
        Err(other("canonical Keychain staging write failed; rolled back to previous"))
    );
    assert_eq!(w.log[w.log.len() - 3..], ["write test-user", "read test-user", "write test-user"]);
    assert!(!w.log.contains(&"run status".to_string()));
}

#[test]
fn a_credential_that_cannot_be_kept_still_restores_the_session() {
    let live = fake_oauth("z@example.com", 3600);
    let a = fake_oauth_tagged("a@example.com", 3600, "v0");
    let mut w = world(&[(USER, &live), (&acct("a"), &a)]);
    w.status = rotating("v0", "v1");
    w.refused.insert("write verified profile a".to_string());
    assert_eq!(w.refresh(Some("a")), Err(ErrorOf::Keychain("refused".to_string())));
    assert_eq!(w.entry(USER), Some(live.as_str()));
}

#[test]
fn a_session_that_cannot_be_restored_is_reported() {
    let live = fake_oauth("z@example.com", 3600);
    let job = refresh::Refresh {
        canonical: USER.to_string(),
        name: "a".to_string(),
        active: false,
        at: refresh::RefreshAtOf::Restoring {
            live: live.into_bytes(),
            then: refresh::OutcomeOf::Refreshed,
        },
    };
    let mut w = world(&[]);
    w.refused.insert("write test-user".to_string());
    assert_eq!(w.drive(job), Ok(()));
    assert_eq!(
        w.told,
        [
            "error: could not restore canonical keychain entry test-user: keychain: refused",
            "refreshed `a`",
        ]
    );
    assert_eq!(
        w.remarks,
        [RemarkOf::NotRestored {
            account: USER.to_string(),
            shown: "keychain: refused".to_string()
        }]
    );
}

#[test]
fn a_concurrent_write_after_a_staged_refresh_is_left_in_place() {
    let newer = fake_oauth("z@example.com", 7200);
    let job = refresh::Refresh {
        canonical: USER.to_string(),
        name: "a".to_string(),
        active: false,
        at: refresh::RefreshAtOf::CheckingRestore {
            expected: b"what was left".to_vec(),
            live: Some(b"what was live".to_vec()),
            then: refresh::OutcomeOf::Refreshed,
        },
    };
    let mut w = world(&[(USER, &newer)]);
    assert_eq!(w.drive(job), Ok(()));
    assert_eq!(w.log, ["read test-user"]);
    assert_eq!(w.entry(USER), Some(newer.as_str()));
    assert_eq!(w.remarks, [RemarkOf::Overwritten]);
}

#[test]
fn an_active_profile_without_a_live_credential_is_an_error() {
    let a = fake_oauth("a@example.com", 3600);
    let job = refresh::Refresh {
        canonical: USER.to_string(),
        name: "a".to_string(),
        active: true,
        at: refresh::RefreshAtOf::ReadingBefore { creds: parse(&a).unwrap() },
    };
    let mut w = world(&[]);
    assert_eq!(
        w.drive(job),
        Err(other(&format!(
            "no active {} credential in the Keychain; run `{} /login`",
            brand(),
            cli()
        )))
    );
}

#[test]
fn a_reply_to_another_action_leaves_a_job_waiting() {
    let job = switch::run_locked(USER.to_string(), &GlobalOpts { json: false }, "a");
    let action = job.pending();
    match job.after(ReplyOf::Flag(true)) {
        NextOf::Wait { notes, job } => {
            assert!(notes.is_empty());
            assert_eq!(job.pending(), action);
        }
        NextOf::End { .. } => panic!("the switch ended"),
    }
}
