//! The small decisions that the commands are made of.

use claude_switch::cli::{DoctorArgs, GlobalOpts};
use claude_switch::commands::process::{
    run_claude_status, running_claude_processes, status_failure, PollOf, WatchOf,
    POLL_INTERVAL_MS, REFRESH_TIMEOUT_NS,
};
use claude_switch::commands::doctor;
use claude_switch::commands::refresh;
use claude_switch::commands::switch;
use claude_switch::effect;
use claude_switch::effect::{ActionOf, Blob, BlobOf, FaultOf, NoteOf, ReplyOf};
use claude_switch::error::{Error, ErrorOf};
use claude_switch::keychain;
use claude_switch::paths::validate_profile_name;
use claude_switch::profile::{is_cross_account, OauthCreds, OauthCredsOf};
use claude_switch::state::{State, StateOf};
use claude_switch::text;

/// The command of the CLI: what this package switches.
fn cli() -> &'static str {
    "claude_switch".split_once('_').unwrap().0
}

/// The CLI's name in running text.
fn brand() -> String {
    format!("C{}", &cli()[1..])
}

fn creds(email: Option<&str>, expires_at_ms: Option<i64>) -> OauthCreds {
    OauthCredsOf { email: email.map(str::to_string), expires_at_ms }
}

fn blob(bytes: &str, email: Option<&str>) -> Blob {
    BlobOf { bytes: bytes.as_bytes().to_vec(), creds: Ok(creds(email, None)) }
}

fn state(active: Option<&str>, previous: Option<&str>) -> State {
    StateOf {
        active: active.map(str::to_string),
        previous: previous.map(str::to_string),
        default: Some("home".to_string()),
        master: None,
    }
}

#[test]
fn names_are_visible_path_components() {
    for name in ["work", "a", "my profile", "x.y", "\u{e9}t\u{e9}", ":"] {
        assert_eq!(validate_profile_name(name), Ok(()));
    }
    for name in ["", ".", "..", ".hidden", "a/b", "/", "../x", "a/"] {
        assert_eq!(
            validate_profile_name(name),
            Err(ErrorOf::InvalidArgument(format!("invalid profile name `{name}`")))
        );
    }
}

#[test]
fn every_profile_has_an_account_of_its_own() {
    assert_eq!(keychain::profile_account("work"), format!("{} Code-credentials-work", brand()));
    assert_ne!(keychain::profile_account("work"), keychain::profile_account("play"));
}

#[test]
fn a_write_holds_if_it_reads_back() {
    let written = b"abc".to_vec();
    let failed: Result<(), Error> =
        Err(ErrorOf::Keychain("write verification failed for acct".to_string()));
    assert_eq!(keychain::verify_write("acct", &written, &Some(b"abc".to_vec())), Ok(()));
    assert_eq!(keychain::verify_write("acct", &written, &Some(b"abd".to_vec())), failed);
    assert_eq!(keychain::verify_write("acct", &written, &Some(b"ab".to_vec())), failed);
    assert_eq!(keychain::verify_write("acct", &written, &None), failed);
}

#[test]
fn only_two_known_addresses_prove_two_accounts() {
    let a = Some("a@example.com".to_string());
    let b = Some("b@example.com".to_string());
    assert!(is_cross_account(&a, &b));
    assert!(!is_cross_account(&a, &a));
    assert!(!is_cross_account(&a, &None));
    assert!(!is_cross_account(&None, &b));
    assert!(!is_cross_account(&None, &None));
}

#[test]
fn expiry_counts_from_now() {
    let c = creds(None, Some(100_000));
    assert!(!c.is_expired(0, 99_999));
    assert!(c.is_expired(0, 100_000));
    assert!(!c.is_expired(60, 39_999));
    assert!(c.is_expired(60, 40_000));
    assert!(c.is_expired(u64::MAX, i64::MIN));
    assert!(!creds(None, None).is_expired(u64::MAX, i64::MAX));
    assert_eq!(c.expires_in(0), Some(100));
    assert_eq!(c.expires_in(98_001), Some(1));
    assert_eq!(c.expires_in(99_999), Some(0));
    assert_eq!(c.expires_in(100_000), None);
    assert_eq!(creds(None, None).expires_in(0), None);
    assert_eq!(creds(None, Some(i64::MAX)).expires_in(i64::MIN), Some(18_446_744_073_709_551));
}

#[test]
fn an_unchanged_token_is_valid_or_a_failure() {
    assert_eq!(
        refresh::unchanged_result(&creds(None, Some(61_000)), "w", 1_000),
        Ok(NoteOf::StillValid { name: "w".to_string(), secs: 60 })
    );
    assert_eq!(
        refresh::unchanged_result(&creds(None, None), "w", 1_000),
        Ok(NoteOf::Line("`w` token still valid; nothing to refresh".to_string()))
    );
    assert_eq!(
        refresh::unchanged_result(&creds(None, Some(1_000)), "w", 1_000),
        Err(ErrorOf::Other(format!(
            "{} Code did not refresh `w`; run `{} /login` for this profile manually",
            brand(),
            cli()
        )))
    );
    assert_eq!(
        effect::still_valid_line("w", "1h"),
        "`w` token still valid for 1h; nothing to refresh"
    );
}

#[test]
fn switching_moves_the_pointers() {
    assert_eq!(
        state(Some("a"), Some("z")).switch_to(&"b".to_string()),
        state(Some("b"), Some("a"))
    );
    assert_eq!(
        state(Some("a"), Some("z")).switch_to(&"a".to_string()),
        state(Some("a"), Some("z"))
    );
    assert_eq!(
        State::loaded(None).switch_to(&"a".to_string()),
        StateOf { active: Some("a".to_string()), previous: None, default: None, master: None }
    );
    assert_eq!(State::loaded(Some(state(None, None))), state(None, None));
}

#[test]
fn switching_back_toggles() {
    let there = state(Some("a"), None).switch_to(&"b".to_string());
    assert_eq!(there.switch_to(&"a".to_string()), state(Some("a"), Some("b")));
}

#[test]
fn renaming_moves_every_pointer() {
    let all = |name: &str| StateOf {
        active: Some(name.to_string()),
        previous: Some(name.to_string()),
        default: Some(name.to_string()),
        master: Some(name.to_string()),
    };
    let (from, to) = ("from".to_string(), "to".to_string());
    assert!(all("from").names(&from));
    assert!(!all("other").names(&from));
    assert_eq!(all("from").rename(&from, &to), all("to"));
    assert_eq!(all("from").rename(&from, &to).rename(&to, &from), all("from"));
    assert_eq!(all("other").rename(&from, &to), all("other"));
    assert_eq!(all("x").copy(), all("x"));
}

#[test]
fn a_sync_needs_the_same_account_and_another_token() {
    let held = blob("v0", Some("a@example.com"));
    assert!(switch::sync_canonical_to_profile(&held, &blob("v1", Some("a@example.com"))));
    assert!(switch::sync_canonical_to_profile(&held, &blob("v1", None)));
    assert!(!switch::sync_canonical_to_profile(&held, &blob("v0", Some("a@example.com"))));
    assert!(!switch::sync_canonical_to_profile(&held, &blob("v1", Some("b@example.com"))));
    let garbage = BlobOf {
        bytes: b"v1".to_vec(),
        creds: Err(ErrorOf::Other("no credentials".to_string())),
    };
    assert!(!switch::sync_canonical_to_profile(&held, &garbage));
    assert!(!switch::sync_canonical_to_profile(&garbage, &held));
}

#[test]
fn a_profile_is_its_parsed_entry() {
    let name = "w".to_string();
    assert_eq!(
        switch::read_target_claude(&name, Ok(blob("v0", None))),
        Ok((b"v0".to_vec(), creds(None, None)))
    );
    let garbage = BlobOf { bytes: b"v1".to_vec(), creds: Err(ErrorOf::Config("bad".to_string())) };
    assert_eq!(
        switch::read_target_claude(&name, Ok(garbage)),
        Err(ErrorOf::Config("bad".to_string()))
    );
    let fault = FaultOf { error: ErrorOf::Keychain("gone".to_string()), shown: "gone".to_string() };
    assert_eq!(
        switch::read_target_claude(&name, Err(fault)),
        Err(ErrorOf::ProfileNotFound("w".to_string()))
    );
}

#[test]
fn lines_with_something_on_them_are_processes() {
    let count = |out: &str| running_claude_processes(Some(out.as_bytes().to_vec()));
    assert_eq!(count("12\n345\n"), 2);
    assert_eq!(count("12\n345"), 2);
    assert_eq!(count("12\n\n\n345\n\n"), 2);
    assert_eq!(count("12\r\n\r\n345\r\n"), 2);
    assert_eq!(count(""), 0);
    assert_eq!(count("\n"), 0);
    assert_eq!(count("\r\n"), 0);
    assert_eq!(count("\r"), 1);
    assert_eq!(running_claude_processes(None), 0);
    for out in ["12\n345\n", "\r\n\r\r\n\n", "a\r\nb\n\rc\r", "\n\r\n\n"] {
        assert_eq!(count(out), out.lines().filter(|l| !l.is_empty()).count() as u64);
    }
}

#[test]
fn the_status_run_is_watched() {
    let exited = |success: bool, code: Option<i32>| PollOf::Exited {
        success,
        code,
        stderr: "oh no".to_string(),
    };
    assert_eq!(run_claude_status(exited(true, Some(0))), WatchOf::Finish(Ok(())));
    assert_eq!(
        run_claude_status(exited(false, Some(101))),
        WatchOf::Finish(Err(status_failure("exit 101: oh no".to_string())))
    );
    assert_eq!(
        run_claude_status(exited(false, None)),
        WatchOf::Finish(Err(status_failure("exit -1: oh no".to_string())))
    );
    assert_eq!(
        run_claude_status(PollOf::Running { elapsed_ns: REFRESH_TIMEOUT_NS }),
        WatchOf::Sleep(POLL_INTERVAL_MS)
    );
    assert_eq!(
        run_claude_status(PollOf::Running { elapsed_ns: REFRESH_TIMEOUT_NS + 1 }),
        WatchOf::Kill(status_failure("timed out after 60s".to_string()))
    );
    assert_eq!(
        run_claude_status(PollOf::Failed { shown: "lost".to_string() }),
        WatchOf::Kill(ErrorOf::Subprocess {
            cmd: format!("{} /status", cli()),
            message: "lost".to_string()
        })
    );
}

#[test]
fn watching_stops_at_the_timeout() {
    let mut elapsed_ns: u128 = 0;
    let mut sleeps = 0;
    while let WatchOf::Sleep(ms) = run_claude_status(PollOf::Running { elapsed_ns }) {
        elapsed_ns += ms as u128 * 1_000_000;
        sleeps += 1;
    }
    assert_eq!(sleeps, 601);
}

#[test]
fn numbers_are_written_as_the_standard_library_does() {
    for i in [0, 7, 10, 101, -1, -10, 255, i32::MAX, i32::MIN] {
        assert_eq!(text::decimal_text(i), i.to_string());
    }
}

#[test]
fn a_reply_answers_its_own_action() {
    let read = ActionOf::Read { account: "acct".to_string() };
    assert!(effect::is_answer(&read, &ReplyOf::Blob(Ok(blob("v0", None)))));
    assert!(!effect::is_answer(&read, &ReplyOf::Done(Ok(()))));
    assert!(effect::is_answer(&ActionOf::Lock, &ReplyOf::Done(Ok(()))));
    assert!(!effect::is_answer(&ActionOf::Lock, &ReplyOf::Flag(true)));
    assert!(effect::is_answer(&ActionOf::Clock, &ReplyOf::Now(0)));
    assert!(effect::is_answer(&ActionOf::CountClaude, &ReplyOf::Count(0)));
    assert!(effect::is_answer(&ActionOf::FindClaude, &ReplyOf::Flag(false)));
    assert!(effect::is_answer(&ActionOf::LoadState, &ReplyOf::State(None)));
    assert!(effect::is_answer(&ActionOf::ReadSettings, &ReplyOf::Bytes(None)));
}

#[test]
fn doctor_shows_the_report_as_asked() {
    for json in [false, true] {
        let (opts, report) =
            doctor::run(&GlobalOpts { json }, &DoctorArgs {}, Ok::<u8, Error>(7)).unwrap();
        assert_eq!((opts.json, report), (json, 7));
    }
    let failed: Result<u8, Error> = Err(ErrorOf::Other("no".to_string()));
    assert_eq!(
        doctor::run(&GlobalOpts { json: false }, &DoctorArgs {}, failed),
        Err(ErrorOf::Other("no".to_string()))
    );
}
