//! The block in the rc file, and the shells that carry it.

use claude_switch::cli::ShellChoice;
use claude_switch::error::ErrorOf;
use claude_switch::shell::{
    begin_marker, end_marker, remove_block, upsert_block, upsert_block_named, Shell,
};

#[test]
fn upsert_appends_when_missing() {
    let begin = begin_marker();
    let end = end_marker();
    let s = upsert_block("export FOO=1\n", "alias x=y").unwrap();
    assert!(s.contains(&begin));
    assert!(s.contains("alias x=y"));
    assert!(s.contains(&end));
}

#[test]
fn upsert_replaces_existing() {
    let begin = begin_marker();
    let initial = upsert_block("export A=1\n", "alias x=y").unwrap();
    let updated = upsert_block(&initial, "alias x=z").unwrap();
    assert!(updated.contains("alias x=z"));
    assert!(!updated.contains("alias x=y"));
    assert_eq!(updated.matches(begin.as_str()).count(), 1);
}

#[test]
fn upsert_refuses_malformed_half_present_block() {
    let begin = begin_marker();
    // BEGIN marker present but END truncated away: refuse rather than append a second
    // block (which a later run would treat as the start and clobber user content).
    let corrupted = format!("user line\n{begin}\nclaude() {{ :; }}\n");
    assert!(upsert_block(&corrupted, "alias x=y").is_err());
}

#[test]
fn remove_drops_block_idempotent() {
    let begin = begin_marker();
    let with = upsert_block("export A=1\n", "alias x=y").unwrap();
    let without = remove_block(&with);
    assert!(!without.contains(&begin));
    assert_eq!(remove_block(&without), without);
}

#[test]
fn appended_block_has_an_exact_form() {
    let cli = "claude_switch".split_once('_').unwrap().0;
    assert_eq!(
        upsert_block("export FOO=1\n", "alias x=y\n\n").unwrap(),
        format!(
            "export FOO=1\n\n# >>> cs ({cli}-switch) >>>\nalias x=y\n# <<< cs ({cli}-switch) <<<\n"
        )
    );
}

#[test]
fn appending_ends_an_unfinished_line() {
    assert_eq!(upsert_block_named("a", "<", ">", "b").unwrap(), "a\n\n<\nb\n>\n");
    assert_eq!(upsert_block_named("a\n", "<", ">", "b").unwrap(), "a\n\n<\nb\n>\n");
    assert_eq!(upsert_block_named("", "<", ">", "b").unwrap(), "\n<\nb\n>\n");
}

#[test]
fn replacing_keeps_what_is_around_the_block() {
    assert_eq!(
        upsert_block_named("head\n<\nold\n> rest of the line\ntail", "<", ">", "new\n").unwrap(),
        "head\n<\nnew\n>\ntail"
    );
    assert_eq!(upsert_block_named("head <x>", "<", ">", "y").unwrap(), "head <\ny\n>\n");
}

#[test]
fn upsert_works_on_text_beyond_ascii() {
    assert_eq!(
        upsert_block_named("# \u{e9}\u{1f600}\n<\n\u{4e2d}\n>\n\u{fc}\n", "<", ">", "\u{3b1}").unwrap(),
        "# \u{e9}\u{1f600}\n<\n\u{3b1}\n>\n\u{fc}\n"
    );
}

#[test]
fn every_malformed_pair_is_refused() {
    let begin = begin_marker();
    let end = end_marker();
    let message = |begin: &str, end: &str| {
        ErrorOf::Config(format!(
            "the cs wrapper markers in the rc file are malformed (one marker missing or out of \
             order); fix or remove the `{begin}` / `{end}` block manually, then re-run"
        ))
    };
    assert_eq!(upsert_block_named("<\n", "<", ">", "b"), Err(message("<", ">")));
    assert_eq!(upsert_block_named(">\n", "<", ">", "b"), Err(message("<", ">")));
    assert_eq!(upsert_block_named(">\n<\n", "<", ">", "b"), Err(message("<", ">")));
    assert_eq!(
        upsert_block(&format!("{end}\n{begin}\n"), "b"),
        Err(message(&begin, &end))
    );
}

#[test]
fn the_last_upsert_wins() {
    let once = upsert_block("export A=1\n", "second").unwrap();
    let twice = upsert_block(&upsert_block("export A=1\n", "first").unwrap(), "second").unwrap();
    assert_eq!(once, twice);
}

#[test]
fn upsert_is_idempotent() {
    let once = upsert_block("export A=1\n", "alias x=y\n").unwrap();
    assert_eq!(upsert_block(&once, "alias x=y\n").unwrap(), once);
}

#[test]
fn remove_undoes_upsert() {
    let with = upsert_block("export A=1\n", "alias x=y").unwrap();
    assert_eq!(remove_block(&with), "export A=1\n");
    assert_eq!(remove_block(&upsert_block("", "alias x=y").unwrap()), "");
    // A missing last newline is added, and blank lines at the end go with the block.
    assert_eq!(remove_block(&upsert_block("a", "b").unwrap()), "a\n");
    assert_eq!(remove_block(&upsert_block("a\n\n\n", "b").unwrap()), "a\n");
}

#[test]
fn remove_forgets_the_body() {
    let begin = begin_marker();
    let end = end_marker();
    let text = format!("a\n\n{begin}\nfirst\n{end}\nb\n");
    let again = upsert_block(&text, "second").unwrap();
    assert_ne!(again, text);
    assert_eq!(remove_block(&again), remove_block(&text));
}

#[test]
fn remove_keeps_what_follows_the_block() {
    let begin = begin_marker();
    let end = end_marker();
    let text = format!("a\n\n{begin}\nx\n{end} trailing\nb\nc");
    assert_eq!(remove_block(&text), "a\nb\nc");
    let last = format!("{begin}\nx\n{end}");
    assert_eq!(remove_block(&last), "");
}

#[test]
fn remove_leaves_malformed_text_alone() {
    let begin = begin_marker();
    let end = end_marker();
    for text in [
        format!("a\n{begin}\nb\n"),
        format!("a\n{end}\nb\n"),
        format!("{end}\n{begin}\n"),
        "plain\n\n".to_string(),
    ] {
        assert_eq!(remove_block(&text), text);
    }
}

#[test]
fn upsert_leaves_one_block() {
    let begin = begin_marker();
    let end = end_marker();
    let text = upsert_block("export A=1\nexport B=2", "alias x=y").unwrap();
    assert_eq!(text.matches(begin.as_str()).count(), 1);
    assert_eq!(text.matches(end.as_str()).count(), 1);
    let replaced = upsert_block(&text, "alias x=z").unwrap();
    assert_eq!(replaced.matches(begin.as_str()).count(), 1);
    assert_eq!(replaced.matches(end.as_str()).count(), 1);
    let without = remove_block(&replaced);
    assert!(!without.contains(&begin));
    assert!(!without.contains(&end));
}

#[test]
fn a_choice_overrides_the_environment() {
    assert_eq!(Shell::detect(ShellChoice::Zsh, "/bin/bash"), Ok(Shell::Zsh));
    assert_eq!(Shell::detect(ShellChoice::Bash, "/bin/zsh"), Ok(Shell::Bash));
}

#[test]
fn the_environment_names_the_shell() {
    assert_eq!(Shell::detect(ShellChoice::Auto, "/bin/zsh"), Ok(Shell::Zsh));
    assert_eq!(Shell::detect(ShellChoice::Auto, "zsh"), Ok(Shell::Zsh));
    assert_eq!(Shell::detect(ShellChoice::Auto, "/usr/local/bin/bash"), Ok(Shell::Bash));
    assert_eq!(Shell::detect(ShellChoice::Auto, "bash"), Ok(Shell::Bash));
}

#[test]
fn an_unknown_shell_is_an_error() {
    for value in ["", "/bin/fish", "xzsh", "/bin/zsh "] {
        assert_eq!(
            Shell::detect(ShellChoice::Auto, value),
            Err(ErrorOf::Config(format!(
                "could not detect shell from $SHELL=`{value}`; pass --shell zsh|bash"
            )))
        );
    }
}

#[test]
fn rc_files_stand_in_the_home_directory() {
    let path = |shell: Shell, home: &str| {
        String::from_utf8(shell.rc_path(Some(home.as_bytes().to_vec())).unwrap()).unwrap()
    };
    assert_eq!(path(Shell::Zsh, "/home/me"), "/home/me/.zshrc");
    assert_eq!(path(Shell::Bash, "/home/me"), "/home/me/.bashrc");
    assert_eq!(path(Shell::Zsh, "/"), "/.zshrc");
    assert_eq!(path(Shell::Bash, ""), ".bashrc");
    assert_eq!(Shell::Zsh.rc_path(None), None);
}

#[test]
fn each_shell_has_its_snippet() {
    assert_eq!(Shell::Zsh.snippet("for zsh", "for bash"), "for zsh");
    assert_eq!(Shell::Bash.snippet("for zsh", "for bash"), "for bash");
}
