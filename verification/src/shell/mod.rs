//! Shell wrapper blocks in rc files.

use vstd::prelude::*;

use crate::cli::ShellChoice;
use crate::error::{Error, ErrorOf};
use crate::text;
use crate::tool;

pub mod laws;

verus! {

/// The line that opens the block.
pub open spec fn begin() -> Seq<char> {
    "# >>> cs ("@ + tool::command_name() + "-switch) >>>"@
}

/// The line that closes the block.
pub open spec fn end() -> Seq<char> {
    "# <<< cs ("@ + tool::command_name() + "-switch) <<<"@
}

/// The line that opens the block.
pub fn begin_marker() -> (res: String)
    ensures
        res@ == begin(),
{
    text::join3("# >>> cs (", tool::command(), "-switch) >>>")
}

/// The line that closes the block.
pub fn end_marker() -> (res: String)
    ensures
        res@ == end(),
{
    text::join3("# <<< cs (", tool::command(), "-switch) <<<")
}

/// A shell whose rc file can carry the block.
#[derive(Debug, Clone, Copy, PartialEq, Eq)]
pub enum Shell {
    Zsh,
    Bash,
}

/// The shell that `$SHELL` names.
pub open spec fn shell_of(env_shell: Seq<char>) -> Option<Shell> {
    if text::ends_with(env_shell, "/zsh"@) || env_shell == "zsh"@ {
        Some(Shell::Zsh)
    } else if text::ends_with(env_shell, "/bash"@) || env_shell == "bash"@ {
        Some(Shell::Bash)
    } else {
        None
    }
}

/// The path of the file `name` in the directory `dir`.
pub open spec fn joined(dir: Seq<u8>, name: Seq<u8>) -> Seq<u8> {
    if dir.len() == 0 || dir.last() == 0x2f {
        dir + name
    } else {
        dir.push(0x2f) + name
    }
}

impl Shell {
    /// The rc file's name in the home directory.
    pub open spec fn rc_name(self) -> Seq<u8> {
        match self {
            Shell::Zsh => seq![0x2e, 0x7a, 0x73, 0x68, 0x72, 0x63],  // .zshrc
            Shell::Bash => seq![0x2e, 0x62, 0x61, 0x73, 0x68, 0x72, 0x63],  // .bashrc
        }
    }

    /// The rc file of the shell in the home directory `home`, as the bytes of a path.
    pub fn rc_path(self, home: Option<Vec<u8>>) -> (res: Option<Vec<u8>>)
        ensures
            match home {
                Some(home) => res matches Some(path) && path@ == joined(
                    home@,
                    self.rc_name(),
                ),
                None => res is None,
            },
    {
        match home {
            Some(mut path) => {
                if path.len() > 0 && path[path.len() - 1] != 0x2f {
                    path.push(0x2f);
                }
                let mut name: Vec<u8> = match self {
                    Shell::Zsh => vec![0x2e, 0x7a, 0x73, 0x68, 0x72, 0x63],
                    Shell::Bash => vec![0x2e, 0x62, 0x61, 0x73, 0x68, 0x72, 0x63],
                };
                assert(name@ =~= self.rc_name());
                path.append(&mut name);
                Some(path)
            },
            None => None,
        }
    }

    /// The wrapper of the shell, of the two that are at hand.
    pub fn snippet<'a>(self, zsh: &'a str, bash: &'a str) -> (res: &'a str)
        ensures
            res@ == match self {
                Shell::Zsh => zsh@,
                Shell::Bash => bash@,
            },
    {
        match self {
            Shell::Zsh => zsh,
            Shell::Bash => bash,
        }
    }

    /// The shell that `choice` stands for, where `env_shell` is the value of `$SHELL`
    /// (empty where it is not set).
    pub fn detect(choice: ShellChoice, env_shell: &str) -> (res: Result<Shell, Error>)
        ensures
            match choice {
                ShellChoice::Zsh => res == Ok::<Shell, Error>(Shell::Zsh),
                ShellChoice::Bash => res == Ok::<Shell, Error>(Shell::Bash),
                ShellChoice::Auto => match shell_of(env_shell@) {
                    Some(shell) => res == Ok::<Shell, Error>(shell),
                    None => res matches Err(e) && e@ == ErrorOf::Config(
                        "could not detect shell from $SHELL=`"@ + env_shell@
                            + "`; pass --shell zsh|bash"@,
                    ),
                },
            },
    {
        match choice {
            ShellChoice::Zsh => Ok(Shell::Zsh),
            ShellChoice::Bash => Ok(Shell::Bash),
            ShellChoice::Auto => {
                if text::has_suffix(env_shell, "/zsh") || text::same(env_shell, "zsh") {
                    Ok(Shell::Zsh)
                } else if text::has_suffix(env_shell, "/bash") || text::same(env_shell, "bash") {
                    Ok(Shell::Bash)
                } else {
                    Err(
                        ErrorOf::Config(
                            text::join3(
                                "could not detect shell from $SHELL=`",
                                env_shell,
                                "`; pass --shell zsh|bash",
                            ),
                        ),
                    )
                }
            },
        }
    }
}

/// The block that holds `body` between its markers.
pub open spec fn block(begin: Seq<char>, end: Seq<char>, body: Seq<char>) -> Seq<char> {
    begin + seq!['\n'] + text::trim_newlines(body) + seq!['\n'] + end + seq!['\n']
}

/// What stands between existing text and a block appended to it: the newline that
/// ends an unfinished last line, and a blank line.
pub open spec fn gap(existing: Seq<char>) -> Seq<char> {
    if existing.len() > 0 && existing.last() != '\n' {
        seq!['\n', '\n']
    } else {
        seq!['\n']
    }
}

/// `existing` with `body` in its block; `None` where the markers are malformed.
pub open spec fn upserted(
    existing: Seq<char>,
    begin: Seq<char>,
    end: Seq<char>,
    body: Seq<char>,
) -> Option<Seq<char>> {
    match (text::find(existing, begin), text::find(existing, end)) {
        (Some(start), Some(stop)) => if start < stop {
            Some(
                existing.take(start) + block(begin, end, body) + existing.skip(
                    text::line_end(existing, stop),
                ),
            )
        } else {
            None
        },
        (None, None) => Some(existing + gap(existing) + block(begin, end, body)),
        _ => None,
    }
}

/// Puts `body` into the block of `existing`, or appends a block where there is none.
/// Malformed markers (one missing, or out of order) are refused.
pub fn upsert_block(existing: &str, body: &str) -> (res: Result<String, Error>)
    ensures
        match upserted(existing@, begin(), end(), body@) {
            Some(out) => res matches Ok(s) && s@ == out,
            None => res matches Err(e) && e@ == malformed(begin(), end()),
        },
{
    upsert_block_named(existing, &begin_marker(), &end_marker(), body)
}

/// The error for markers that do not enclose a block.
pub open spec fn malformed(begin: Seq<char>, end: Seq<char>) -> ErrorOf<Seq<char>> {
    ErrorOf::Config(
        "the cs wrapper markers in the rc file are malformed (one marker missing or out of order); fix or remove the `"@
            + begin + "` / `"@ + end + "` block manually, then re-run"@,
    )
}

/// Puts `body` into the block that `begin` and `end` enclose in `existing`, or appends
/// a block where neither marker is present. If exactly one marker is present, or they
/// are out of order, the text is refused: a second `begin` behind an orphaned one would
/// let a later run overwrite what the user has between them.
pub fn upsert_block_named(existing: &str, begin: &str, end: &str, body: &str) -> (res: Result<
    String,
    Error,
>)
    ensures
        match upserted(existing@, begin@, end@, body@) {
            Some(out) => res matches Ok(s) && s@ == out,
            None => res matches Err(e) && e@ == malformed(begin@, end@),
        },
{
    let chars: Vec<char> = text::chars_of(existing);
    let n: usize = chars.len();
    let first: Option<usize> = text::find_chars(&chars, &text::chars_of(begin));
    let last: Option<usize> = text::find_chars(&chars, &text::chars_of(end));
    proof {
        text::lemma_find(existing@, begin@);
        text::lemma_find(existing@, end@);
        reveal_strlit("\n");
        assert("\n"@ =~= seq!['\n']);
    }
    match (first, last) {
        (Some(start), Some(stop)) => {
            if start < stop {
                let rest: usize = text::line_end_of(&chars, stop);
                let mut out: String = existing.substring_char(0, start).to_owned();
                push_block(&mut out, begin, end, body);
                out.append(existing.substring_char(rest, n));
                assert(existing@.subrange(0, start as int) =~= existing@.take(start as int));
                assert(existing@.subrange(rest as int, n as int) =~= existing@.skip(rest as int));
                return Ok(out);
            }
        },
        (None, None) => {
            let mut out: String = existing.to_owned();
            if n > 0 && chars[n - 1] != '\n' {
                out.append("\n");
            }
            out.append("\n");
            assert(out@ =~= existing@ + gap(existing@));
            push_block(&mut out, begin, end, body);
            return Ok(out);
        },
        _ => {},
    }
    Err(
        ErrorOf::Config(
            text::join5(
                "the cs wrapper markers in the rc file are malformed (one marker missing or out of order); fix or remove the `",
                begin,
                "` / `",
                end,
                "` block manually, then re-run",
            ),
        ),
    )
}

/// Appends the block that holds `body`.
fn push_block(out: &mut String, begin: &str, end: &str, body: &str)
    ensures
        final(out)@ == old(out)@ + block(begin@, end@, body@),
{
    let chars: Vec<char> = text::chars_of(body);
    let n: usize = text::trimmed_len(&chars);
    out.append(begin);
    out.append("\n");
    out.append(body.substring_char(0, n));
    out.append("\n");
    out.append(end);
    out.append("\n");
    proof {
        reveal_strlit("\n");
        assert("\n"@ =~= seq!['\n']);
        assert(body@.subrange(0, n as int) =~= body@.take(n as int));
        assert(out@ =~= old(out)@ + block(begin@, end@, body@));
    }
}

/// The text before a block, once all the newlines in front of the block are gone but the
/// one that ends the last line.
pub open spec fn head(before: Seq<char>) -> Seq<char> {
    let kept = text::trim_newlines(before);
    if kept.len() > 0 {
        kept.push('\n')
    } else {
        kept
    }
}

/// `existing` without its block; the same text where it has none.
pub open spec fn removed(existing: Seq<char>) -> Seq<char> {
    match (text::find(existing, begin()), text::find(existing, end())) {
        (Some(start), Some(stop)) => if start < stop {
            head(existing.take(start)) + existing.skip(text::line_end(existing, stop))
        } else {
            existing
        },
        _ => existing,
    }
}

/// Takes the block out of `existing`, with all the newlines in front of it but the one
/// that ends the last line. Text without a well-formed block comes back as it is.
pub fn remove_block(existing: &str) -> (res: String)
    ensures
        res@ == removed(existing@),
{
    let chars: Vec<char> = text::chars_of(existing);
    let n: usize = chars.len();
    let first: Option<usize> = text::find_chars(&chars, &text::chars_of(&begin_marker()));
    let last: Option<usize> = text::find_chars(&chars, &text::chars_of(&end_marker()));
    proof {
        text::lemma_find(existing@, begin());
        text::lemma_find(existing@, end());
    }
    if let (Some(start), Some(stop)) = (first, last) {
        if start < stop {
            let rest: usize = text::line_end_of(&chars, stop);
            let before: Vec<char> = text::chars_of(existing.substring_char(0, start));
            let kept: usize = text::trimmed_len(&before);
            let mut out: String = existing.substring_char(0, kept).to_owned();
            if kept > 0 {
                out.append("\n");
            }
            proof {
                reveal_strlit("\n");
                assert(existing@.subrange(0, start as int) =~= existing@.take(start as int));
                assert(existing@.subrange(0, kept as int) =~= before@.take(kept as int));
                assert(out@ =~= head(existing@.take(start as int)));
                assert(existing@.subrange(rest as int, n as int) =~= existing@.skip(rest as int));
            }
            out.append(existing.substring_char(rest, n));
            return out;
        }
    }
    existing.to_owned()
}

} // verus!
