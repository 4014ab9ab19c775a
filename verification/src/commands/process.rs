//! Watching CLI processes.

use vstd::prelude::*;

use crate::error::{Error, ErrorOf};
use crate::text;
use crate::tool;

verus! {

/// How long the status run may take, in nanoseconds.
pub const REFRESH_TIMEOUT_NS: u128 = 60_000_000_000;

/// How long to sleep between two looks at it, in milliseconds.
pub const POLL_INTERVAL_MS: u64 = 100;

/// What a look at the status run shows, over the type of its text.
#[derive(Debug, PartialEq, Eq)]
pub enum PollOf<T> {
    /// It has exited. Of a failure, the exit code (`None` where a signal ended it) and
    /// what it wrote to its standard error count.
    Exited { success: bool, code: Option<i32>, stderr: T },
    /// It is still running, for this long.
    Running { elapsed_ns: u128 },
    /// It could not be looked at.
    Failed { shown: T },
}

/// What to do about the status run, over the type of text in an error.
#[derive(Debug, PartialEq, Eq)]
pub enum WatchOf<T> {
    /// Stop watching, with this outcome.
    Finish(Result<(), ErrorOf<T>>),
    /// Kill it, and stop watching with this error.
    Kill(ErrorOf<T>),
    /// Look again after this many milliseconds.
    Sleep(u64),
}

pub type Poll = PollOf<String>;

pub type Watch = WatchOf<String>;

impl<T: View> View for PollOf<T> {
    type V = PollOf<T::V>;

    open spec fn view(&self) -> PollOf<T::V> {
        match self {
            PollOf::Exited { success, code, stderr } => PollOf::Exited {
                success: *success,
                code: *code,
                stderr: stderr@,
            },
            PollOf::Running { elapsed_ns } => PollOf::Running { elapsed_ns: *elapsed_ns },
            PollOf::Failed { shown } => PollOf::Failed { shown: shown@ },
        }
    }
}

impl<T: View> View for WatchOf<T> {
    type V = WatchOf<T::V>;

    open spec fn view(&self) -> WatchOf<T::V> {
        match self {
            WatchOf::Finish(r) => WatchOf::Finish(
                match r {
                    Ok(_) => Ok(()),
                    Err(e) => Err(e@),
                },
            ),
            WatchOf::Kill(e) => WatchOf::Kill(e@),
            WatchOf::Sleep(ms) => WatchOf::Sleep(*ms),
        }
    }
}

/// The error of the status run.
pub open spec fn status_error(message: Seq<char>) -> ErrorOf<Seq<char>> {
    ErrorOf::Subprocess { cmd: tool::command_name() + " /status"@, message }
}

/// What a look at the status run calls for.
pub open spec fn watch(poll: PollOf<Seq<char>>) -> WatchOf<Seq<char>> {
    match poll {
        PollOf::Exited { success, code, stderr } => if success {
            WatchOf::Finish(Ok(()))
        } else {
            let shown = match code {
                Some(code) => code as int,
                None => -1,
            };
            WatchOf::Finish(
                Err(status_error("exit "@ + text::decimal(shown) + ": "@ + stderr)),
            )
        },
        PollOf::Running { elapsed_ns } => if elapsed_ns > REFRESH_TIMEOUT_NS {
            WatchOf::Kill(status_error("timed out after 60s"@))
        } else {
            WatchOf::Sleep(POLL_INTERVAL_MS)
        },
        PollOf::Failed { shown } => WatchOf::Kill(status_error(shown)),
    }
}

/// The error of the status run with this message.
pub fn status_failure(message: String) -> (res: Error)
    ensures
        res@ == status_error(message@),
{
    ErrorOf::Subprocess { cmd: text::join2(tool::command(), " /status"), message }
}

/// Decides what to do about the status run after a look at it.
pub fn run_claude_status(poll: Poll) -> (res: Watch)
    ensures
        res@ == watch(poll@),
{
    match poll {
        PollOf::Exited { success, code, stderr } => if success {
            WatchOf::Finish(Ok(()))
        } else {
            let shown: i32 = match code {
                Some(code) => code,
                None => -1,
            };
            WatchOf::Finish(
                Err(
                    status_failure(
                        text::join4("exit ", &text::decimal_text(shown), ": ", &stderr),
                    ),
                ),
            )
        },
        PollOf::Running { elapsed_ns } => if elapsed_ns > REFRESH_TIMEOUT_NS {
            WatchOf::Kill(status_failure("timed out after 60s".to_owned()))
        } else {
            WatchOf::Sleep(POLL_INTERVAL_MS)
        },
        PollOf::Failed { shown } => WatchOf::Kill(status_failure(shown)),
    }
}

/// A status run is not watched forever: if every look that calls for
/// another sleep comes at least the sleep later than the one before, there are at most
/// as many of them as fit into the timeout, and one more.
pub proof fn law_watching_is_bounded(looks: Seq<u128>)
    requires
        forall|i: int|
            #![trigger looks[i]]
            0 <= i < looks.len() ==> watch(PollOf::Running { elapsed_ns: looks[i] }) is Sleep,
        forall|i: int|
            #![trigger looks[i]]
            0 < i < looks.len() ==> looks[i - 1] + POLL_INTERVAL_MS * 1_000_000 <= looks[i],
    ensures
        looks.len() <= 601,
{
    if looks.len() > 601 {
        lemma_looks(looks, 601);
        assert(watch(PollOf::Running { elapsed_ns: looks[601] }) is Sleep);
    }
}

proof fn lemma_looks(looks: Seq<u128>, i: int)
    requires
        0 <= i < looks.len(),
        forall|i: int|
            #![trigger looks[i]]
            0 < i < looks.len() ==> looks[i - 1] + POLL_INTERVAL_MS * 1_000_000 <= looks[i],
    ensures
        i * 100_000_000 <= looks[i],
    decreases i,
{
    if i > 0 {
        lemma_looks(looks, i - 1);
    }
}

/// The newline at `k` ends a line with something on it. A carriage return just before
/// the newline belongs to the line's end.
pub open spec fn ends_filled_line(out: Seq<u8>, k: int) -> bool {
    &&& out[k] == 0x0a
    &&& k > 0
    &&& out[k - 1] != 0x0a
    &&& out[k - 1] == 0x0d ==> k > 1 && out[k - 2] != 0x0a
}

/// How many of the first `n` bytes end a line with something on it.
pub open spec fn filled_lines(out: Seq<u8>, n: int) -> nat
    decreases n,
{
    if n <= 0 {
        0
    } else {
        filled_lines(out, n - 1) + if ends_filled_line(out, n - 1) {
            1nat
        } else {
            0nat
        }
    }
}

/// How many lines have something on them; the last one need not end with a newline.
pub open spec fn nonempty_lines(out: Seq<u8>) -> nat {
    filled_lines(out, out.len() as int) + if out.len() > 0 && out.last() != 0x0a {
        1nat
    } else {
        0nat
    }
}

/// How many CLI processes run, by the output of a search that lists one per line.
/// A search that did not succeed (`None`) found none.
pub fn running_claude_processes(listing: Option<Vec<u8>>) -> (res: u64)
    ensures
        match listing {
            Some(out) => res == nonempty_lines(out@),
            None => res == 0,
        },
{
    let out: Vec<u8> = match listing {
        Some(out) => out,
        None => return 0,
    };
    let n: usize = out.len();
    let mut count: u64 = 0;
    for i in 0..n
        invariant
            n == out@.len(),
            count == filled_lines(out@, i as int),
            count <= i,
    {
        if out[i] == 0x0a && i > 0 && out[i - 1] != 0x0a && (out[i - 1] != 0x0d || (i > 1 && out[i
            - 2] != 0x0a)) {
            count = count + 1;
        }
    }
    if n > 0 && out[n - 1] != 0x0a {
        proof {
            assert(filled_lines(out@, n as int) == filled_lines(out@, n - 1));
            lemma_filled_lines_bound(out@, n - 1);
        }
        count = count + 1;
    }
    count
}

proof fn lemma_filled_lines_bound(out: Seq<u8>, n: int)
    requires
        0 <= n,
    ensures
        filled_lines(out, n) <= n,
    decreases n,
{
    if n > 0 {
        lemma_filled_lines_bound(out, n - 1);
    }
}

/// The status run is killed exactly once it has taken longer than a minute, and left to run
/// for another tenth of a second before that. One that has exited is judged by its exit: a
/// failure tells its code, or -1 where a signal ended it, and what it wrote to its standard
/// error. One that cannot be looked at is killed.
pub proof fn law_status_run_is_judged(
    elapsed_ns: u128,
    code: Option<i32>,
    stderr: Seq<char>,
)
    ensures
        watch(PollOf::Running { elapsed_ns }) == if elapsed_ns > 60_000_000_000 {
            WatchOf::Kill(
                ErrorOf::Subprocess {
                    cmd: tool::command_name() + " /status"@,
                    message: "timed out after 60s"@,
                },
            )
        } else {
            WatchOf::Sleep(100)
        },
        watch(PollOf::Exited { success: true, code, stderr }) == WatchOf::<Seq<char>>::Finish(
            Ok(()),
        ),
        code matches Some(c) ==> watch(PollOf::Exited { success: false, code, stderr })
            == WatchOf::Finish(
            Err(
                ErrorOf::Subprocess {
                    cmd: tool::command_name() + " /status"@,
                    message: "exit "@ + text::decimal(c as int) + ": "@ + stderr,
                },
            ),
        ),
        code is None ==> watch(PollOf::Exited { success: false, code, stderr }) == WatchOf::Finish(
            Err(
                ErrorOf::Subprocess {
                    cmd: tool::command_name() + " /status"@,
                    message: "exit "@ + text::decimal(-1) + ": "@ + stderr,
                },
            ),
        ),
        watch(PollOf::Failed { shown: stderr }) == WatchOf::Kill(
            ErrorOf::Subprocess { cmd: tool::command_name() + " /status"@, message: stderr },
        ),
{
}

/// Processes are counted line by line: a line counts where something stands on it, a carriage
/// return at its end aside, and the lines behind it count for themselves. A last line without
/// a newline counts where it is not empty.
pub proof fn law_processes_are_counted_by_line(line: Seq<u8>, rest: Seq<u8>)
    requires
        forall|i: int| 0 <= i < line.len() ==> line[i] != 0x0a,
    ensures
        nonempty_lines(line) == if line.len() > 0 {
            1nat
        } else {
            0nat
        },
        nonempty_lines(line.push(0x0a) + rest) == nonempty_lines(rest) + if line.len() == 0 || line
            == seq![0x0du8] {
            0nat
        } else {
            1nat
        },
{
    let m = line.len() as int;
    let whole = line.push(0x0a) + rest;
    lemma_no_newline(line, m);
    lemma_no_newline(whole, m);
    assert(filled_lines(whole, m + 1) == filled_lines(whole, m) + if ends_filled_line(whole, m) {
        1nat
    } else {
        0nat
    });
    assert(line.len() == 1 && line[0] == 0x0d ==> line =~= seq![0x0du8]);
    lemma_lines_behind(line, rest, rest.len() as int);
    if rest.len() > 0 {
        assert(whole.last() == rest.last());
    } else {
        assert(whole.last() == 0x0a);
    }
}

proof fn lemma_no_newline(out: Seq<u8>, n: int)
    requires
        0 <= n <= out.len(),
        forall|i: int| 0 <= i < n ==> out[i] != 0x0a,
    ensures
        filled_lines(out, n) == 0,
    decreases n,
{
    if n > 0 {
        lemma_no_newline(out, n - 1);
    }
}

proof fn lemma_lines_behind(line: Seq<u8>, rest: Seq<u8>, n: int)
    requires
        0 <= n <= rest.len(),
    ensures
        filled_lines(line.push(0x0a) + rest, line.len() + 1 + n) == filled_lines(
            line.push(0x0a) + rest,
            line.len() as int + 1,
        ) + filled_lines(rest, n),
    decreases n,
{
    let whole = line.push(0x0a) + rest;
    let m = line.len() as int;
    if n > 0 {
        lemma_lines_behind(line, rest, n - 1);
        assert(whole[m] == 0x0a);
        assert(whole[m + n] == rest[n - 1]);
        assert(n > 1 ==> whole[m + n - 1] == rest[n - 2]);
        assert(n > 2 ==> whole[m + n - 2] == rest[n - 3]);
        assert(ends_filled_line(whole, m + n) == ends_filled_line(rest, n - 1));
    }
}

} // verus!
