//! What holds of the block functions together.

use vstd::prelude::*;

use crate::error::ErrorOf;
use crate::shell;
use crate::shell::Shell;
use crate::text;
use crate::tool;

verus! {

/// `s` holds a well-formed block.
pub open spec fn has_block(s: Seq<char>) -> bool {
    &&& text::find(s, shell::begin()) matches Some(start)
    &&& text::find(s, shell::end()) matches Some(stop)
    &&& start < stop
}

/// The text behind the block of `s`.
pub open spec fn behind_block(s: Seq<char>) -> Seq<char> {
    s.skip(text::line_end(s, text::find(s, shell::end())->0))
}

proof fn lemma_markers()
    ensures
        shell::begin().len() == 28,
        shell::end().len() == 28,
        shell::begin() != shell::end(),
        forall|i: int| 0 <= i < 28 ==> shell::begin()[i] != '\n',
        forall|i: int| 0 <= i < 28 ==> shell::end()[i] != '\n',
{
    reveal_strlit("claude_switch");
    reveal_strlit("# >>> cs (");
    reveal_strlit("-switch) >>>");
    reveal_strlit("# <<< cs (");
    reveal_strlit("-switch) <<<");
    assert(shell::begin()[2] == '>');
    assert(shell::end()[2] == '<');
}

/// A pattern without newlines does not reach over a newline.
proof fn lemma_newline_parts(s: Seq<char>, pat: Seq<char>, j: int, k: int)
    requires
        text::occurs_at(s, pat, j),
        forall|i: int| 0 <= i < pat.len() ==> pat[i] != '\n',
        0 <= k < s.len(),
        s[k] == '\n',
    ensures
        k < j || j + pat.len() <= k,
{
    if j <= k < j + pat.len() {
        assert(s.subrange(j, j + pat.len())[k - j] == pat[k - j]);
    }
}

/// An occurrence in a part of a text is one in the text, and the other way round.
proof fn lemma_part(s: Seq<char>, pat: Seq<char>, from: int, to: int, j: int)
    requires
        0 <= from <= j,
        j + pat.len() <= to <= s.len(),
    ensures
        text::occurs_at(s, pat, j) == text::occurs_at(s.subrange(from, to), pat, j - from),
{
    assert(s.subrange(from, to).subrange(j - from, j - from + pat.len()) =~= s.subrange(
        j,
        j + pat.len(),
    ));
}

/// What is absent from a text is absent from its trimmed form.
proof fn lemma_trim(s: Seq<char>)
    ensures
        text::trim_newlines(s).len() <= s.len(),
        text::trim_newlines(s) == s.take(text::trim_newlines(s).len() as int),
        text::trim_newlines(s).len() > 0 ==> text::trim_newlines(s).last() != '\n',
    decreases s.len(),
{
    if s.len() > 0 && s.last() == '\n' {
        lemma_trim(s.drop_last());
        let n = text::trim_newlines(s).len() as int;
        assert(s.drop_last().take(n) =~= s.take(n));
    } else {
        assert(s.take(s.len() as int) =~= s);
    }
}

proof fn lemma_absent_prefix(s: Seq<char>, pat: Seq<char>, n: int)
    requires
        0 <= n <= s.len(),
        !text::contains_text(s, pat),
    ensures
        !text::contains_text(s.take(n), pat),
{
    if text::contains_text(s.take(n), pat) {
        let j = choose|j: int| text::occurs_at(s.take(n), pat, j);
        assert(s.take(n) =~= s.subrange(0, n));
        lemma_part(s, pat, 0, n, j);
    }
}

/// A block whose body does not hold the closing marker is found where it stands.
proof fn lemma_block_found(pre: Seq<char>, body: Seq<char>, post: Seq<char>)
    requires
        text::occurs_first_at(pre + shell::begin(), shell::begin(), pre.len() as int),
        !text::contains_text(pre + shell::begin(), shell::end()),
        !text::contains_text(body, shell::end()),
    ensures
        ({
            let x = pre + shell::block(shell::begin(), shell::end(), body) + post;
            let p = pre.len() as int;
            let q = p + 30 + text::trim_newlines(body).len();
            &&& text::find(x, shell::begin()) == Some(p)
            &&& text::find(x, shell::end()) == Some(q)
            &&& text::line_end(x, q) == q + 29
            &&& x.take(p) == pre
            &&& x.skip(q + 29) == post
        }),
{
    lemma_markers();
    lemma_trim(body);
    let t = text::trim_newlines(body);
    lemma_absent_prefix(body, shell::end(), t.len() as int);
    let x = pre + shell::block(shell::begin(), shell::end(), body) + post;
    let p = pre.len() as int;
    let q = p + 30 + t.len();
    assert(x.subrange(0, p + 28) =~= pre + shell::begin());
    assert(x.subrange(p + 29, q - 1) =~= t);
    assert(x[p + 28] == '\n');
    assert(x[q - 1] == '\n');
    assert(x[q + 28] == '\n');
    assert(x.subrange(p, p + 28) =~= shell::begin());
    assert(x.subrange(q, q + 28) =~= shell::end());
    assert forall|j: int| 0 <= j < p implies !text::occurs_at(x, shell::begin(), j) by {
        lemma_part(x, shell::begin(), 0, p + 28, j);
    }
    text::lemma_find_is(x, shell::begin(), p);
    assert forall|j: int| 0 <= j < q implies !text::occurs_at(x, shell::end(), j) by {
        if text::occurs_at(x, shell::end(), j) {
            lemma_newline_parts(x, shell::end(), j, p + 28);
            lemma_newline_parts(x, shell::end(), j, q - 1);
            if j + 28 <= p + 28 {
                lemma_part(x, shell::end(), 0, p + 28, j);
                assert(text::occurs_at(pre + shell::begin(), shell::end(), j));
            } else {
                lemma_part(x, shell::end(), p + 29, q - 1, j);
                assert(text::occurs_at(t, shell::end(), j - (p + 29)));
            }
        }
    }
    text::lemma_find_is(x, shell::end(), q);
    lemma_line_end(x, q, q + 28);
    assert(x.take(p) =~= pre);
    assert(x.skip(q + 29) =~= post);
}

/// The end of a line is just past the first newline.
proof fn lemma_line_end(s: Seq<char>, from: int, k: int)
    requires
        0 <= from <= k < s.len(),
        s[k] == '\n',
        forall|i: int| from <= i < k ==> s[i] != '\n',
    ensures
        text::line_end(s, from) == k + 1,
    decreases k - from,
{
    if from < k {
        lemma_line_end(s, from + 1, k);
    }
}

/// Where the block of an upserted text stands.
proof fn lemma_upserted_shape(existing: Seq<char>, body: Seq<char>) -> (parts: (
    Seq<char>,
    Seq<char>,
))
    requires
        shell::upserted(existing, shell::begin(), shell::end(), body) is Some,
    ensures
        text::occurs_first_at(parts.0 + shell::begin(), shell::begin(), parts.0.len() as int),
        !text::contains_text(parts.0 + shell::begin(), shell::end()),
        text::find(existing, shell::begin()) is None ==> parts == (
            existing + shell::gap(existing),
            Seq::<char>::empty(),
        ),
        text::find(existing, shell::begin()) matches Some(start) ==> has_block(existing) && parts
            == (existing.take(start), behind_block(existing)),
        forall|b: Seq<char>|
            #![trigger shell::upserted(existing, shell::begin(), shell::end(), b)]
            shell::upserted(existing, shell::begin(), shell::end(), b) == Some(
                parts.0 + shell::block(shell::begin(), shell::end(), b) + parts.1,
            ),
{
    lemma_markers();
    text::lemma_find(existing, shell::begin());
    text::lemma_find(existing, shell::end());
    match text::find(existing, shell::begin()) {
        Some(start) => {
            let stop = text::find(existing, shell::end())->0;
            let pre = existing.take(start);
            let post = existing.skip(text::line_end(existing, stop));
            assert(pre + shell::begin() =~= existing.subrange(0, start + 28));
            assert((pre + shell::begin()).subrange(start, start + 28) =~= shell::begin());
            assert forall|j: int| 0 <= j < start implies !text::occurs_at(
                pre + shell::begin(),
                shell::begin(),
                j,
            ) by {
                lemma_part(existing, shell::begin(), 0, start + 28, j);
            }
            if text::contains_text(pre + shell::begin(), shell::end()) {
                let j = choose|j: int| text::occurs_at(pre + shell::begin(), shell::end(), j);
                lemma_part(existing, shell::end(), 0, start + 28, j);
            }
            (pre, post)
        },
        None => {
            let gap = shell::gap(existing);
            let pre = existing + gap;
            let p = pre.len() as int;
            let whole = pre + shell::begin();
            assert(whole.subrange(p, p + 28) =~= shell::begin());
            assert(whole.subrange(0, existing.len() as int) =~= existing);
            assert(whole[existing.len() as int] == '\n');
            assert(whole[p - 1] == '\n');
            assert forall|j: int| 0 <= j < p implies !text::occurs_at(whole, shell::begin(), j) by {
                if text::occurs_at(whole, shell::begin(), j) {
                    lemma_newline_parts(whole, shell::begin(), j, existing.len() as int);
                    lemma_newline_parts(whole, shell::begin(), j, p - 1);
                    lemma_part(whole, shell::begin(), 0, existing.len() as int, j);
                    assert(text::occurs_at(existing, shell::begin(), j));
                }
            }
            if text::contains_text(whole, shell::end()) {
                let j = choose|j: int| text::occurs_at(whole, shell::end(), j);
                lemma_newline_parts(whole, shell::end(), j, existing.len() as int);
                lemma_newline_parts(whole, shell::end(), j, p - 1);
                if j < p {
                    lemma_part(whole, shell::end(), 0, existing.len() as int, j);
                    assert(text::occurs_at(existing, shell::end(), j));
                } else {
                    assert(j == p);
                    assert(false);
                }
            }
            let post = Seq::<char>::empty();
            assert forall|b: Seq<char>|
                #![trigger shell::upserted(existing, shell::begin(), shell::end(), b)]
                shell::upserted(existing, shell::begin(), shell::end(), b) == Some(
                    pre + shell::block(shell::begin(), shell::end(), b) + post,
                ) by {
                assert(pre + shell::block(shell::begin(), shell::end(), b) + post =~= existing + gap
                    + shell::block(shell::begin(), shell::end(), b));
            }
            (pre, post)
        },
    }
}

/// The last upsert wins: putting a second body into a text that was upserted before
/// gives what the second upsert alone gives, so the first body is gone and nothing else
/// has changed. The first body must not hold the closing marker itself.
pub proof fn law_last_upsert_wins(existing: Seq<char>, first: Seq<char>, second: Seq<char>)
    requires
        shell::upserted(existing, shell::begin(), shell::end(), first) is Some,
        !text::contains_text(first, shell::end()),
    ensures
        shell::upserted(
            shell::upserted(existing, shell::begin(), shell::end(), first)->0,
            shell::begin(),
            shell::end(),
            second,
        ) == shell::upserted(existing, shell::begin(), shell::end(), second),
{
    let (pre, post) = lemma_upserted_shape(existing, first);
    lemma_block_found(pre, first, post);
    assert(shell::upserted(existing, shell::begin(), shell::end(), second) == Some(
        pre + shell::block(shell::begin(), shell::end(), second) + post,
    ));
}

/// Upserting the same body again changes nothing.
pub proof fn law_upsert_is_idempotent(existing: Seq<char>, body: Seq<char>)
    requires
        shell::upserted(existing, shell::begin(), shell::end(), body) is Some,
        !text::contains_text(body, shell::end()),
    ensures
        ({
            let once = shell::upserted(existing, shell::begin(), shell::end(), body);
            shell::upserted(once->0, shell::begin(), shell::end(), body) == once
        }),
{
    law_last_upsert_wins(existing, body, body);
}

/// Removing the block of an upserted text that had no marker gives the text back, up to
/// the newlines at its end; a text that is empty, or ends with exactly one newline,
/// comes back as it was.
pub proof fn law_remove_undoes_upsert(existing: Seq<char>, body: Seq<char>)
    requires
        !text::contains_text(existing, shell::begin()),
        !text::contains_text(existing, shell::end()),
        !text::contains_text(body, shell::end()),
    ensures
        ({
            let with = shell::upserted(existing, shell::begin(), shell::end(), body);
            &&& with is Some
            &&& shell::removed(with->0) == shell::head(existing)
            &&& shell::head(existing) == existing <==> existing.len() == 0 || (existing.len() > 1
                && existing.last() == '\n' && existing[existing.len() - 2] != '\n')
            &&& !text::contains_text(shell::removed(with->0), shell::begin())
            &&& shell::removed(shell::removed(with->0)) == shell::removed(with->0)
        }),
{
    let (pre, post) = lemma_upserted_shape(existing, body);
    let with = shell::upserted(existing, shell::begin(), shell::end(), body)->0;
    assert(with == pre + shell::block(shell::begin(), shell::end(), body) + post);
    assert(shell::removed(with) == shell::head(pre)) by {
        lemma_block_found(pre, body, post);
        assert(shell::head(pre) + post =~= shell::head(pre));
    }
    assert(text::trim_newlines(pre) == text::trim_newlines(existing)) by {
        lemma_trim_push(existing);
        lemma_trim_push(existing.push('\n'));
        assert(pre =~= existing.push('\n') || pre =~= existing.push('\n').push('\n'));
    }
    lemma_head(existing);
    lemma_head_free(existing, shell::begin());
}

/// Removing a block does not depend on what was last put into it.
pub proof fn law_remove_forgets_the_body(existing: Seq<char>, body: Seq<char>)
    requires
        has_block(existing),
        !text::contains_text(body, shell::end()),
    ensures
        shell::upserted(existing, shell::begin(), shell::end(), body) matches Some(with)
            && shell::removed(with) == shell::removed(existing),
{
    let (pre, post) = lemma_upserted_shape(existing, body);
    assert(shell::upserted(existing, shell::begin(), shell::end(), body) == Some(
        pre + shell::block(shell::begin(), shell::end(), body) + post,
    ));
    lemma_block_found(pre, body, post);
}

/// A newline at the end does not change the trimmed form.
proof fn lemma_trim_push(s: Seq<char>)
    ensures
        text::trim_newlines(s.push('\n')) == text::trim_newlines(s),
{
    assert(s.push('\n').drop_last() =~= s);
}

/// Which texts `head` leaves as they are.
proof fn lemma_head(s: Seq<char>)
    ensures
        shell::head(s) == s <==> s.len() == 0 || (s.len() > 1 && s.last() == '\n' && s[s.len() - 2]
            != '\n'),
{
    lemma_trim(s);
    let kept = text::trim_newlines(s);
    if s.len() > 1 && s.last() == '\n' && s[s.len() - 2] != '\n' {
        assert(kept == text::trim_newlines(s.drop_last()));
        assert(kept == s.drop_last());
        assert(shell::head(s) =~= s);
    }
    if shell::head(s) == s && s.len() > 0 {
        assert(kept.len() > 0);
        assert(s[s.len() - 2] == kept.last());
    }
}

/// `head` brings in no marker.
proof fn lemma_head_free(s: Seq<char>, pat: Seq<char>)
    requires
        pat == shell::begin() || pat == shell::end(),
        !text::contains_text(s, pat),
    ensures
        !text::contains_text(shell::head(s), pat),
{
    lemma_markers();
    lemma_trim(s);
    let kept = text::trim_newlines(s);
    lemma_absent_prefix(s, pat, kept.len() as int);
    let h = shell::head(s);
    if text::contains_text(h, pat) {
        let j = choose|j: int| text::occurs_at(h, pat, j);
        if kept.len() > 0 {
            lemma_newline_parts(h, pat, j, kept.len() as int);
            assert(h.subrange(0, kept.len() as int) =~= kept);
            lemma_part(h, pat, 0, kept.len() as int, j);
        }
        assert(text::occurs_at(kept, pat, j));
    }
}

/// A marker absent from a text of whole lines is found behind it.
proof fn lemma_find_behind(h: Seq<char>, rest: Seq<char>, pat: Seq<char>)
    requires
        pat == shell::begin() || pat == shell::end(),
        !text::contains_text(h, pat),
        h.len() == 0 || h.last() == '\n',
    ensures
        text::find(h + rest, pat) == match text::find(rest, pat) {
            Some(i) => Some(i + h.len()),
            None => None::<int>,
        },
{
    lemma_markers();
    text::lemma_find(rest, pat);
    text::lemma_find(h + rest, pat);
    let whole = h + rest;
    let n = h.len() as int;
    assert(whole.subrange(0, n) =~= h);
    assert(whole.subrange(n, whole.len() as int) =~= rest);
    assert forall|j: int| text::occurs_at(whole, pat, j) implies n <= j && text::occurs_at(
        rest,
        pat,
        j - n,
    ) by {
        if n > 0 {
            lemma_newline_parts(whole, pat, j, n - 1);
        }
        if j < n {
            lemma_part(whole, pat, 0, n, j);
            assert(text::occurs_at(h, pat, j));
        }
        lemma_part(whole, pat, n, whole.len() as int, j);
    }
    match text::find(rest, pat) {
        Some(i) => {
            lemma_part(whole, pat, n, whole.len() as int, i + n);
            assert forall|j: int| 0 <= j < i + n implies !text::occurs_at(whole, pat, j) by {
                if text::occurs_at(whole, pat, j) {
                    assert(text::occurs_at(rest, pat, j - n));
                }
            }
            text::lemma_find_is(whole, pat, i + n);
        },
        None => {},
    }
}

/// `pat` stands in `s` at most once.
pub open spec fn at_most_once(s: Seq<char>, pat: Seq<char>) -> bool {
    forall|i: int, j: int| text::occurs_at(s, pat, i) && text::occurs_at(s, pat, j) ==> i == j
}

/// `pat` stands in `s` exactly once.
pub open spec fn once(s: Seq<char>, pat: Seq<char>) -> bool {
    text::contains_text(s, pat) && at_most_once(s, pat)
}

/// Removing twice is removing once, unless the text behind the block holds a block of
/// its own, which the second removal takes out. Of a marker that stood there at most once,
/// none is left with the block gone.
pub proof fn law_remove_is_idempotent(existing: Seq<char>)
    requires
        has_block(existing) ==> !has_block(behind_block(existing)),
    ensures
        !has_block(shell::removed(existing)),
        shell::removed(shell::removed(existing)) == shell::removed(existing),
        has_block(existing) && at_most_once(existing, shell::begin()) ==> !text::contains_text(
            shell::removed(existing),
            shell::begin(),
        ),
        has_block(existing) && at_most_once(existing, shell::end()) ==> !text::contains_text(
            shell::removed(existing),
            shell::end(),
        ),
{
    if has_block(existing) {
        lemma_find_in_rest(existing);
        law_remove_leaves_no_marker(existing);
    }
}

/// Removing the only block leaves no marker: of an opening marker that stood there at most
/// once none is left, and of a closing marker likewise.
pub proof fn law_remove_leaves_no_marker(existing: Seq<char>)
    requires
        has_block(existing),
    ensures
        at_most_once(existing, shell::begin()) ==> !text::contains_text(
            shell::removed(existing),
            shell::begin(),
        ),
        at_most_once(existing, shell::end()) ==> !text::contains_text(
            shell::removed(existing),
            shell::end(),
        ),
{
    lemma_find_in_rest(existing);
    lemma_none_behind(existing, shell::begin());
    lemma_none_behind(existing, shell::end());
}

/// A marker that stands in a text at most once does not stand behind its block.
proof fn lemma_none_behind(existing: Seq<char>, pat: Seq<char>)
    requires
        has_block(existing),
        pat == shell::begin() || pat == shell::end(),
    ensures
        at_most_once(existing, pat) ==> !text::contains_text(behind_block(existing), pat),
{
    lemma_markers();
    text::lemma_find(existing, shell::begin());
    text::lemma_find(existing, shell::end());
    let rest = behind_block(existing);
    let stop = text::find(existing, shell::end())->0;
    let e = text::line_end(existing, stop);
    lemma_line_end_bounds(existing, stop);
    assert(rest =~= existing.subrange(e, existing.len() as int));
    if at_most_once(existing, pat) && text::contains_text(rest, pat) {
        let j = choose|j: int| text::occurs_at(rest, pat, j);
        lemma_part(existing, pat, e, existing.len() as int, j + e);
        assert(text::occurs_at(existing, pat, j + e));
        let first = text::find(existing, pat)->0;
        assert(text::occurs_at(existing, pat, first));
        assert(existing.subrange(stop, stop + 28) == shell::end());
        lemma_line_end_past(existing, stop);
    }
}

/// A line that begins with a closing marker ends behind that marker's first character.
proof fn lemma_line_end_past(s: Seq<char>, from: int)
    requires
        text::occurs_at(s, shell::end(), from),
    ensures
        text::line_end(s, from) > from,
{
    lemma_markers();
    lemma_line_end_bounds(s, from);
    lemma_line_end_bounds(s, from + 1);
}

/// Where a marker stands once the block is gone: where it stood behind the block.
proof fn lemma_find_in_rest(existing: Seq<char>)
    requires
        has_block(existing),
    ensures
        ({
            let h = shell::head(existing.take(text::find(existing, shell::begin())->0));
            let rest = behind_block(existing);
            &&& shell::removed(existing) == h + rest
            &&& text::find(h + rest, shell::begin()) == match text::find(rest, shell::begin()) {
                Some(i) => Some(i + h.len()),
                None => None::<int>,
            }
            &&& text::find(h + rest, shell::end()) == match text::find(rest, shell::end()) {
                Some(i) => Some(i + h.len()),
                None => None::<int>,
            }
        }),
{
    lemma_markers();
    text::lemma_find(existing, shell::begin());
    text::lemma_find(existing, shell::end());
    let start = text::find(existing, shell::begin())->0;
    let pre = existing.take(start);
    assert(pre =~= existing.subrange(0, start));
    assert(!text::contains_text(pre, shell::begin())) by {
        if text::contains_text(pre, shell::begin()) {
            let j = choose|j: int| text::occurs_at(pre, shell::begin(), j);
            lemma_part(existing, shell::begin(), 0, start, j);
        }
    }
    assert(!text::contains_text(pre, shell::end())) by {
        if text::contains_text(pre, shell::end()) {
            let j = choose|j: int| text::occurs_at(pre, shell::end(), j);
            lemma_part(existing, shell::end(), 0, start, j);
        }
    }
    lemma_head_free(pre, shell::begin());
    lemma_head_free(pre, shell::end());
    let rest = behind_block(existing);
    lemma_find_behind(shell::head(pre), rest, shell::begin());
    lemma_find_behind(shell::head(pre), rest, shell::end());
}

/// A text with at most one opening marker has exactly one after an upsert whose body holds
/// none, and with the closing marker it is likewise.
pub proof fn law_upsert_leaves_one_block(existing: Seq<char>, body: Seq<char>)
    requires
        shell::upserted(existing, shell::begin(), shell::end(), body) is Some,
    ensures
        ({
            let with = shell::upserted(existing, shell::begin(), shell::end(), body)->0;
            &&& at_most_once(existing, shell::begin()) && !text::contains_text(
                body,
                shell::begin(),
            ) ==> once(with, shell::begin())
            &&& at_most_once(existing, shell::end()) && !text::contains_text(body, shell::end())
                ==> once(with, shell::end())
        }),
{
    lemma_one_marker(existing, body, shell::begin());
    lemma_one_marker(existing, body, shell::end());
}

proof fn lemma_one_marker(existing: Seq<char>, body: Seq<char>, pat: Seq<char>)
    requires
        shell::upserted(existing, shell::begin(), shell::end(), body) is Some,
        pat == shell::begin() || pat == shell::end(),
    ensures
        at_most_once(existing, pat) && !text::contains_text(body, pat) ==> once(
            shell::upserted(existing, shell::begin(), shell::end(), body)->0,
            pat,
        ),
{
    if at_most_once(existing, pat) && !text::contains_text(body, pat) {
        lemma_markers();
        let (pre, post) = lemma_upserted_shape(existing, body);
        let with = shell::upserted(existing, shell::begin(), shell::end(), body)->0;
        assert(with == pre + shell::block(shell::begin(), shell::end(), body) + post);
        lemma_trim(body);
        let t = text::trim_newlines(body);
        lemma_absent_prefix(body, pat, t.len() as int);
        let p = pre.len() as int;
        let q = p + 30 + t.len();
        let spot = if pat == shell::begin() {
            p
        } else {
            q
        };
        assert(with.subrange(0, p + 28) =~= pre + shell::begin());
        assert(with.subrange(p + 29, q - 1) =~= t);
        assert(with.subrange(q, q + 28) =~= shell::end());
        assert(with.subrange(q + 29, with.len() as int) =~= post);
        assert(with.subrange(p, p + 28) =~= shell::begin());
        assert(with[p + 28] == '\n');
        assert(with[q - 1] == '\n');
        assert(with[q + 28] == '\n');
        assert(text::occurs_at(with, pat, spot));
        assert forall|j: int| text::occurs_at(with, pat, j) implies j == spot by {
            lemma_newline_parts(with, pat, j, p + 28);
            lemma_newline_parts(with, pat, j, q - 1);
            lemma_newline_parts(with, pat, j, q + 28);
            if j <= p {
                lemma_part(with, pat, 0, p + 28, j);
                assert(text::occurs_at(pre + shell::begin(), pat, j));
            } else if j < q - 1 {
                lemma_part(with, pat, p + 29, q - 1, j);
                assert(text::occurs_at(t, pat, j - (p + 29)));
            } else if j == q {
                assert(with.subrange(q, q + 28) == pat);
            } else {
                lemma_part(with, pat, q + 29, with.len() as int, j);
                assert(text::occurs_at(post, pat, j - (q + 29)));
                lemma_none_behind(existing, pat);
            }
        }
    }
}

proof fn lemma_line_end_bounds(s: Seq<char>, from: int)
    requires
        0 <= from <= s.len(),
    ensures
        from <= text::line_end(s, from) <= s.len(),
    decreases s.len() - from,
{
    if from < s.len() && s[from] != '\n' {
        lemma_line_end_bounds(s, from + 1);
    }
}

/// `$SHELL` is read by its last component: whatever directory stands in front, `zsh` and
/// `bash` give their shells, and so do the bare names; everything else is refused.
pub proof fn law_shell_goes_by_its_last_component(dir: Seq<char>, value: Seq<char>)
    ensures
        shell::shell_of(dir + "/zsh"@) == Some(Shell::Zsh),
        shell::shell_of(dir + "/bash"@) == Some(Shell::Bash),
        shell::shell_of("zsh"@) == Some(Shell::Zsh),
        shell::shell_of("bash"@) == Some(Shell::Bash),
        shell::shell_of(value) == Some(Shell::Zsh) ==> value == "zsh"@ || (value.len() >= 4 && value
            == value.take(value.len() - 4) + "/zsh"@),
        shell::shell_of(value) == Some(Shell::Bash) ==> value == "bash"@ || (value.len() >= 5
            && value == value.take(value.len() - 5) + "/bash"@),
        value != "zsh"@ && value != "bash"@ && (forall|d: Seq<char>|
            value != #[trigger] (d + "/zsh"@) && value != d + "/bash"@) ==> shell::shell_of(value)
            is None,
{
    reveal_strlit("/zsh");
    reveal_strlit("/bash");
    reveal_strlit("zsh");
    reveal_strlit("bash");
    text::law_ends_with_what_was_appended(value, dir, "/zsh"@);
    text::law_ends_with_what_was_appended(value, dir, "/bash"@);
    let b = dir + "/bash"@;
    assert(b[b.len() - 3] == 'a');
    assert(b.skip(b.len() - 4)[1] == b[b.len() - 3]);
    assert("bash"@.skip(0)[1] == 'a');
    if text::ends_with(value, "/zsh"@) {
        let d = value.take(value.len() - 4);
        assert(value == d + "/zsh"@);
    }
    if text::ends_with(value, "/bash"@) {
        let d = value.take(value.len() - 5);
        assert(value == d + "/bash"@);
        assert(d + "/zsh"@ == d + "/zsh"@);
    }
}

/// The rc file stands in the home directory under its own name: one slash stands between the
/// two, and none is added where the directory ends with one or is empty.
pub proof fn law_rc_file_stands_in_the_directory(dir: Seq<u8>, name: Seq<u8>)
    ensures
        shell::joined(dir.push(0x2f), name) == dir.push(0x2f) + name,
        dir.len() > 0 && dir.last() != 0x2f ==> shell::joined(dir, name) == dir.push(0x2f) + name,
        shell::joined(Seq::empty(), name) == name,
{
    assert(Seq::<u8>::empty() + name =~= name);
}

/// The rc files are called `.zshrc` and `.bashrc`.
pub proof fn law_rc_files_have_their_names()
    ensures
        Shell::Zsh.rc_name().len() == ".zshrc"@.len(),
        forall|i: int|
            0 <= i < ".zshrc"@.len() ==> #[trigger] Shell::Zsh.rc_name()[i] as int
                == ".zshrc"@[i] as int,
        Shell::Bash.rc_name().len() == ".bashrc"@.len(),
        forall|i: int|
            0 <= i < ".bashrc"@.len() ==> #[trigger] Shell::Bash.rc_name()[i] as int
                == ".bashrc"@[i] as int,
{
    reveal_strlit(".zshrc");
    reveal_strlit(".bashrc");
}

/// Without either marker, an upsert keeps all the text and appends a block: the newline that
/// an unfinished last line lacks, a blank line, the opening marker's line, the body character
/// by character without the newlines at its end, and the closing marker's line.
pub proof fn law_upsert_appends_the_body(
    existing: Seq<char>,
    begin: Seq<char>,
    end: Seq<char>,
    inner: Seq<char>,
    n: nat,
)
    requires
        !text::contains_text(existing, begin),
        !text::contains_text(existing, end),
        inner.len() == 0 || inner.last() != '\n',
    ensures
        ({
            let finished = if existing.len() == 0 || existing.last() == '\n' {
                existing
            } else {
                existing.push('\n')
            };
            shell::upserted(existing, begin, end, inner + text::newlines(n)) == Some(
                finished.push('\n') + begin.push('\n') + inner.push('\n') + end.push('\n'),
            )
        }),
{
    text::law_trim_takes_newlines_only(inner, n);
    let finished = if existing.len() == 0 || existing.last() == '\n' {
        existing
    } else {
        existing.push('\n')
    };
    assert(existing + shell::gap(existing) + shell::block(begin, end, inner + text::newlines(n))
        =~= finished.push('\n') + begin.push('\n') + inner.push('\n') + end.push('\n'));
}

/// The line that holds position `from` of `s` reaches to `to`.
pub open spec fn is_line_rest(s: Seq<char>, from: int, to: int) -> bool {
    &&& 0 <= from <= to <= s.len()
    &&& to == s.len() && (forall|i: int| from <= i < to ==> s[i] != '\n') || (from < to && s[to - 1]
        == '\n' && forall|i: int| from <= i < to - 1 ==> s[i] != '\n')
}

proof fn lemma_line_rest(s: Seq<char>, from: int, to: int)
    requires
        is_line_rest(s, from, to),
    ensures
        text::line_end(s, from) == to,
    decreases to - from,
{
    if from < s.len() && s[from] != '\n' {
        lemma_line_rest(s, from + 1, to);
    }
}

/// With a well-formed block, an upsert keeps all that stands in front of the opening marker
/// and behind the line of the closing one. In between stand the opening marker's line, the
/// body character by character without the newlines at its end, and the closing marker's
/// line.
pub proof fn law_upsert_replaces_the_body(
    existing: Seq<char>,
    begin: Seq<char>,
    end: Seq<char>,
    start: int,
    stop: int,
    rest: int,
    inner: Seq<char>,
    n: nat,
)
    requires
        text::occurs_first_at(existing, begin, start),
        text::occurs_first_at(existing, end, stop),
        start < stop,
        is_line_rest(existing, stop, rest),
        inner.len() == 0 || inner.last() != '\n',
    ensures
        shell::upserted(existing, begin, end, inner + text::newlines(n)) == Some(
            existing.take(start) + begin.push('\n') + inner.push('\n') + end.push('\n')
                + existing.skip(rest),
        ),
{
    text::lemma_find_is(existing, begin, start);
    text::lemma_find_is(existing, end, stop);
    lemma_line_rest(existing, stop, rest);
    text::law_trim_takes_newlines_only(inner, n);
    assert(existing.take(start) + shell::block(begin, end, inner + text::newlines(n))
        + existing.skip(rest) =~= existing.take(start) + begin.push('\n') + inner.push('\n')
        + end.push('\n') + existing.skip(rest));
}

/// After a successful upsert the text between the line of the opening marker and the line of
/// the closing one is, character by character, the body without the newlines at its end:
/// wherever the block stands, it has the two marker lines in front of and behind just that.
pub proof fn law_block_holds_the_body_as_given(
    existing: Seq<char>,
    begin: Seq<char>,
    end: Seq<char>,
    inner: Seq<char>,
    n: nat,
)
    requires
        inner.len() == 0 || inner.last() != '\n',
        shell::upserted(existing, begin, end, inner + text::newlines(n)) is Some,
    ensures
        exists|pre: Seq<char>, post: Seq<char>|
            shell::upserted(existing, begin, end, inner + text::newlines(n)) == Some(
                #[trigger] (pre + begin.push('\n') + inner.push('\n') + end.push('\n') + post),
            ),
{
    text::lemma_find(existing, begin);
    text::lemma_find(existing, end);
    if let (Some(start), Some(stop)) = (text::find(existing, begin), text::find(existing, end)) {
        let rest = text::line_end(existing, stop);
        lemma_line_end_is_rest(existing, stop);
        law_upsert_replaces_the_body(existing, begin, end, start, stop, rest, inner, n);
    } else {
        law_upsert_appends_the_body(existing, begin, end, inner, n);
        let finished = if existing.len() == 0 || existing.last() == '\n' {
            existing
        } else {
            existing.push('\n')
        };
        let pre = finished.push('\n');
        let post = Seq::<char>::empty();
        assert(pre + begin.push('\n') + inner.push('\n') + end.push('\n') + post =~= pre
            + begin.push('\n') + inner.push('\n') + end.push('\n'));
    }
}

proof fn lemma_line_end_is_rest(s: Seq<char>, from: int)
    requires
        0 <= from <= s.len(),
    ensures
        is_line_rest(s, from, text::line_end(s, from)),
    decreases s.len() - from,
{
    if from < s.len() && s[from] != '\n' {
        lemma_line_end_is_rest(s, from + 1);
    }
}

/// An upsert is refused exactly where one marker stands without the other, or the first
/// closing one does not come after the first opening one.
pub proof fn law_upsert_refuses_malformed_markers(
    existing: Seq<char>,
    begin: Seq<char>,
    end: Seq<char>,
    body: Seq<char>,
    start: int,
    stop: int,
)
    ensures
        text::contains_text(existing, begin) != text::contains_text(existing, end)
            ==> shell::upserted(existing, begin, end, body) is None,
        !text::contains_text(existing, begin) && !text::contains_text(existing, end)
            ==> shell::upserted(existing, begin, end, body) is Some,
        text::occurs_first_at(existing, begin, start) && text::occurs_first_at(existing, end, stop)
            ==> (shell::upserted(existing, begin, end, body) is Some <==> start < stop),
{
    if text::occurs_first_at(existing, begin, start) && text::occurs_first_at(existing, end, stop) {
        text::lemma_find_is(existing, begin, start);
        text::lemma_find_is(existing, end, stop);
    }
}

/// Removing takes out all from the newlines in front of the opening marker to the end of the
/// closing marker's line, and ends the line in front with one newline; what stands before and
/// behind comes back character by character.
pub proof fn law_remove_takes_the_block_out(
    existing: Seq<char>,
    start: int,
    stop: int,
    rest: int,
    kept: Seq<char>,
    n: nat,
)
    requires
        text::occurs_first_at(existing, shell::begin(), start),
        text::occurs_first_at(existing, shell::end(), stop),
        start < stop,
        is_line_rest(existing, stop, rest),
        existing.take(start) == kept + text::newlines(n),
        kept.len() == 0 || kept.last() != '\n',
    ensures
        shell::removed(existing) == if kept.len() > 0 {
            kept.push('\n') + existing.skip(rest)
        } else {
            existing.skip(rest)
        },
{
    text::lemma_find_is(existing, shell::begin(), start);
    text::lemma_find_is(existing, shell::end(), stop);
    lemma_line_rest(existing, stop, rest);
    text::law_trim_takes_newlines_only(kept, n);
    if kept.len() == 0 {
        assert(kept + existing.skip(rest) =~= existing.skip(rest));
    }
}

/// A text without a well-formed block comes back from a removal as it is.
pub proof fn law_remove_leaves_other_text_alone(existing: Seq<char>, start: int, stop: int)
    ensures
        !text::contains_text(existing, shell::begin()) ==> shell::removed(existing) == existing,
        !text::contains_text(existing, shell::end()) ==> shell::removed(existing) == existing,
        text::occurs_first_at(existing, shell::begin(), start) && text::occurs_first_at(
            existing,
            shell::end(),
            stop,
        ) && stop <= start ==> shell::removed(existing) == existing,
{
    if text::occurs_first_at(existing, shell::begin(), start) && text::occurs_first_at(
        existing,
        shell::end(),
        stop,
    ) {
        text::lemma_find_is(existing, shell::begin(), start);
        text::lemma_find_is(existing, shell::end(), stop);
    }
}

/// The two markers are comment lines of `cs` that differ in their arrows alone.
pub proof fn law_markers_name_the_package()
    ensures
        shell::begin() == "# >>> cs ("@ + tool::command_name() + "-switch) >>>"@,
        shell::end() == "# <<< cs ("@ + tool::command_name() + "-switch) <<<"@,
{
}

/// The refusal of malformed markers quotes both of them.
pub proof fn law_refusal_quotes_the_markers(begin: Seq<char>, end: Seq<char>)
    ensures
        shell::malformed(begin, end) == ErrorOf::Config(
            "the cs wrapper markers in the rc file are malformed (one marker missing or out of order); fix or remove the `"@
                + begin + "` / `"@ + end + "` block manually, then re-run"@,
        ),
{
}

} // verus!
