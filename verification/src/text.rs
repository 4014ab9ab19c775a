//! Character sequences: searching, trimming and joining text.

use vstd::prelude::*;

verus! {

/// `pat` stands in `s` at position `i`.
pub open spec fn occurs_at(s: Seq<char>, pat: Seq<char>, i: int) -> bool {
    &&& 0 <= i
    &&& i + pat.len() <= s.len()
    &&& s.subrange(i, i + pat.len()) == pat
}

/// `pat` stands in `s` at position `i` and at no position before it.
pub open spec fn occurs_first_at(s: Seq<char>, pat: Seq<char>, i: int) -> bool {
    &&& occurs_at(s, pat, i)
    &&& forall|j: int| 0 <= j < i ==> !occurs_at(s, pat, j)
}

/// `pat` stands somewhere in `s`.
pub open spec fn contains_text(s: Seq<char>, pat: Seq<char>) -> bool {
    exists|i: int| occurs_at(s, pat, i)
}

/// The first position of `pat` in `s`, if there is one.
pub open spec fn find(s: Seq<char>, pat: Seq<char>) -> Option<int> {
    if contains_text(s, pat) {
        Some(choose|i: int| occurs_first_at(s, pat, i))
    } else {
        None
    }
}

/// `s` ends with `suffix`.
pub open spec fn ends_with(s: Seq<char>, suffix: Seq<char>) -> bool {
    &&& suffix.len() <= s.len()
    &&& s.skip(s.len() - suffix.len()) == suffix
}

/// `s` without the newlines at its end.
pub open spec fn trim_newlines(s: Seq<char>) -> Seq<char>
    decreases s.len(),
{
    if s.len() > 0 && s.last() == '\n' {
        trim_newlines(s.drop_last())
    } else {
        s
    }
}

/// The position just past the first newline of `s` at or after `from`, or the end of `s`.
pub open spec fn line_end(s: Seq<char>, from: int) -> int
    decreases s.len() - from,
{
    if from >= s.len() {
        s.len() as int
    } else if s[from] == '\n' {
        from + 1
    } else {
        line_end(s, from + 1)
    }
}

proof fn lemma_first_exists(s: Seq<char>, pat: Seq<char>, i: int)
    requires
        occurs_at(s, pat, i),
    ensures
        exists|k: int| occurs_first_at(s, pat, k),
    decreases i,
{
    if exists|j: int| 0 <= j < i && occurs_at(s, pat, j) {
        let j = choose|j: int| 0 <= j < i && occurs_at(s, pat, j);
        lemma_first_exists(s, pat, j);
    } else {
        assert(occurs_first_at(s, pat, i));
    }
}

/// `find` names a first occurrence whenever there is any occurrence.
pub proof fn lemma_find(s: Seq<char>, pat: Seq<char>)
    ensures
        match find(s, pat) {
            Some(i) => occurs_first_at(s, pat, i),
            None => forall|i: int| !occurs_at(s, pat, i),
        },
{
    if contains_text(s, pat) {
        let i = choose|i: int| occurs_at(s, pat, i);
        lemma_first_exists(s, pat, i);
    }
}

/// A first occurrence is what `find` names.
pub proof fn lemma_find_is(s: Seq<char>, pat: Seq<char>, i: int)
    requires
        occurs_first_at(s, pat, i),
    ensures
        find(s, pat) == Some(i),
{
    lemma_find(s, pat);
    let k = find(s, pat)->0;
    if k < i {
        assert(!occurs_at(s, pat, k));
    } else if i < k {
        assert(!occurs_at(s, pat, i));
    }
}

/// The characters of `s`.
pub fn chars_of(s: &str) -> (res: Vec<char>)
    ensures
        res@ == s@,
{
    let mut res: Vec<char> = Vec::new();
    for c in it: s.chars()
        invariant
            it.seq() == s@,
            res@ == s@.take(it.index()),
    {
        res.push(c);
    }
    res
}

/// The first position of `pat` in `s`, if there is one.
pub fn find_chars(s: &Vec<char>, pat: &Vec<char>) -> (res: Option<usize>)
    ensures
        match res {
            Some(i) => find(s@, pat@) == Some(i as int),
            None => find(s@, pat@) is None,
        },
{
    let n: usize = s.len();
    let mut i: usize = 0;
    while i <= n && pat.len() <= n - i
        invariant
            n == s@.len(),
            i <= n + 1,
            forall|j: int| 0 <= j < i ==> !occurs_at(s@, pat@, j),
        decreases n + 1 - i,
    {
        if matches_at(s, pat, i) {
            proof {
                lemma_find_is(s@, pat@, i as int);
            }
            return Some(i);
        }
        if i == n {
            return None;
        }
        i += 1;
    }
    None
}

/// Whether `pat` stands in `s` at position `i`.
pub fn matches_at(s: &Vec<char>, pat: &Vec<char>, i: usize) -> (res: bool)
    requires
        i + pat@.len() <= s@.len(),
    ensures
        res == occurs_at(s@, pat@, i as int),
{
    let n: usize = s.len();
    let mut k: usize = 0;
    while k < pat.len()
        invariant
            k <= pat@.len(),
            n == s@.len(),
            i + pat@.len() <= n,
            forall|j: int| 0 <= j < k ==> s@[i + j] == pat@[j],
        decreases pat@.len() - k,
    {
        if s[i + k] != pat[k] {
            assert(s@.subrange(i as int, i + pat@.len())[k as int] != pat@[k as int]);
            return false;
        }
        k += 1;
    }
    assert(s@.subrange(i as int, i + pat@.len()) =~= pat@);
    true
}

/// How many characters of `s` are left once the newlines at its end are gone.
pub fn trimmed_len(s: &Vec<char>) -> (res: usize)
    ensures
        res <= s@.len(),
        s@.take(res as int) == trim_newlines(s@),
{
    let mut n: usize = s.len();
    assert(s@.take(n as int) =~= s@);
    while n > 0 && s[n - 1] == '\n'
        invariant
            n <= s@.len(),
            trim_newlines(s@.take(n as int)) == trim_newlines(s@),
        decreases n,
    {
        assert(s@.take(n as int).drop_last() =~= s@.take(n - 1));
        n -= 1;
    }
    n
}

/// The position just past the first newline of `s` at or after `from`, or the end of `s`.
pub fn line_end_of(s: &Vec<char>, from: usize) -> (res: usize)
    requires
        from <= s@.len(),
    ensures
        res == line_end(s@, from as int),
        from <= res <= s@.len(),
{
    let n: usize = s.len();
    let mut i: usize = from;
    while i < n
        invariant
            n == s@.len(),
            from <= i <= n,
            line_end(s@, from as int) == line_end(s@, i as int),
        decreases n - i,
    {
        if s[i] == '\n' {
            return i + 1;
        }
        i += 1;
    }
    n
}

/// Whether two texts are the same.
pub fn same(a: &str, b: &str) -> (res: bool)
    ensures
        res == (a@ == b@),
{
    let a: Vec<char> = chars_of(a);
    let b: Vec<char> = chars_of(b);
    if a.len() != b.len() {
        return false;
    }
    let res: bool = matches_at(&a, &b, 0);
    assert(a@.subrange(0, a@.len() as int) =~= a@);
    res
}

/// Whether `s` ends with `suffix`.
pub fn has_suffix(s: &str, suffix: &str) -> (res: bool)
    ensures
        res == ends_with(s@, suffix@),
{
    let s: Vec<char> = chars_of(s);
    let suffix: Vec<char> = chars_of(suffix);
    if s.len() < suffix.len() {
        return false;
    }
    let at: usize = s.len() - suffix.len();
    assert(s@.subrange(at as int, s@.len() as int) =~= s@.skip(at as int));
    matches_at(&s, &suffix, at)
}

/// Two texts in a row.
pub fn join2(a: &str, b: &str) -> (res: String)
    ensures
        res@ == a@ + b@,
{
    let mut res: String = a.to_owned();
    res.append(b);
    res
}

/// Three texts in a row.
pub fn join3(a: &str, b: &str, c: &str) -> (res: String)
    ensures
        res@ == a@ + b@ + c@,
{
    let mut res: String = a.to_owned();
    res.append(b);
    res.append(c);
    res
}

/// Four texts in a row.
pub fn join4(a: &str, b: &str, c: &str, d: &str) -> (res: String)
    ensures
        res@ == a@ + b@ + c@ + d@,
{
    let mut res: String = join3(a, b, c);
    res.append(d);
    res
}

/// Five texts in a row.
pub fn join5(a: &str, b: &str, c: &str, d: &str, e: &str) -> (res: String)
    ensures
        res@ == a@ + b@ + c@ + d@ + e@,
{
    let mut res: String = join4(a, b, c, d);
    res.append(e);
    res
}

/// A decimal digit.
pub open spec fn digit(d: int) -> char {
    seq!['0', '1', '2', '3', '4', '5', '6', '7', '8', '9'][d]
}

/// A number in decimal digits.
pub open spec fn digits(n: nat) -> Seq<char>
    decreases n,
{
    if n < 10 {
        seq![digit(n as int)]
    } else {
        digits(n / 10).push(digit((n % 10) as int))
    }
}

/// A number in decimal digits, with its sign where it is negative.
pub open spec fn decimal(i: int) -> Seq<char> {
    if i < 0 {
        seq!['-'] + digits((-i) as nat)
    } else {
        digits(i as nat)
    }
}

fn digit_text(d: u64) -> (res: &'static str)
    requires
        d < 10,
    ensures
        res@ == seq![digit(d as int)],
{
    proof {
        reveal_strlit("0");
        reveal_strlit("1");
        reveal_strlit("2");
        reveal_strlit("3");
        reveal_strlit("4");
        reveal_strlit("5");
        reveal_strlit("6");
        reveal_strlit("7");
        reveal_strlit("8");
        reveal_strlit("9");
    }
    let res: &'static str = match d {
        0 => "0",
        1 => "1",
        2 => "2",
        3 => "3",
        4 => "4",
        5 => "5",
        6 => "6",
        7 => "7",
        8 => "8",
        _ => "9",
    };
    assert(res@ =~= seq![digit(d as int)]);
    res
}

fn digits_text(n: u64) -> (res: String)
    ensures
        res@ == digits(n as nat),
    decreases n,
{
    if n < 10 {
        return digit_text(n).to_owned();
    }
    let mut res: String = digits_text(n / 10);
    res.append(digit_text(n % 10));
    assert(res@ =~= digits(n as nat));
    res
}

/// A number in decimal digits.
pub fn decimal_text(i: i32) -> (res: String)
    ensures
        res@ == decimal(i as int),
{
    if i < 0 {
        let mut res: String = "-".to_owned();
        res.append(&digits_text((-(i as i64)) as u64));
        proof {
            reveal_strlit("-");
            assert(res@ =~= decimal(i as int));
        }
        res
    } else {
        digits_text(i as u64)
    }
}

/// `find` gives the least number of characters that stand in front of the pattern: the text
/// is some characters, the pattern and the rest, and with fewer in front it never is.
pub proof fn law_find_splits_the_text(s: Seq<char>, pat: Seq<char>, pre: Seq<char>, post: Seq<char>)
    ensures
        find(s, pat) matches Some(i) ==> {
            &&& 0 <= i
            &&& i + pat.len() <= s.len()
            &&& s == s.take(i) + pat + s.skip(i + pat.len())
        },
        s == pre + pat + post ==> find(s, pat) is Some && find(s, pat)->0 <= pre.len(),
{
    lemma_find(s, pat);
    if let Some(i) = find(s, pat) {
        assert(s.subrange(i, i + pat.len()) == pat);
        assert(s =~= s.take(i) + s.subrange(i, i + pat.len()) + s.skip(i + pat.len()));
    }
    if s == pre + pat + post {
        assert(s.subrange(pre.len() as int, (pre.len() + pat.len()) as int) =~= pat);
        assert(occurs_at(s, pat, pre.len() as int));
    }
}

/// A text ends with a suffix exactly where it is something in front of that suffix.
pub proof fn law_ends_with_what_was_appended(s: Seq<char>, pre: Seq<char>, suffix: Seq<char>)
    ensures
        ends_with(pre + suffix, suffix),
        ends_with(s, suffix) ==> s == s.take(s.len() - suffix.len()) + suffix,
{
    assert((pre + suffix).skip(pre.len() as int) =~= suffix);
    if ends_with(s, suffix) {
        assert(s =~= s.take(s.len() - suffix.len()) + s.skip(s.len() - suffix.len()));
    }
}

/// Newlines and nothing else.
pub open spec fn newlines(n: nat) -> Seq<char> {
    Seq::new(n, |i: int| '\n')
}

/// Trimming takes the newlines at the end and nothing else: a text that does not end with a
/// newline comes back from behind any number of them.
pub proof fn law_trim_takes_newlines_only(inner: Seq<char>, n: nat)
    requires
        inner.len() == 0 || inner.last() != '\n',
    ensures
        trim_newlines(inner + newlines(n)) == inner,
    decreases n,
{
    let s = inner + newlines(n);
    if n > 0 {
        assert(s.last() == '\n');
        assert(s.drop_last() =~= inner + newlines((n - 1) as nat));
        law_trim_takes_newlines_only(inner, (n - 1) as nat);
    } else {
        assert(s =~= inner);
    }
}

/// A line ends just past its newline, or where the text ends: up to there it holds no other
/// newline.
pub proof fn law_line_ends_at_its_newline(pre: Seq<char>, line: Seq<char>, post: Seq<char>)
    requires
        forall|i: int| 0 <= i < line.len() ==> line[i] != '\n',
    ensures
        line_end(pre + line + seq!['\n'] + post, pre.len() as int) == pre.len() + line.len() + 1,
        line_end(pre + line, pre.len() as int) == pre.len() + line.len(),
    decreases line.len(),
{
    let s = pre + line + seq!['\n'] + post;
    let t = pre + line;
    if line.len() > 0 {
        let next = pre.push(line[0]);
        let rest = line.skip(1);
        assert(s[pre.len() as int] == line[0]);
        assert(t[pre.len() as int] == line[0]);
        assert(s =~= next + rest + seq!['\n'] + post);
        assert(t =~= next + rest);
        assert forall|i: int| 0 <= i < rest.len() implies rest[i] != '\n' by {
            assert(rest[i] == line[i + 1]);
        }
        law_line_ends_at_its_newline(next, rest, post);
    } else {
        assert(s[pre.len() as int] == '\n');
    }
}

/// The number that decimal digits stand for.
pub open spec fn value(s: Seq<char>) -> int
    decreases s.len(),
{
    if s.len() == 0 {
        0
    } else {
        value(s.drop_last()) * 10 + (s.last() as int - '0' as int)
    }
}

/// The digits of a number stand for it, there is at least one of them, all of them are
/// decimal digits, and only the number zero begins with a zero.
pub proof fn law_digits_stand_for_the_number(n: nat)
    ensures
        value(digits(n)) == n,
        digits(n).len() > 0,
        forall|i: int| 0 <= i < digits(n).len() ==> '0' <= #[trigger] digits(n)[i] <= '9',
        digits(n)[0] == '0' ==> n == 0 && digits(n).len() == 1,
    decreases n,
{
    reveal_with_fuel(value, 2);
    if n >= 10 {
        law_digits_stand_for_the_number(n / 10);
        assert(digits(n).drop_last() =~= digits(n / 10));
        assert(digits(n)[0] == digits(n / 10)[0]);
    } else {
        assert(digits(n).drop_last() =~= Seq::<char>::empty());
    }
}

/// A negative number is a minus sign and the digits of its opposite; any other is its digits.
pub proof fn law_decimal_has_a_sign(n: nat)
    ensures
        decimal(n as int) == digits(n),
        n > 0 ==> decimal(-(n as int)) == seq!['-'] + digits(n),
{
}

} // verus!
