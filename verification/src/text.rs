//! Character-level text utilities, each proved against a short model of the
//! standard-library operation it stands for.
use vstd::prelude::*;

verus! {

/// The Unicode `White_Space` property, which `char::is_whitespace` tests.
pub open spec fn is_ws(c: char) -> bool {
    let u = c as u32;
    ||| 0x09 <= u <= 0x0D
    ||| u == 0x20
    ||| u == 0x85
    ||| u == 0xA0
    ||| u == 0x1680
    ||| 0x2000 <= u <= 0x200A
    ||| u == 0x2028
    ||| u == 0x2029
    ||| u == 0x202F
    ||| u == 0x205F
    ||| u == 0x3000
}

/// Whether `c` is Unicode white space.
pub fn is_whitespace(c: char) -> (b: bool)
    ensures
        b == is_ws(c),
{
    let u = c as u32;
    (0x09 <= u && u <= 0x0D) || u == 0x20 || u == 0x85 || u == 0xA0 || u == 0x1680 || (0x2000
        <= u && u <= 0x200A) || u == 0x2028 || u == 0x2029 || u == 0x202F || u == 0x205F || u
        == 0x3000
}

/// The characters of `s`, in order.
pub fn chars_of(s: &str) -> (v: Vec<char>)
    ensures
        v@ == s@,
{
    let mut v: Vec<char> = Vec::new();
    for c in it: s.chars()
        invariant
            v@ == it.seq().take(it.index()),
    {
        v.push(c);
    }
    v
}

/// `String::push`: appends one character.
#[verifier::external_body]
fn push_char(s: &mut String, c: char)
    ensures
        final(s)@ == old(s)@.push(c),
{
    s.push(c);
}

/// A `String` holding the characters `v[lo..hi]`.
pub fn string_from_chars(v: &[char], lo: usize, hi: usize) -> (s: String)
    requires
        lo <= hi <= v@.len(),
    ensures
        s@ == v@.subrange(lo as int, hi as int),
{
    let mut s = String::new();
    let mut i = lo;
    while i < hi
        invariant
            lo <= i <= hi <= v@.len(),
            s@ == v@.subrange(lo as int, i as int),
        decreases hi - i,
    {
        push_char(&mut s, v[i]);
        i = i + 1;
        assert(s@ =~= v@.subrange(lo as int, i as int));
    }
    s
}


/// `s` without its leading white space.
pub open spec fn trim_start(s: Seq<char>) -> Seq<char>
    decreases s.len(),
{
    if s.len() > 0 && is_ws(s[0]) {
        trim_start(s.drop_first())
    } else {
        s
    }
}

/// `s` without its trailing white space.
pub open spec fn trim_end(s: Seq<char>) -> Seq<char>
    decreases s.len(),
{
    if s.len() > 0 && is_ws(s.last()) {
        trim_end(s.drop_last())
    } else {
        s
    }
}

/// `str::trim`: `s` without leading and trailing white space.
pub open spec fn trim(s: Seq<char>) -> Seq<char> {
    trim_end(trim_start(s))
}

proof fn lemma_trim_start_bound(s: Seq<char>) -> (lo: int)
    ensures
        0 <= lo <= s.len(),
        trim_start(s) == s.skip(lo),
        forall|k: int| 0 <= k < lo ==> is_ws(#[trigger] s[k]),
        lo < s.len() ==> !is_ws(s[lo]),
    decreases s.len(),
{
    if s.len() > 0 && is_ws(s[0]) {
        let l = lemma_trim_start_bound(s.drop_first());
        assert(s.drop_first().skip(l) =~= s.skip(l + 1));
        assert forall|k: int| 0 <= k < l + 1 implies is_ws(#[trigger] s[k]) by {
            if k > 0 {
                assert(s[k] == s.drop_first()[k - 1]);
            }
        }
        l + 1
    } else {
        assert(s.skip(0) =~= s);
        0
    }
}

proof fn lemma_trim_end_bound(s: Seq<char>) -> (hi: int)
    ensures
        0 <= hi <= s.len(),
        trim_end(s) == s.take(hi),
        forall|k: int| hi <= k < s.len() ==> is_ws(#[trigger] s[k]),
        hi > 0 ==> !is_ws(s[hi - 1]),
    decreases s.len(),
{
    if s.len() > 0 && is_ws(s.last()) {
        let h = lemma_trim_end_bound(s.drop_last());
        assert(s.drop_last().take(h) =~= s.take(h));
        assert forall|k: int| h <= k < s.len() implies is_ws(#[trigger] s[k]) by {
            if k < s.len() - 1 {
                assert(s[k] == s.drop_last()[k]);
            }
        }
        h
    } else {
        assert(s.take(s.len() as int) =~= s);
        s.len() as int
    }
}

/// `trim` removes white space from the two ends of `s` and nothing else:
/// what it keeps is a contiguous piece of `s`, everything before and after
/// that piece is white space, and the piece neither starts nor ends with
/// white space.
pub proof fn lemma_trim_characterized(s: Seq<char>)
    ensures
        exists|lo: int, hi: int|
            0 <= lo <= hi <= s.len() && trim(s) == s.subrange(lo, hi) && (forall|k: int|
                0 <= k < lo ==> is_ws(#[trigger] s[k])) && (forall|k: int|
                hi <= k < s.len() ==> is_ws(#[trigger] s[k])),
        trim(s).len() > 0 ==> !is_ws(trim(s)[0]) && !is_ws(trim(s).last()),
{
    let lo = lemma_trim_start_bound(s);
    let t = s.skip(lo);
    let h = lemma_trim_end_bound(t);
    assert(t.take(h) =~= s.subrange(lo, lo + h));
    assert forall|k: int| lo + h <= k < s.len() implies is_ws(#[trigger] s[k]) by {
        assert(s[k] == t[k - lo]);
    }
    if trim(s).len() > 0 {
        assert(trim(s)[0] == s[lo]);
        assert(trim(s).last() == t[h - 1]);
    }
    assert(0 <= lo <= lo + h <= s.len() && trim(s) == s.subrange(lo, lo + h));
}

/// The bounds `(lo, hi)` of the trimmed part of `v`.
pub fn trim_bounds(v: &[char]) -> (r: (usize, usize))
    ensures
        r.0 <= r.1 <= v@.len(),
        v@.subrange(r.0 as int, r.1 as int) == trim(v@),
{
    let len = v.len();
    let mut lo: usize = 0;
    assert(v@.skip(0) =~= v@);
    while lo < len && is_whitespace(v[lo])
        invariant
            lo <= len == v@.len(),
            trim_start(v@) == trim_start(v@.skip(lo as int)),
        decreases len - lo,
    {
        assert(v@.skip(lo as int).drop_first() =~= v@.skip(lo + 1));
        lo = lo + 1;
    }
    assert(trim_start(v@) == v@.skip(lo as int));
    assert(v@.skip(lo as int) =~= v@.subrange(lo as int, len as int));
    let mut hi: usize = len;
    while hi > lo && is_whitespace(v[hi - 1])
        invariant
            lo <= hi <= len == v@.len(),
            trim(v@) == trim_end(v@.subrange(lo as int, hi as int)),
        decreases hi,
    {
        assert(v@.subrange(lo as int, hi as int).drop_last() =~= v@.subrange(
            lo as int,
            hi - 1,
        ));
        hi = hi - 1;
    }
    (lo, hi)
}

/// `str::trim` on owned text.
pub fn trimmed(s: &str) -> (t: String)
    ensures
        t@ == trim(s@),
{
    let v = chars_of(s);
    let (lo, hi) = trim_bounds(v.as_slice());
    string_from_chars(v.as_slice(), lo, hi)
}


/// `pat` occurs in `s` starting at index `i`.
pub open spec fn occurs_at(s: Seq<char>, pat: Seq<char>, i: int) -> bool {
    0 <= i && i + pat.len() <= s.len() && s.subrange(i, i + pat.len()) == pat
}

/// `str::contains` with a string pattern.
pub open spec fn contains_seq(s: Seq<char>, pat: Seq<char>) -> bool {
    exists|i: int| #[trigger] occurs_at(s, pat, i)
}

/// `str::starts_with` with a string pattern.
pub open spec fn starts_with(s: Seq<char>, pat: Seq<char>) -> bool {
    occurs_at(s, pat, 0)
}

/// Whether `pat` occurs in `s` at index `i`.
pub fn matches_at(s: &[char], pat: &[char], i: usize) -> (b: bool)
    ensures
        b == occurs_at(s@, pat@, i as int),
{
    if i > s.len() || pat.len() > s.len() - i {
        return false;
    }
    let mut j: usize = 0;
    while j < pat.len()
        invariant
            i + pat.len() <= s.len(),
            j <= pat@.len(),
            forall|k: int| 0 <= k < j ==> s@[i + k] == pat@[k],
        decreases pat@.len() - j,
    {
        if s[i + j] != pat[j] {
            assert(s@.subrange(i as int, i + pat@.len())[j as int] != pat@[j as int]);
            return false;
        }
        j = j + 1;
    }
    assert(s@.subrange(i as int, i + pat@.len()) =~= pat@);
    true
}

/// Whether `pat` occurs anywhere in `s`.
pub fn contains(s: &[char], pat: &[char]) -> (b: bool)
    ensures
        b == contains_seq(s@, pat@),
{
    if pat.len() > s.len() {
        assert forall|i: int| !occurs_at(s@, pat@, i) by {}
        return false;
    }
    let last = s.len() - pat.len();
    let mut i: usize = 0;
    while i < last
        invariant
            i <= last,
            last + pat@.len() == s@.len(),
            forall|k: int| 0 <= k < i ==> !#[trigger] occurs_at(s@, pat@, k),
        decreases last - i,
    {
        if matches_at(s, pat, i) {
            return true;
        }
        i = i + 1;
    }
    if matches_at(s, pat, last) {
        return true;
    }
    assert forall|k: int| !#[trigger] occurs_at(s@, pat@, k) by {
        if 0 <= k <= last {
        }
    }
    false
}

/// Whether `s` begins with `pat`.
pub fn has_prefix(s: &[char], pat: &[char]) -> (b: bool)
    ensures
        b == starts_with(s@, pat@),
{
    matches_at(s, pat, 0)
}


/// A copy of `v[lo..hi]`.
pub fn copy_range(v: &[char], lo: usize, hi: usize) -> (r: Vec<char>)
    requires
        lo <= hi <= v@.len(),
    ensures
        r@ == v@.subrange(lo as int, hi as int),
{
    let mut r: Vec<char> = Vec::new();
    let mut i = lo;
    while i < hi
        invariant
            lo <= i <= hi <= v@.len(),
            r@ == v@.subrange(lo as int, i as int),
        decreases hi - i,
    {
        r.push(v[i]);
        i = i + 1;
        assert(r@ =~= v@.subrange(lo as int, i as int));
    }
    r
}

/// Number of characters before the first line feed of `s` (all of them if
/// there is none).
pub open spec fn line_len(s: Seq<char>) -> nat
    decreases s.len(),
{
    if s.len() == 0 || s[0] == '\n' {
        0
    } else {
        1 + line_len(s.drop_first())
    }
}

/// A line without the carriage return that ended it.
pub open spec fn strip_cr(p: Seq<char>) -> Seq<char> {
    if p.len() > 0 && p.last() == '\r' {
        p.drop_last()
    } else {
        p
    }
}

/// `str::lines`: the pieces of `s` between line feeds, each without a
/// carriage return before its line feed; a final line feed ends the last line
/// rather than starting an empty one.
pub open spec fn lines(s: Seq<char>) -> Seq<Seq<char>>
    decreases s.len(),
{
    if s.len() == 0 {
        seq![]
    } else if line_len(s) < s.len() {
        seq![strip_cr(s.take(line_len(s) as int))] + lines(s.skip(line_len(s) + 1int))
    } else {
        seq![s]
    }
}

proof fn lemma_line_len_bound(s: Seq<char>)
    ensures
        line_len(s) <= s.len(),
        line_len(s) < s.len() ==> s[line_len(s) as int] == '\n',
        forall|k: int| 0 <= k < line_len(s) ==> s[k] != '\n',
    decreases s.len(),
{
    if s.len() > 0 && s[0] != '\n' {
        lemma_line_len_bound(s.drop_first());
        assert forall|k: int| 0 <= k < line_len(s) implies s[k] != '\n' by {
            if k > 0 {
                assert(s[k] == s.drop_first()[k - 1]);
            }
        }
    }
}

/// No line holds a line feed, and there is at most one line more than
/// there are line feeds in `s`.
pub proof fn lemma_lines_split_at_line_feeds(s: Seq<char>)
    ensures
        forall|i: int, k: int|
            0 <= i < lines(s).len() && 0 <= k < lines(s)[i].len() ==> #[trigger] lines(s)[i][k]
                != '\n',
        lines(s).len() <= line_feeds(s) + 1,
    decreases s.len(),
{
    if s.len() > 0 {
        lemma_line_len_bound(s);
        let n = line_len(s) as int;
        if n < s.len() {
            let rest = s.skip(n + 1);
            lemma_lines_split_at_line_feeds(rest);
            let first = strip_cr(s.take(n));
            let ls = lines(s);
            assert(ls == seq![first] + lines(rest));
            assert forall|i: int, k: int|
                0 <= i < ls.len() && 0 <= k < ls[i].len() implies #[trigger] ls[i][k] != '\n' by {
                if i == 0 {
                    assert(first[k] == s[k]);
                } else {
                    assert(ls[i] == lines(rest)[i - 1]);
                }
            }
            lemma_line_feeds_split(s, n);
        } else {
            assert(lines(s) == seq![s]);
            assert forall|i: int, k: int|
                0 <= i < lines(s).len() && 0 <= k < lines(s)[i].len() implies #[trigger] lines(s)[i][k]
                != '\n' by {
                assert(lines(s)[i] == s);
            }
        }
    }
}

/// The number of line feeds in `s`.
pub open spec fn line_feeds(s: Seq<char>) -> nat
    decreases s.len(),
{
    if s.len() == 0 {
        0
    } else {
        (if s[0] == '\n' {
            1nat
        } else {
            0nat
        }) + line_feeds(s.drop_first())
    }
}

proof fn lemma_line_feeds_split(s: Seq<char>, n: int)
    requires
        0 <= n < s.len(),
        s[n] == '\n',
    ensures
        line_feeds(s) >= 1 + line_feeds(s.skip(n + 1)),
    decreases n,
{
    if n == 0 {
        assert(s.drop_first() =~= s.skip(1));
    } else {
        lemma_line_feeds_split(s.drop_first(), n - 1);
        assert(s.drop_first().skip(n) =~= s.skip(n + 1));
    }
}

/// The length of the line that starts at `start`.
fn line_len_at(s: &[char], start: usize) -> (n: usize)
    requires
        start <= s@.len(),
    ensures
        n == line_len(s@.skip(start as int)),
        start + n <= s@.len(),
{
    let len = s.len();
    let mut j = start;
    while j < len && s[j] != '\n'
        invariant
            start <= j <= len == s@.len(),
            line_len(s@.skip(start as int)) == (j - start) + line_len(s@.skip(j as int)),
        decreases len - j,
    {
        assert(s@.skip(j as int).drop_first() =~= s@.skip(j + 1));
        j = j + 1;
    }
    j - start
}

/// Lines that report a failure: they hold `0x`, `error`, `failed` or `Error`.
pub open spec fn is_error_line(l: Seq<char>) -> bool {
    ||| contains_seq(l, "0x"@)
    ||| contains_seq(l, "error"@)
    ||| contains_seq(l, "failed"@)
    ||| contains_seq(l, "Error"@)
}

/// The first line of `ls` that reports a failure.
pub open spec fn first_error_line(ls: Seq<Seq<char>>) -> Option<Seq<char>>
    decreases ls.len(),
{
    if ls.len() == 0 {
        None
    } else if is_error_line(ls[0]) {
        Some(ls[0])
    } else {
        first_error_line(ls.drop_first())
    }
}

/// The first failure line is a line that reports a failure and comes before
/// every other such line; there is none exactly when no line reports one.
pub proof fn lemma_first_error_line_is_first(ls: Seq<Seq<char>>)
    ensures
        first_error_line(ls) matches Some(l) ==> exists|i: int|
            0 <= i < ls.len() && ls[i] == l && is_error_line(l) && forall|j: int|
                0 <= j < i ==> !is_error_line(#[trigger] ls[j]),
        first_error_line(ls) is None ==> forall|j: int|
            0 <= j < ls.len() ==> !is_error_line(#[trigger] ls[j]),
    decreases ls.len(),
{
    if ls.len() > 0 {
        let t = ls.drop_first();
        lemma_first_error_line_is_first(t);
        if is_error_line(ls[0]) {
            assert(0 <= 0 < ls.len() && ls[0] == ls[0]);
        } else {
            if let Some(l) = first_error_line(t) {
                let i = choose|i: int|
                    0 <= i < t.len() && t[i] == l && is_error_line(l) && forall|j: int|
                        0 <= j < i ==> !is_error_line(#[trigger] t[j]);
                assert(ls[i + 1] == l);
                assert forall|j: int| 0 <= j < i + 1 implies !is_error_line(#[trigger] ls[j]) by {
                    if j > 0 {
                        assert(ls[j] == t[j - 1]);
                    }
                }
            } else {
                assert forall|j: int| 0 <= j < ls.len() implies !is_error_line(#[trigger] ls[j]) by {
                    if j > 0 {
                        assert(ls[j] == t[j - 1]);
                    }
                }
            }
        }
    }
}

proof fn lemma_first_error_line_cons(x: Seq<char>, rest: Seq<Seq<char>>)
    ensures
        first_error_line(seq![x] + rest) == if is_error_line(x) {
            Some(x)
        } else {
            first_error_line(rest)
        },
{
    assert((seq![x] + rest)[0] == x);
    assert((seq![x] + rest).drop_first() =~= rest);
}

/// Whether the line `v` reports a failure.
pub fn error_line(v: &[char]) -> (b: bool)
    ensures
        b == is_error_line(v@),
{
    let p1 = chars_of("0x");
    let p2 = chars_of("error");
    let p3 = chars_of("failed");
    let p4 = chars_of("Error");
    contains(v, p1.as_slice()) || contains(v, p2.as_slice()) || contains(v, p3.as_slice())
        || contains(v, p4.as_slice())
}

/// The bounds of the first line of `s` that reports a failure.
pub fn find_error_line(s: &[char]) -> (r: Option<(usize, usize)>)
    ensures
        match r {
            Some((lo, hi)) => lo <= hi <= s@.len() && first_error_line(lines(s@)) == Some(
                s@.subrange(lo as int, hi as int),
            ),
            None => first_error_line(lines(s@)) is None,
        },
{
    let len = s.len();
    let mut start: usize = 0;
    assert(s@.skip(0) =~= s@);
    while start < len
        invariant
            start <= len == s@.len(),
            first_error_line(lines(s@)) == first_error_line(lines(s@.skip(start as int))),
        decreases len - start,
    {
        let ghost t = s@.skip(start as int);
        let n = line_len_at(s, start);
        let end = start + n;
        proof {
            lemma_line_len_bound(t);
        }
        let hi = if end < len && n > 0 && s[end - 1] == '\r' {
            end - 1
        } else {
            end
        };
        let line = copy_range(s, start, hi);
        proof {
            if n < t.len() {
                assert(t.take(n as int) =~= s@.subrange(start as int, end as int));
                if n > 0 && s@[end - 1] == '\r' {
                    assert(strip_cr(t.take(n as int)) =~= s@.subrange(start as int, hi as int));
                } else {
                    assert(strip_cr(t.take(n as int)) =~= s@.subrange(start as int, hi as int));
                }
                assert(t.skip(n + 1) =~= s@.skip(end + 1));
                lemma_first_error_line_cons(strip_cr(t.take(n as int)), lines(t.skip(n + 1)));
            } else {
                assert(t =~= s@.subrange(start as int, hi as int));
                lemma_first_error_line_cons(t, seq![]);
                assert(seq![t] + Seq::<Seq<char>>::empty() =~= seq![t]);
            }
        }
        if error_line(line.as_slice()) {
            return Some((start, hi));
        }
        if end < len {
            start = end + 1;
        } else {
            start = len;
            assert(s@.skip(len as int) =~= Seq::<char>::empty());
        }
    }
    None
}


/// Number of characters before the first white space of `s`.
pub open spec fn word_len(s: Seq<char>) -> nat
    decreases s.len(),
{
    if s.len() == 0 || is_ws(s[0]) {
        0
    } else {
        1 + word_len(s.drop_first())
    }
}

pub proof fn lemma_word_len_bound(s: Seq<char>)
    ensures
        word_len(s) <= s.len(),
        s.len() > 0 && !is_ws(s[0]) ==> word_len(s) >= 1,
    decreases s.len(),
{
    if s.len() > 0 && !is_ws(s[0]) {
        lemma_word_len_bound(s.drop_first());
    }
}

/// `str::split_whitespace`: the maximal runs of non-white-space characters
/// of `s`, in order.
pub open spec fn words(s: Seq<char>) -> Seq<Seq<char>>
    decreases s.len(),
{
    if s.len() == 0 {
        seq![]
    } else if is_ws(s[0]) {
        words(s.drop_first())
    } else {
        proof {
            lemma_word_len_bound(s);
        }
        seq![s.take(word_len(s) as int)] + words(s.skip(word_len(s) as int))
    }
}

/// The words of `ws` written one after the other.
pub open spec fn join_all(ws: Seq<Seq<char>>) -> Seq<char>
    decreases ws.len(),
{
    if ws.len() == 0 {
        seq![]
    } else {
        ws[0] + join_all(ws.drop_first())
    }
}

/// The characters of `s` that are not white space, in order.
pub open spec fn non_ws(s: Seq<char>) -> Seq<char>
    decreases s.len(),
{
    if s.len() == 0 {
        seq![]
    } else if is_ws(s[0]) {
        non_ws(s.drop_first())
    } else {
        seq![s[0]] + non_ws(s.drop_first())
    }
}

/// How many words start in `s`: characters that are not white space and
/// come first or right after white space (`after_ws` says whether what came
/// before `s` was white space).
pub open spec fn word_starts(s: Seq<char>, after_ws: bool) -> nat
    decreases s.len(),
{
    if s.len() == 0 {
        0
    } else if is_ws(s[0]) {
        word_starts(s.drop_first(), true)
    } else {
        (if after_ws {
            1nat
        } else {
            0nat
        }) + word_starts(s.drop_first(), false)
    }
}

proof fn lemma_non_ws_concat(a: Seq<char>, b: Seq<char>)
    ensures
        non_ws(a + b) == non_ws(a) + non_ws(b),
    decreases a.len(),
{
    if a.len() == 0 {
        assert(a + b =~= b);
        assert(non_ws(a) + non_ws(b) =~= non_ws(b));
    } else {
        lemma_non_ws_concat(a.drop_first(), b);
        assert((a + b).drop_first() =~= a.drop_first() + b);
        assert((a + b)[0] == a[0]);
        if !is_ws(a[0]) {
            assert(seq![a[0]] + (non_ws(a.drop_first()) + non_ws(b)) =~= seq![a[0]] + non_ws(
                a.drop_first(),
            ) + non_ws(b));
        }
    }
}

proof fn lemma_word_prefix(s: Seq<char>)
    ensures
        forall|k: int| 0 <= k < word_len(s) ==> !is_ws(#[trigger] s[k]),
        word_len(s) <= s.len(),
        word_len(s) < s.len() ==> is_ws(s[word_len(s) as int]),
        non_ws(s.take(word_len(s) as int)) == s.take(word_len(s) as int),
        forall|j: int|
            1 <= j <= word_len(s) ==> word_starts(#[trigger] s.skip(j), false) == word_starts(
                s.skip(word_len(s) as int),
                false,
            ),
    decreases s.len(),
{
    if s.len() > 0 && !is_ws(s[0]) {
        let t = s.drop_first();
        lemma_word_prefix(t);
        assert forall|k: int| 0 <= k < word_len(s) implies !is_ws(#[trigger] s[k]) by {
            if k > 0 {
                assert(s[k] == t[k - 1]);
            }
        }
        let n = word_len(s) as int;
        assert(s.take(n).drop_first() =~= t.take(n - 1));
        assert(s.take(n)[0] == s[0]);
        assert(non_ws(s.take(n)) =~= s.take(n));
        assert(t.skip(n - 1) =~= s.skip(n));
        assert forall|j: int| 1 <= j <= n implies word_starts(#[trigger] s.skip(j), false)
            == word_starts(s.skip(n), false) by {
            if j > 1 {
                assert(t.skip(j - 1) =~= s.skip(j));
            } else {
                assert(s.skip(1) =~= t);
                if n > 1 {
                    assert(t.skip(1) =~= s.skip(2));
                    assert(t[0] == s[1]);
                    assert(word_starts(t, false) == word_starts(t.skip(1), false)) by {
                        assert(t.drop_first() =~= t.skip(1));
                    }
                    assert(word_starts(t.skip(1), false) == word_starts(s.skip(n), false)) by {
                        assert(t.skip(1) =~= s.skip(2));
                    }
                } else {
                    assert(t =~= s.skip(n));
                }
            }
        }
    } else {
        assert(s.take(0) =~= Seq::<char>::empty());
    }
}

/// `words` splits `s` at white space and nowhere else: each word is
/// non-empty and holds no white space, the words written one after the
/// other are the characters of `s` that are not white space, and there are
/// as many words as places where a word starts.
pub proof fn lemma_words_characterized(s: Seq<char>)
    ensures
        forall|i: int|
            0 <= i < words(s).len() ==> (#[trigger] words(s)[i]).len() > 0 && forall|k: int|
                0 <= k < words(s)[i].len() ==> !is_ws(words(s)[i][k]),
        join_all(words(s)) == non_ws(s),
        words(s).len() == word_starts(s, true),
    decreases s.len(),
{
    if s.len() > 0 {
        if is_ws(s[0]) {
            lemma_words_characterized(s.drop_first());
        } else {
            lemma_word_len_bound(s);
            lemma_word_prefix(s);
            let n = word_len(s) as int;
            let w = s.take(n);
            let rest = s.skip(n);
            lemma_words_characterized(rest);
            let ws = words(s);
            assert(ws == seq![w] + words(rest));
            assert(ws[0] == w);
            assert(ws.drop_first() =~= words(rest));
            assert forall|i: int| 0 <= i < ws.len() implies (#[trigger] ws[i]).len() > 0 && forall|k: int|
                0 <= k < ws[i].len() ==> !is_ws(ws[i][k]) by {
                if i > 0 {
                    assert(ws[i] == words(rest)[i - 1]);
                } else {
                    assert forall|k: int| 0 <= k < w.len() implies !is_ws(w[k]) by {
                        assert(w[k] == s[k]);
                    }
                }
            }
            assert(s =~= w + rest);
            lemma_non_ws_concat(w, rest);
            // counting word starts
            assert(s.drop_first() =~= s.skip(1));
            if n < s.len() {
                assert(rest[0] == s[n]);
                assert(rest.drop_first() =~= rest.skip(1));
                assert(word_starts(rest, false) == word_starts(rest, true));
            } else {
                assert(rest.len() == 0);
            }
        }
    }
}

/// The views of a sequence of strings.
pub open spec fn string_views(v: Seq<String>) -> Seq<Seq<char>> {
    v.map_values(|x: String| x@)
}

proof fn lemma_string_views_push(v: Seq<String>, x: String)
    ensures
        string_views(v.push(x)) == string_views(v).push(x@),
{
    assert(string_views(v.push(x)) =~= string_views(v).push(x@));
}

/// The length of the word that starts at `start`.
fn word_len_at(s: &[char], start: usize) -> (n: usize)
    requires
        start <= s@.len(),
    ensures
        n == word_len(s@.skip(start as int)),
        start + n <= s@.len(),
{
    let len = s.len();
    let mut j = start;
    while j < len && !is_whitespace(s[j])
        invariant
            start <= j <= len == s@.len(),
            word_len(s@.skip(start as int)) == (j - start) + word_len(s@.skip(j as int)),
        decreases len - j,
    {
        assert(s@.skip(j as int).drop_first() =~= s@.skip(j + 1));
        j = j + 1;
    }
    j - start
}

/// The white-space separated words of `s`.
pub fn split_words(s: &[char]) -> (ws: Vec<String>)
    ensures
        string_views(ws@) == words(s@),
{
    let len = s.len();
    let mut ws: Vec<String> = Vec::new();
    let mut i: usize = 0;
    assert(s@.skip(0) =~= s@);
    assert(string_views(ws@) =~= Seq::<Seq<char>>::empty());
    while i < len
        invariant
            i <= len == s@.len(),
            words(s@) == string_views(ws@) + words(s@.skip(i as int)),
        decreases len - i,
    {
        let ghost t = s@.skip(i as int);
        if is_whitespace(s[i]) {
            assert(t.drop_first() =~= s@.skip(i + 1));
            i = i + 1;
        } else {
            let n = word_len_at(s, i);
            proof {
                lemma_word_len_bound(t);
            }
            let w = string_from_chars(s, i, i + n);
            proof {
                assert(t.take(n as int) =~= s@.subrange(i as int, i + n));
                assert(t.skip(n as int) =~= s@.skip(i + n));
                lemma_string_views_push(ws@, w);
                assert(string_views(ws@) + words(t) =~= string_views(ws@).push(w@) + words(
                    s@.skip(i + n),
                ));
            }
            ws.push(w);
            i = i + n;
        }
    }
    assert(s@.skip(len as int) =~= Seq::<char>::empty());
    assert(string_views(ws@) + Seq::<Seq<char>>::empty() =~= string_views(ws@));
    ws
}

/// `ws` with each repeated entry dropped, first occurrences kept in order.
pub open spec fn dedup(ws: Seq<Seq<char>>) -> Seq<Seq<char>>
    decreases ws.len(),
{
    if ws.len() == 0 {
        seq![]
    } else {
        let d = dedup(ws.drop_last());
        if d.contains(ws.last()) {
            d
        } else {
            d.push(ws.last())
        }
    }
}

/// What `dedup` keeps: every entry once, and nothing else.
pub proof fn lemma_dedup(ws: Seq<Seq<char>>)
    ensures
        dedup(ws).no_duplicates(),
        forall|x: Seq<char>| dedup(ws).contains(x) <==> ws.contains(x),
    decreases ws.len(),
{
    if ws.len() > 0 {
        let p = ws.drop_last();
        lemma_dedup(p);
        let d = dedup(p);
        assert forall|x: Seq<char>| ws.contains(x) <==> (p.contains(x) || x == ws.last()) by {
            if ws.contains(x) {
                let k = choose|k: int| 0 <= k < ws.len() && ws[k] == x;
                if k < ws.len() - 1 {
                    assert(p[k] == x);
                }
            }
            if p.contains(x) {
                let k = choose|k: int| 0 <= k < p.len() && p[k] == x;
                assert(ws[k] == x);
            }
            if x == ws.last() {
                assert(ws[ws.len() - 1] == x);
            }
        }
        if !d.contains(ws.last()) {
            let e = d.push(ws.last());
            assert forall|x: Seq<char>| e.contains(x) <==> (d.contains(x) || x == ws.last()) by {
                if e.contains(x) {
                    let k = choose|k: int| 0 <= k < e.len() && e[k] == x;
                    if k < d.len() {
                        assert(d[k] == x);
                    }
                }
                if d.contains(x) {
                    let k = choose|k: int| 0 <= k < d.len() && d[k] == x;
                    assert(e[k] == x);
                }
                if x == ws.last() {
                    assert(e[d.len() as int] == x);
                }
            }
            assert forall|i: int, j: int| 0 <= i < e.len() && 0 <= j < e.len() && i != j
                implies e[i] != e[j] by {
                if i < d.len() && j < d.len() {
                } else if i < d.len() {
                    assert(d.contains(e[i]));
                } else {
                    assert(d.contains(e[j]));
                }
            }
        }
    }
}

/// Whether `w` is among `v`.
fn contains_string(v: &Vec<String>, w: &String) -> (b: bool)
    ensures
        b == string_views(v@).contains(w@),
{
    let mut k: usize = 0;
    while k < v.len()
        invariant
            k <= v@.len(),
            forall|j: int| 0 <= j < k ==> v@[j]@ != w@,
        decreases v@.len() - k,
    {
        if v[k] == *w {
            assert(string_views(v@)[k as int] == w@);
            return true;
        }
        k = k + 1;
    }
    assert forall|j: int| 0 <= j < string_views(v@).len() implies string_views(v@)[j] != w@ by {
        assert(string_views(v@)[j] == v@[j]@);
    }
    false
}

/// The entries of `ws`, each once, in order of first occurrence.
pub fn distinct(ws: Vec<String>) -> (out: Vec<String>)
    ensures
        string_views(out@) == dedup(string_views(ws@)),
{
    let mut out: Vec<String> = Vec::new();
    let mut k: usize = 0;
    assert(string_views(ws@).take(0) =~= Seq::<Seq<char>>::empty());
    assert(string_views(out@) =~= Seq::<Seq<char>>::empty());
    while k < ws.len()
        invariant
            k <= ws@.len(),
            string_views(out@) == dedup(string_views(ws@).take(k as int)),
        decreases ws@.len() - k,
    {
        let ghost pre = string_views(ws@).take(k as int);
        let ghost next = string_views(ws@).take(k + 1);
        assert(next.drop_last() =~= pre);
        assert(next.last() == ws@[k as int]@);
        if !contains_string(&out, &ws[k]) {
            let w = ws[k].clone();
            proof {
                lemma_string_views_push(out@, w);
            }
            out.push(w);
        }
        k = k + 1;
    }
    assert(string_views(ws@).take(ws@.len() as int) =~= string_views(ws@));
    out
}

/// The digit `d` (below ten) as a character.
pub open spec fn digit_char(d: nat) -> char {
    ((48 + d) as u8) as char
}

/// The decimal digits of `n`, most significant first.
pub open spec fn nat_decimal(n: nat) -> Seq<char>
    decreases n,
{
    if n < 10 {
        seq![digit_char(n)]
    } else {
        nat_decimal(n / 10).push(digit_char(n % 10))
    }
}

/// The `Display` form of an integer: an optional minus sign, then its digits.
pub open spec fn int_decimal(n: int) -> Seq<char> {
    if n < 0 {
        seq!['-'] + nat_decimal((-n) as nat)
    } else {
        nat_decimal(n as nat)
    }
}

fn push_decimal(s: &mut String, n: u64)
    ensures
        final(s)@ == old(s)@ + nat_decimal(n as nat),
    decreases n,
{
    if n >= 10 {
        push_decimal(s, n / 10);
    }
    let d = (n % 10) as u8;
    push_char(s, (48 + d) as char);
    assert(final(s)@ =~= old(s)@ + nat_decimal(n as nat));
}

/// `i32`'s decimal `Display` form.
pub fn int_to_decimal(x: i32) -> (s: String)
    ensures
        s@ == int_decimal(x as int),
{
    let mut s = String::new();
    if x < 0 {
        push_char(&mut s, '-');
        let m = (0i64 - (x as i64)) as u64;
        push_decimal(&mut s, m);
    } else {
        push_decimal(&mut s, x as u64);
    }
    assert(s@ =~= int_decimal(x as int));
    s
}


/// `a` followed by `b`.
pub fn concat2(a: &str, b: &str) -> (s: String)
    ensures
        s@ == a@ + b@,
{
    let mut s = a.to_owned();
    s.append(b);
    s
}

/// `a`, then `b`, then `c`.
pub fn concat3(a: &str, b: &str, c: &str) -> (s: String)
    ensures
        s@ == a@ + b@ + c@,
{
    let mut s = a.to_owned();
    s.append(b);
    s.append(c);
    s
}

} // verus!
