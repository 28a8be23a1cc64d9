//! Character-level text operations used by the command parser: trimming
//! Unicode whitespace, prefix tests, equality and repeated prefix removal.
use vstd::prelude::*;

verus! {

/// Whether `c` has the Unicode `White_Space` property, which is what
/// `char::is_whitespace` (and so `str::trim`) tests.
pub open spec fn is_whitespace(c: char) -> bool {
    ||| ('\u{9}' <= c && c <= '\u{d}')
    ||| c == ' '
    ||| c == '\u{85}'
    ||| c == '\u{a0}'
    ||| c == '\u{1680}'
    ||| ('\u{2000}' <= c && c <= '\u{200a}')
    ||| c == '\u{2028}'
    ||| c == '\u{2029}'
    ||| c == '\u{202f}'
    ||| c == '\u{205f}'
    ||| c == '\u{3000}'
}

/// `s` without its leading whitespace.
pub open spec fn trim_start(s: Seq<char>) -> Seq<char>
    decreases s.len(),
{
    if s.len() > 0 && is_whitespace(s[0]) {
        trim_start(s.drop_first())
    } else {
        s
    }
}

/// `s` without its trailing whitespace.
pub open spec fn trim_end(s: Seq<char>) -> Seq<char>
    decreases s.len(),
{
    if s.len() > 0 && is_whitespace(s.last()) {
        trim_end(s.drop_last())
    } else {
        s
    }
}

/// `s` without leading and trailing whitespace.
pub open spec fn trim(s: Seq<char>) -> Seq<char> {
    trim_end(trim_start(s))
}

/// `s` after removing `p` from its front for as long as `s` starts with `p`
/// (what `str::trim_start_matches` does with a string pattern).
pub open spec fn strip_repeated_prefix(s: Seq<char>, p: Seq<char>) -> Seq<char>
    decreases s.len(),
{
    if p.len() > 0 && p.is_prefix_of(s) {
        strip_repeated_prefix(s.skip(p.len() as int), p)
    } else {
        s
    }
}

/// Decides `is_whitespace`.
pub fn char_is_whitespace(c: char) -> (r: bool)
    ensures
        r == is_whitespace(c),
{
    ('\u{9}' <= c && c <= '\u{d}') || c == ' ' || c == '\u{85}' || c == '\u{a0}' || c
        == '\u{1680}' || ('\u{2000}' <= c && c <= '\u{200a}') || c == '\u{2028}' || c
        == '\u{2029}' || c == '\u{202f}' || c == '\u{205f}' || c == '\u{3000}'
}

proof fn lemma_trim_start_skip(s: Seq<char>, i: int)
    requires
        0 <= i < s.len(),
        is_whitespace(s[i]),
    ensures
        trim_start(s.skip(i)) == trim_start(s.skip(i + 1)),
{
    assert(s.skip(i).drop_first() =~= s.skip(i + 1));
}

proof fn lemma_trim_end_take(s: Seq<char>, j: int)
    requires
        0 < j <= s.len(),
        is_whitespace(s[j - 1]),
    ensures
        trim_end(s.take(j)) == trim_end(s.take(j - 1)),
{
    assert(s.take(j).drop_last() =~= s.take(j - 1));
}

/// The text of `s` without leading and trailing whitespace (`str::trim`).
pub fn trimmed(s: &str) -> (r: &str)
    ensures
        r@ == trim(s@),
{
    let n = s.unicode_len();
    let mut i: usize = 0;
    assert(s@.skip(0) =~= s@);
    while i < n && char_is_whitespace(s.get_char(i))
        invariant
            n == s@.len(),
            i <= n,
            trim_start(s@) == trim_start(s@.skip(i as int)),
        decreases n - i,
    {
        proof {
            lemma_trim_start_skip(s@, i as int);
        }
        i = i + 1;
    }
    let ghost t = s@.skip(i as int);
    assert(trim_start(s@) == t);
    let mut j: usize = n;
    assert(t.take((n - i) as int) =~= t);
    while j > i && char_is_whitespace(s.get_char(j - 1))
        invariant
            n == s@.len(),
            i <= j <= n,
            t == s@.skip(i as int),
            trim_end(t) == trim_end(t.take(j - i)),
        decreases j,
    {
        proof {
            assert(t[j - i - 1] == s@[j - 1]);
            lemma_trim_end_take(t, (j - i) as int);
        }
        j = j - 1;
    }
    proof {
        if j > i {
            assert(t.take(j - i).last() == s@[j - 1]);
        }
    }
    let r = s.substring_char(i, j);
    assert(r@ =~= t.take(j - i));
    r
}

/// Whether `a` and `b` hold the same characters.
pub fn same_text(a: &str, b: &str) -> (r: bool)
    ensures
        r == (a@ == b@),
{
    let n = a.unicode_len();
    if n != b.unicode_len() {
        return false;
    }
    let mut i: usize = 0;
    while i < n
        invariant
            n == a@.len(),
            n == b@.len(),
            i <= n,
            forall|k: int| 0 <= k < i ==> a@[k] == b@[k],
        decreases n - i,
    {
        if a.get_char(i) != b.get_char(i) {
            return false;
        }
        i = i + 1;
    }
    assert(a@ =~= b@);
    true
}

/// Whether `s` starts with the characters of `p` (`str::starts_with`).
pub fn has_prefix(s: &str, p: &str) -> (r: bool)
    ensures
        r == p@.is_prefix_of(s@),
{
    let n = p.unicode_len();
    if n > s.unicode_len() {
        return false;
    }
    let mut i: usize = 0;
    while i < n
        invariant
            n == p@.len(),
            n <= s@.len(),
            i <= n,
            forall|k: int| 0 <= k < i ==> p@[k] == s@[k],
        decreases n - i,
    {
        if s.get_char(i) != p.get_char(i) {
            return false;
        }
        i = i + 1;
    }
    assert(p@ =~= s@.subrange(0, n as int));
    true
}

/// `s` after removing `p` from its front for as long as `s` starts with `p`
/// (`str::trim_start_matches` with a string pattern).
pub fn strip_prefix_repeatedly<'a>(s: &'a str, p: &str) -> (r: &'a str)
    ensures
        r@ == strip_repeated_prefix(s@, p@),
{
    let n = s.unicode_len();
    let m = p.unicode_len();
    let mut rest: &'a str = s;
    let mut i: usize = 0;
    assert(s@.skip(0) =~= s@);
    if m == 0 {
        return s;
    }
    while has_prefix(rest, p)
        invariant
            n == s@.len(),
            m == p@.len(),
            m > 0,
            i <= n,
            rest@ == s@.skip(i as int),
            strip_repeated_prefix(s@, p@) == strip_repeated_prefix(rest@, p@),
        decreases n - i,
    {
        assert(rest@.skip(m as int) =~= s@.skip(i + m));
        rest = s.substring_char(i + m, n);
        i = i + m;
        assert(rest@ =~= s@.skip(i as int));
    }
    rest
}

/// Leading whitespace does not survive `trim_start`.
pub proof fn lemma_trim_start_whitespace_prefix(ws: Seq<char>, s: Seq<char>)
    requires
        forall|i: int| 0 <= i < ws.len() ==> is_whitespace(#[trigger] ws[i]),
    ensures
        trim_start(ws + s) == trim_start(s),
    decreases ws.len(),
{
    if ws.len() > 0 {
        assert((ws + s).drop_first() =~= ws.drop_first() + s);
        assert((ws + s)[0] == ws[0]);
        lemma_trim_start_whitespace_prefix(ws.drop_first(), s);
    } else {
        assert(ws + s =~= s);
    }
}

/// Trailing whitespace does not survive `trim_end`.
pub proof fn lemma_trim_end_whitespace_suffix(s: Seq<char>, ws: Seq<char>)
    requires
        forall|i: int| 0 <= i < ws.len() ==> is_whitespace(#[trigger] ws[i]),
    ensures
        trim_end(s + ws) == trim_end(s),
    decreases ws.len(),
{
    if ws.len() > 0 {
        assert((s + ws).drop_last() =~= s + ws.drop_last());
        assert((s + ws).last() == ws.last());
        lemma_trim_end_whitespace_suffix(s, ws.drop_last());
    } else {
        assert(s + ws =~= s);
    }
}

/// Text that neither starts nor ends with whitespace is its own trim, and
/// keeps being so with whitespace added around it.
pub proof fn lemma_trim_surrounded(lead: Seq<char>, s: Seq<char>, trail: Seq<char>)
    requires
        forall|i: int| 0 <= i < lead.len() ==> is_whitespace(#[trigger] lead[i]),
        forall|i: int| 0 <= i < trail.len() ==> is_whitespace(#[trigger] trail[i]),
        s.len() > 0 ==> !is_whitespace(s[0]) && !is_whitespace(s.last()),
    ensures
        trim(lead + s + trail) == s,
        trim(s) == s,
{
    let t = s + trail;
    assert(lead + s + trail =~= lead + t);
    lemma_trim_start_whitespace_prefix(lead, t);
    if s.len() > 0 {
        assert(t[0] == s[0]);
        assert(trim_start(t) == t);
        assert(trim_start(s) == s);
    } else {
        assert(t =~= trail);
        assert(s + trail =~= trail);
        lemma_trim_start_whitespace_prefix(trail, Seq::<char>::empty());
        assert(trail + Seq::<char>::empty() =~= trail);
        assert(trim_start(Seq::<char>::empty()) == Seq::<char>::empty());
    }
    lemma_trim_end_whitespace_suffix(s, trail);
    if s.len() == 0 {
        assert(trim_end(s) == s);
    }
}

/// Removing a prefix repeatedly takes off every leading copy of it, and
/// nothing else: a leading copy goes, and text that does not start with the
/// prefix stays as it is.
pub proof fn strip_repeated_prefix_removes_every_copy(p: Seq<char>, s: Seq<char>)
    requires
        p.len() > 0,
    ensures
        strip_repeated_prefix(p + s, p) == strip_repeated_prefix(s, p),
        !p.is_prefix_of(s) ==> strip_repeated_prefix(s, p) == s,
{
    assert((p + s).subrange(0, p.len() as int) =~= p);
    assert((p + s).skip(p.len() as int) =~= s);
}

} // verus!
