//! Text helpers over the characters of a string: Unicode whitespace,
//! trimming, and substring search.
use vstd::prelude::*;

verus! {

/// The Unicode `White_Space` property.
pub open spec fn is_whitespace(c: char) -> bool {
    let u = c as u32;
    ||| 0x09 <= u <= 0x0D
    ||| u == 0x20
    ||| u == 0x85
    ||| u == 0xA0
    ||| u == 0x1680
    ||| 0x2000 <= u <= 0x200A
    ||| u == 0x2028
    ||| u == 0x2029
    ||| u == 0x202F
    ||| u == 0x205F
    ||| u == 0x3000
}

/// Tests the Unicode `White_Space` property of `c`.
pub fn char_is_whitespace(c: char) -> (ws: bool)
    ensures
        ws == is_whitespace(c),
{
    let u = c as u32;
    (0x09 <= u && u <= 0x0D) || u == 0x20 || u == 0x85 || u == 0xA0 || u == 0x1680 || (0x2000
        <= u && u <= 0x200A) || u == 0x2028 || u == 0x2029 || u == 0x202F || u == 0x205F || u
        == 0x3000
}

/// `s` without its leading whitespace.
pub open spec fn trim_start(s: Seq<char>) -> Seq<char>
    decreases s.len(),
{
    if s.len() > 0 && is_whitespace(s[0]) {
        trim_start(s.drop_first())
    } else {
        s
    }
}

/// `s` without its trailing whitespace.
pub open spec fn trim_end(s: Seq<char>) -> Seq<char>
    decreases s.len(),
{
    if s.len() > 0 && is_whitespace(s.last()) {
        trim_end(s.drop_last())
    } else {
        s
    }
}

/// `s` without its leading and trailing whitespace.
pub open spec fn trim(s: Seq<char>) -> Seq<char> {
    trim_end(trim_start(s))
}

/// `pattern` occurs in `s` at position `i`.
pub open spec fn occurs_at(s: Seq<char>, pattern: Seq<char>, i: int) -> bool {
    0 <= i && i + pattern.len() <= s.len() && s.subrange(i, i + pattern.len()) == pattern
}

/// `pattern` occurs somewhere in `s`.
pub open spec fn contains_pattern(s: Seq<char>, pattern: Seq<char>) -> bool {
    exists|i: int| occurs_at(s, pattern, i)
}

/// The characters of `s`.
pub fn chars_of(s: &str) -> (chars: Vec<char>)
    ensures
        chars@ == s@,
{
    let mut chars: Vec<char> = Vec::new();
    for c in it: s.chars()
        invariant
            chars@ == it.seq().take(it.index() as int),
    {
        chars.push(c);
    }
    chars
}

/// `s` with whitespace dropped from the front of its suffix from `i` on.
proof fn lemma_trim_start_step(s: Seq<char>, i: int)
    requires
        0 <= i < s.len(),
        is_whitespace(s[i]),
    ensures
        trim_start(s.subrange(i, s.len() as int)) == trim_start(s.subrange(i + 1, s.len() as int)),
{
    assert(s.subrange(i, s.len() as int).drop_first() =~= s.subrange(i + 1, s.len() as int));
}

proof fn lemma_trim_end_step(t: Seq<char>, j: int)
    requires
        0 < j <= t.len(),
        is_whitespace(t[j - 1]),
    ensures
        trim_end(t.subrange(0, j)) == trim_end(t.subrange(0, j - 1)),
{
    assert(t.subrange(0, j).drop_last() =~= t.subrange(0, j - 1));
}

/// `s` with its leading and trailing Unicode whitespace removed.
pub fn trim_str(s: &str) -> (t: String)
    ensures
        t@ == trim(s@),
{
    let chars = chars_of(s);
    let n = chars.len();
    let mut i: usize = 0;
    assert(s@.subrange(0, n as int) =~= s@);
    while i < n && char_is_whitespace(chars[i])
        invariant
            chars@ == s@,
            n == s@.len(),
            i <= n,
            trim_start(s@) == trim_start(s@.subrange(i as int, n as int)),
        decreases n - i,
    {
        proof {
            lemma_trim_start_step(s@, i as int);
        }
        i = i + 1;
    }
    let ghost front = s@.subrange(i as int, n as int);
    assert(trim_start(s@) == front);
    let mut j: usize = n;
    assert(front.subrange(0, (n - i) as int) =~= front);
    while j > i && char_is_whitespace(chars[j - 1])
        invariant
            chars@ == s@,
            n == s@.len(),
            i <= j <= n,
            front == s@.subrange(i as int, n as int),
            trim_end(front) == trim_end(front.subrange(0, (j - i) as int)),
        decreases j,
    {
        proof {
            assert(front[(j - i) - 1] == s@[j - 1]);
            lemma_trim_end_step(front, (j - i) as int);
        }
        j = j - 1;
    }
    let ghost back = front.subrange(0, (j - i) as int);
    assert(back =~= s@.subrange(i as int, j as int));
    assert(trim_end(front) == back) by {
        if j > i {
            assert(back.last() == s@[j - 1]);
        }
    }
    let piece = s.substring_char(i, j);
    String::from_str(piece)
}

/// Tests whether `pattern` occurs in `s`.
pub fn contains_str(s: &str, pattern: &str) -> (found: bool)
    ensures
        found == contains_pattern(s@, pattern@),
{
    let text = chars_of(s);
    let pat = chars_of(pattern);
    let n = text.len();
    let m = pat.len();
    if m > n {
        assert forall|i: int| !occurs_at(s@, pattern@, i) by {}
        return false;
    }
    let mut i: usize = 0;
    while i <= n - m
        invariant
            text@ == s@,
            pat@ == pattern@,
            n == s@.len(),
            m == pattern@.len(),
            m <= n,
            i <= n - m + 1,
            forall|p: int| 0 <= p < i ==> !occurs_at(s@, pattern@, p),
        decreases n - i,
    {
        let mut j: usize = 0;
        while j < m && text[i + j] == pat[j]
            invariant
                text@ == s@,
                pat@ == pattern@,
                n == s@.len(),
                m == pattern@.len(),
                i + m <= n,
                j <= m,
                forall|q: int| 0 <= q < j ==> s@[i + q] == pattern@[q],
            decreases m - j,
        {
            j = j + 1;
        }
        if j == m {
            assert(s@.subrange(i as int, i + m) =~= pattern@);
            assert(occurs_at(s@, pattern@, i as int));
            return true;
        }
        assert(!occurs_at(s@, pattern@, i as int)) by {
            assert(s@.subrange(i as int, i + m)[j as int] == s@[i + j]);
        }
        i = i + 1;
    }
    assert forall|p: int| !occurs_at(s@, pattern@, p) by {
        if 0 <= p < i {
        }
    }
    false
}

/// `trim_start(s)` is a suffix of `s` that does not start with whitespace.
pub proof fn lemma_trim_start_suffix(s: Seq<char>)
    ensures
        trim_start(s).len() <= s.len(),
        trim_start(s) == s.subrange(s.len() - trim_start(s).len(), s.len() as int),
        trim_start(s).len() > 0 ==> !is_whitespace(trim_start(s)[0]),
    decreases s.len(),
{
    if s.len() > 0 && is_whitespace(s[0]) {
        lemma_trim_start_suffix(s.drop_first());
        assert(s.drop_first().subrange(
            s.drop_first().len() - trim_start(s).len(),
            s.drop_first().len() as int,
        ) =~= s.subrange(s.len() - trim_start(s).len(), s.len() as int));
    } else {
        assert(s.subrange(0, s.len() as int) =~= s);
    }
}

/// `trim_end(t)` is a prefix of `t` that does not end with whitespace.
pub proof fn lemma_trim_end_prefix(t: Seq<char>)
    ensures
        trim_end(t).len() <= t.len(),
        trim_end(t) == t.subrange(0, trim_end(t).len() as int),
        trim_end(t).len() > 0 ==> !is_whitespace(trim_end(t).last()),
    decreases t.len(),
{
    if t.len() > 0 && is_whitespace(t.last()) {
        lemma_trim_end_prefix(t.drop_last());
        assert(t.drop_last().subrange(0, trim_end(t).len() as int) =~= t.subrange(
            0,
            trim_end(t).len() as int,
        ));
    } else {
        assert(t.subrange(0, t.len() as int) =~= t);
    }
}

/// A trimmed text neither starts nor ends with whitespace.
pub proof fn lemma_trim_has_no_outer_whitespace(s: Seq<char>)
    ensures
        trim(s).len() > 0 ==> !is_whitespace(trim(s)[0]) && !is_whitespace(trim(s).last()),
{
    lemma_trim_start_suffix(s);
    lemma_trim_end_prefix(trim_start(s));
    if trim(s).len() > 0 {
        assert(trim(s)[0] == trim_start(s)[0]);
    }
}

/// Trimming twice is trimming once.
pub proof fn lemma_trim_idempotent(s: Seq<char>)
    ensures
        trim(trim(s)) == trim(s),
{
    lemma_trim_has_no_outer_whitespace(s);
    let r = trim(s);
    assert(trim_start(r) == r);
    assert(trim_end(r) == r);
}

proof fn lemma_trim_start_cuts(s: Seq<char>)
    ensures
        forall|q: int| 0 <= q < s.len() - trim_start(s).len() ==> is_whitespace(#[trigger] s[q]),
    decreases s.len(),
{
    lemma_trim_start_suffix(s);
    if s.len() > 0 && is_whitespace(s[0]) {
        lemma_trim_start_cuts(s.drop_first());
        assert forall|q: int| 0 <= q < s.len() - trim_start(s).len() implies is_whitespace(
            #[trigger] s[q],
        ) by {
            if q > 0 {
                assert(s[q] == s.drop_first()[q - 1]);
            }
        }
    }
}

proof fn lemma_trim_end_cuts(t: Seq<char>)
    ensures
        forall|q: int| trim_end(t).len() <= q < t.len() ==> is_whitespace(#[trigger] t[q]),
    decreases t.len(),
{
    lemma_trim_end_prefix(t);
    if t.len() > 0 && is_whitespace(t.last()) {
        lemma_trim_end_cuts(t.drop_last());
        assert forall|q: int| trim_end(t).len() <= q < t.len() implies is_whitespace(
            #[trigger] t[q],
        ) by {
            if q < t.len() - 1 {
                assert(t[q] == t.drop_last()[q]);
            }
        }
    }
}

/// Trimming keeps a contiguous piece of the text and cuts off only
/// whitespace at its two ends.
pub proof fn lemma_trim_cuts_only_whitespace(s: Seq<char>)
    ensures
        exists|i: int, j: int|
            0 <= i <= j <= s.len() && trim(s) == s.subrange(i, j) && (forall|q: int|
                0 <= q < i ==> is_whitespace(#[trigger] s[q])) && (forall|q: int|
                j <= q < s.len() ==> is_whitespace(#[trigger] s[q])),
{
    lemma_trim_start_suffix(s);
    lemma_trim_start_cuts(s);
    let u = trim_start(s);
    lemma_trim_end_prefix(u);
    lemma_trim_end_cuts(u);
    let i = s.len() - u.len();
    let j = i + trim_end(u).len();
    assert(trim(s) =~= s.subrange(i, j));
    assert forall|q: int| j <= q < s.len() implies is_whitespace(#[trigger] s[q]) by {
        assert(s[q] == u[q - i]);
    }
    assert(forall|q: int| 0 <= q < i ==> is_whitespace(#[trigger] s[q]));
}

} // verus!
