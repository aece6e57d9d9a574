//! Character-level text operations that the rest of the library is stated in:
//! whitespace, trimming, blankness and equality of strings.

use vstd::prelude::*;

verus! {

/// Whether `c` has the Unicode `White_Space` property, the property that
/// `char::is_whitespace` and `str::trim` go by.
pub open spec fn is_ws(c: char) -> bool {
    ||| ('\u{9}' <= c && c <= '\u{d}')
    ||| c == ' '
    ||| c == '\u{85}'
    ||| c == '\u{a0}'
    ||| c == '\u{1680}'
    ||| ('\u{2000}' <= c && c <= '\u{200a}')
    ||| c == '\u{2028}'
    ||| c == '\u{2029}'
    ||| c == '\u{202f}'
    ||| c == '\u{205f}'
    ||| c == '\u{3000}'
}

/// `s` without its leading whitespace.
pub open spec fn trim_start(s: Seq<char>) -> Seq<char>
    decreases s.len(),
{
    if s.len() > 0 && is_ws(s[0]) {
        trim_start(s.drop_first())
    } else {
        s
    }
}

/// `s` without its trailing whitespace.
pub open spec fn trim_end(s: Seq<char>) -> Seq<char>
    decreases s.len(),
{
    if s.len() > 0 && is_ws(s.last()) {
        trim_end(s.drop_last())
    } else {
        s
    }
}

/// `s` without leading and trailing whitespace, as `str::trim` gives it.
pub open spec fn trim(s: Seq<char>) -> Seq<char> {
    trim_end(trim_start(s))
}

/// `s` holds whitespace only (or nothing).
pub open spec fn is_blank(s: Seq<char>) -> bool {
    forall|i: int| 0 <= i < s.len() ==> is_ws(#[trigger] s[i])
}

pub fn char_is_ws(c: char) -> (r: bool)
    ensures
        r == is_ws(c),
{
    ('\u{9}' <= c && c <= '\u{d}') || c == ' ' || c == '\u{85}' || c == '\u{a0}' || c
        == '\u{1680}' || ('\u{2000}' <= c && c <= '\u{200a}') || c == '\u{2028}' || c
        == '\u{2029}' || c == '\u{202f}' || c == '\u{205f}' || c == '\u{3000}'
}

/// Skipping a run of leading whitespace does not change `trim_start`.
proof fn lemma_trim_start_skip(s: Seq<char>, k: int)
    requires
        0 <= k <= s.len(),
        forall|i: int| 0 <= i < k ==> is_ws(#[trigger] s[i]),
    ensures
        trim_start(s) == trim_start(s.subrange(k, s.len() as int)),
    decreases k,
{
    if k == 0 {
        assert(s.subrange(0, s.len() as int) =~= s);
    } else {
        let t = s.drop_first();
        assert forall|i: int| 0 <= i < k - 1 implies is_ws(#[trigger] t[i]) by {
            assert(t[i] == s[i + 1]);
        }
        lemma_trim_start_skip(t, k - 1);
        assert(t.subrange(k - 1, t.len() as int) =~= s.subrange(k, s.len() as int));
    }
}

/// Skipping a run of trailing whitespace does not change `trim_end`.
proof fn lemma_trim_end_skip(s: Seq<char>, k: int)
    requires
        0 <= k <= s.len(),
        forall|i: int| k <= i < s.len() ==> is_ws(#[trigger] s[i]),
    ensures
        trim_end(s) == trim_end(s.subrange(0, k)),
    decreases s.len() - k,
{
    if k == s.len() {
        assert(s.subrange(0, k) =~= s);
    } else {
        let t = s.drop_last();
        assert(is_ws(s[s.len() - 1]));
        assert forall|i: int| k <= i < t.len() implies is_ws(#[trigger] t[i]) by {
            assert(t[i] == s[i]);
        }
        lemma_trim_end_skip(t, k);
        assert(t.subrange(0, k) =~= s.subrange(0, k));
    }
}

/// Trimming keeps exactly what lies between the first and the last character
/// that is not whitespace, inner whitespace included: when `s[i]` is the first
/// such character and `s[j - 1]` the last, `trim(s)` is `s[i..j]`.
pub proof fn law_trim_keeps_the_inside(s: Seq<char>, i: int, j: int)
    requires
        0 <= i < j <= s.len(),
        !is_ws(s[i]),
        !is_ws(s[j - 1]),
        forall|k: int| 0 <= k < i ==> is_ws(#[trigger] s[k]),
        forall|k: int| j <= k < s.len() ==> is_ws(#[trigger] s[k]),
    ensures
        trim(s) == s.subrange(i, j),
{
    lemma_trim_start_skip(s, i);
    let t = s.subrange(i, s.len() as int);
    assert(trim_start(t) == t);
    assert forall|k: int| j - i <= k < t.len() implies is_ws(#[trigger] t[k]) by {
        assert(t[k] == s[k + i]);
    }
    lemma_trim_end_skip(t, j - i);
    let u = t.subrange(0, j - i);
    assert(u.last() == s[j - 1]);
    assert(trim_end(u) == u);
    assert(u =~= s.subrange(i, j));
}

/// A sequence is blank exactly when trimming leaves nothing.
pub proof fn lemma_blank_iff_trim_empty(s: Seq<char>)
    ensures
        is_blank(s) <==> trim(s).len() == 0,
    decreases s.len(),
{
    if s.len() > 0 {
        if is_ws(s[0]) {
            let t = s.drop_first();
            lemma_blank_iff_trim_empty(t);
            if is_blank(s) {
                assert forall|i: int| 0 <= i < t.len() implies is_ws(#[trigger] t[i]) by {
                    assert(t[i] == s[i + 1]);
                }
            }
            if is_blank(t) {
                assert forall|i: int| 0 <= i < s.len() implies is_ws(#[trigger] s[i]) by {
                    if i > 0 {
                        assert(s[i] == t[i - 1]);
                    }
                }
            }
        } else {
            assert(!is_blank(s));
            assert(trim_start(s) == s);
            lemma_trim_end_keeps_first(s);
        }
    }
}

/// Trimming the end of a sequence whose first element is not whitespace keeps
/// that element.
proof fn lemma_trim_end_keeps_first(s: Seq<char>)
    requires
        s.len() > 0,
        !is_ws(s[0]),
    ensures
        trim_end(s).len() > 0,
        trim_end(s)[0] == s[0],
    decreases s.len(),
{
    if is_ws(s.last()) {
        let t = s.drop_last();
        assert(s.len() > 1);
        lemma_trim_end_keeps_first(t);
    }
}

/// The characters of `s`, one per element.
fn chars_of(s: &str) -> (v: Vec<char>)
    ensures
        v@ == s@,
{
    let n = s.unicode_len();
    let mut v: Vec<char> = Vec::new();
    let mut i: usize = 0;
    while i < n
        invariant
            n == s@.len(),
            i <= n,
            v@ == s@.subrange(0, i as int),
        decreases n - i,
    {
        let c = s.get_char(i);
        v.push(c);
        i = i + 1;
        assert(v@ =~= s@.subrange(0, i as int));
    }
    assert(s@.subrange(0, n as int) =~= s@);
    v
}

/// Whether two strings hold the same characters.
pub fn str_eq(a: &str, b: &str) -> (r: bool)
    ensures
        r == (a@ == b@),
{
    let ca = chars_of(a);
    let cb = chars_of(b);
    if ca.len() != cb.len() {
        return false;
    }
    let mut i: usize = 0;
    while i < ca.len()
        invariant
            ca@ == a@,
            cb@ == b@,
            ca.len() == cb.len(),
            i <= ca.len(),
            forall|j: int| 0 <= j < i ==> ca@[j] == cb@[j],
        decreases ca.len() - i,
    {
        if ca[i] != cb[i] {
            return false;
        }
        i = i + 1;
    }
    assert(a@ =~= b@);
    true
}

/// `s` with leading and trailing whitespace removed.
pub fn trimmed(s: &str) -> (r: String)
    ensures
        r@ == trim(s@),
{
    let cs = chars_of(s);
    let n = cs.len();
    let mut i: usize = 0;
    while i < n && char_is_ws(cs[i])
        invariant
            cs@ == s@,
            n == cs.len(),
            i <= n,
            forall|k: int| 0 <= k < i ==> is_ws(#[trigger] cs@[k]),
        decreases n - i,
    {
        i = i + 1;
    }
    let mut j: usize = n;
    while j > i && char_is_ws(cs[j - 1])
        invariant
            cs@ == s@,
            n == cs.len(),
            i <= j <= n,
            forall|k: int| j <= k < n ==> is_ws(#[trigger] cs@[k]),
        decreases j - i,
    {
        j = j - 1;
    }
    proof {
        let sq = s@;
        lemma_trim_start_skip(sq, i as int);
        let t = sq.subrange(i as int, n as int);
        if i < n {
            assert(!is_ws(sq[i as int]));
            assert(t[0] == sq[i as int]);
        }
        assert(trim_start(t) == t);
        assert forall|k: int| (j - i) <= k < t.len() implies is_ws(#[trigger] t[k]) by {
            assert(t[k] == sq[k + i]);
        }
        lemma_trim_end_skip(t, j - i);
        let u = t.subrange(0, j - i);
        if j > i {
            assert(u.last() == sq[j - 1]);
            assert(!is_ws(sq[j - 1]));
        }
        assert(trim_end(u) == u);
        assert(u =~= sq.subrange(i as int, j as int));
    }
    let part = s.substring_char(i, j);
    String::from_str(part)
}

/// Whether `s` holds whitespace only.
pub fn blank(s: &str) -> (r: bool)
    ensures
        r == is_blank(s@),
        r == (trim(s@).len() == 0),
{
    proof {
        lemma_blank_iff_trim_empty(s@);
    }
    let t = trimmed(s);
    t.as_str().is_empty()
}

} // verus!
