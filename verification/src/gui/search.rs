//! Matching button names against the search box.

use vstd::prelude::*;

verus! {

/// What `str::to_lowercase` returns for a string with these characters.
pub uninterp spec fn lowercase(s: Seq<char>) -> Seq<char>;

/// Calls `str::to_lowercase`: every character mapped to its Unicode lowercase form. The
/// result depends on the characters alone; the mapping itself is not stated here.
#[verifier::external_body]
pub(crate) fn to_lowercase(s: &str) -> (lower: String)
    ensures
        lower@ == lowercase(s@),
{
    s.to_lowercase()
}

/// Whether `c` is white space: a character with the Unicode property `White_Space`, the
/// whitespace that `str::trim` removes.
pub open spec fn is_white_space(c: char) -> bool {
    let n = c as u32;
    ||| 0x9 <= n <= 0xd
    ||| n == 0x20
    ||| n == 0x85
    ||| n == 0xa0
    ||| n == 0x1680
    ||| 0x2000 <= n <= 0x200a
    ||| n == 0x2028
    ||| n == 0x2029
    ||| n == 0x202f
    ||| n == 0x205f
    ||| n == 0x3000
}

/// How many white-space characters `s` starts with.
pub open spec fn leading_white_space(s: Seq<char>) -> nat
    decreases s.len(),
{
    if s.len() > 0 && is_white_space(s[0]) {
        1 + leading_white_space(s.drop_first())
    } else {
        0
    }
}

/// How many white-space characters `s` ends with.
pub open spec fn trailing_white_space(s: Seq<char>) -> nat
    decreases s.len(),
{
    if s.len() > 0 && is_white_space(s.last()) {
        1 + trailing_white_space(s.drop_last())
    } else {
        0
    }
}

/// `s` without its leading and trailing white space.
pub open spec fn trimmed(s: Seq<char>) -> Seq<char> {
    let rest = s.skip(leading_white_space(s) as int);
    rest.take(rest.len() - trailing_white_space(rest))
}

/// Whether `c` is white space.
fn white_space(c: char) -> (ws: bool)
    ensures
        ws == is_white_space(c),
{
    let n: u32 = c as u32;
    (0x9 <= n && n <= 0xd) || n == 0x20 || n == 0x85 || n == 0xa0 || n == 0x1680 || (0x2000 <= n
        && n <= 0x200a) || n == 0x2028 || n == 0x2029 || n == 0x202f || n == 0x205f || n == 0x3000
}

/// A run of `a` white-space characters followed by something else (or by nothing) is the
/// leading white space.
proof fn lemma_leading_white_space(s: Seq<char>, a: int)
    requires
        0 <= a <= s.len(),
        forall|k: int| 0 <= k < a ==> is_white_space(#[trigger] s[k]),
        a == s.len() || !is_white_space(s[a]),
    ensures
        leading_white_space(s) == a,
    decreases a,
{
    if a > 0 {
        let rest = s.drop_first();
        assert forall|k: int| 0 <= k < a - 1 implies is_white_space(#[trigger] rest[k]) by {
            assert(rest[k] == s[k + 1]);
        }
        if a < s.len() {
            assert(rest[a - 1] == s[a]);
        }
        lemma_leading_white_space(rest, a - 1);
    }
}

/// A run of `b` white-space characters preceded by something else (or by nothing) is the
/// trailing white space.
proof fn lemma_trailing_white_space(s: Seq<char>, b: int)
    requires
        0 <= b <= s.len(),
        forall|k: int| s.len() - b <= k < s.len() ==> is_white_space(#[trigger] s[k]),
        b == s.len() || !is_white_space(s[s.len() - b - 1]),
    ensures
        trailing_white_space(s) == b,
    decreases b,
{
    if b > 0 {
        let rest = s.drop_last();
        assert forall|k: int| rest.len() - (b - 1) <= k < rest.len() implies is_white_space(
            #[trigger] rest[k],
        ) by {
            assert(rest[k] == s[k]);
        }
        if b < s.len() {
            assert(rest[rest.len() - (b - 1) - 1] == s[s.len() - b - 1]);
        }
        lemma_trailing_white_space(rest, b - 1);
    }
}

/// `s` without its leading and trailing white space, as `str::trim` gives it.
pub fn trim(s: &str) -> (t: &str)
    ensures
        t@ == trimmed(s@),
{
    let len: usize = s.unicode_len();
    let mut start: usize = 0;
    while start < len
        invariant
            len == s@.len(),
            start <= len,
            forall|k: int| 0 <= k < start ==> is_white_space(#[trigger] s@[k]),
        ensures
            start == len || !is_white_space(s@[start as int]),
        decreases len - start,
    {
        if !white_space(s.get_char(start)) {
            break;
        }
        start = start + 1;
    }
    let mut end: usize = len;
    while end > start
        invariant
            len == s@.len(),
            start <= end <= len,
            forall|k: int| end <= k < len ==> is_white_space(#[trigger] s@[k]),
        ensures
            end == start || !is_white_space(s@[end - 1]),
        decreases end - start,
    {
        if !white_space(s.get_char(end - 1)) {
            break;
        }
        end = end - 1;
    }
    proof {
        lemma_leading_white_space(s@, start as int);
        let rest = s@.skip(start as int);
        assert forall|k: int| rest.len() - (len - end) <= k < rest.len() implies is_white_space(
            #[trigger] rest[k],
        ) by {
            assert(rest[k] == s@[start + k]);
        }
        if end > start {
            assert(rest[rest.len() - (len - end) - 1] == s@[end - 1]);
        }
        lemma_trailing_white_space(rest, (len - end) as int);
        assert(rest.take(rest.len() - (len - end)) =~= s@.subrange(start as int, end as int));
    }
    s.substring_char(start, end)
}

/// The `len` characters of `hay` that start at `start`.
pub open spec fn window(hay: Seq<char>, start: int, len: int) -> Seq<char> {
    hay.subrange(start, start + len)
}

/// Whether `needle` occurs in `hay` as a run of consecutive characters.
pub open spec fn occurs_in(needle: Seq<char>, hay: Seq<char>) -> bool {
    exists|i: int|
        0 <= i <= hay.len() - needle.len() && #[trigger] window(hay, i, needle.len() as int)
            == needle
}

/// Whether the characters of `needle` appear in `hay` starting at `start`.
fn matches_at(hay: &str, needle: &str, start: usize, hay_len: usize, needle_len: usize) -> (m: bool)
    requires
        hay_len == hay@.len(),
        needle_len == needle@.len(),
        start + needle_len <= hay_len,
    ensures
        m == (hay@.subrange(start as int, start + needle_len) == needle@),
{
    let mut k: usize = 0;
    while k < needle_len
        invariant
            hay_len == hay@.len(),
            needle_len == needle@.len(),
            start + needle_len <= hay_len,
            k <= needle_len,
            forall|j: int| 0 <= j < k ==> hay@[start + j] == needle@[j],
        decreases needle_len - k,
    {
        if hay.get_char(start + k) != needle.get_char(k) {
            assert(hay@.subrange(start as int, start + needle_len)[k as int] != needle@[k as int]);
            return false;
        }
        k = k + 1;
    }
    assert(hay@.subrange(start as int, start + needle_len) =~= needle@);
    true
}

/// Whether `needle` occurs in `hay`.
pub fn contains_text(hay: &str, needle: &str) -> (found: bool)
    ensures
        found == occurs_in(needle@, hay@),
{
    let hay_len: usize = hay.unicode_len();
    let needle_len: usize = needle.unicode_len();
    if needle_len > hay_len {
        return false;
    }
    if needle_len == 0 {
        assert(window(hay@, 0, 0) =~= needle@);
        return true;
    }
    let count: usize = hay_len - needle_len + 1;
    let mut start: usize = 0;
    while start < count
        invariant
            hay_len == hay@.len(),
            needle_len == needle@.len(),
            0 < needle_len <= hay_len,
            count == hay_len - needle_len + 1,
            start <= count,
            forall|i: int| 0 <= i < start ==> #[trigger] window(hay@, i, needle_len as int) != needle@,
        decreases count - start,
    {
        if matches_at(hay, needle, start, hay_len, needle_len) {
            assert(window(hay@, start as int, needle_len as int) == needle@);
            return true;
        }
        start = start + 1;
    }
    false
}

/// The search term as it is compared: trimmed, then lowercased.
pub open spec fn search_term(search: Seq<char>) -> Seq<char> {
    lowercase(trimmed(search))
}

/// Whether a name matches the search term: the term is empty, or it occurs in the
/// lowercased name.
pub open spec fn name_matches(name: Seq<char>, term: Seq<char>) -> bool {
    term.len() == 0 || occurs_in(term, lowercase(name))
}

/// Whether `name` matches the already-prepared search `term`.
pub fn name_matches_term(name: &str, term: &str) -> (m: bool)
    ensures
        m == name_matches(name@, term@),
{
    if term.is_empty() {
        return true;
    }
    let lower = to_lowercase(name);
    contains_text(lower.as_str(), term)
}

/// Prepares the text of the search box for comparison.
pub fn prepare_search(search: &str) -> (term: String)
    ensures
        term@ == search_term(search@),
{
    to_lowercase(trim(search))
}

/// An empty term matches every name.
pub proof fn lemma_empty_term_matches(name: Seq<char>)
    ensures
        name_matches(name, Seq::<char>::empty()),
{
}

/// A term found anywhere in the lowercased name, at the start, in the middle or at the end,
/// makes the name match: "shift" matches "Left Shift" as well as "Shift".
pub proof fn lemma_match_anywhere(name: Seq<char>, term: Seq<char>, at: int)
    requires
        0 <= at,
        at + term.len() <= lowercase(name).len(),
        lowercase(name).subrange(at, at + term.len()) == term,
    ensures
        name_matches(name, term),
{
    assert(window(lowercase(name), at, term.len() as int) == term);
}

/// A name matches a non-empty term only where the term appears in the lowercased name as a
/// run of consecutive characters.
pub proof fn lemma_match_has_place(name: Seq<char>, term: Seq<char>)
    requires
        term.len() > 0,
        name_matches(name, term),
    ensures
        exists|at: int|
            0 <= at && at + term.len() <= lowercase(name).len() && #[trigger] lowercase(
                name,
            ).subrange(at, at + term.len()) == term,
{
    let at = choose|i: int|
        0 <= i <= lowercase(name).len() - term.len() && #[trigger] window(
            lowercase(name),
            i,
            term.len() as int,
        ) == term;
    assert(lowercase(name).subrange(at, at + term.len()) == term);
}


} // verus!
