use vstd::prelude::*;
use vstd::string::StrSliceExecFns;

verus! {

/// The characters with the Unicode `White_Space` property, the set that
/// `str::trim` strips from both ends of a string.
pub open spec fn is_ws_char(c: char) -> bool {
    c == ' ' || c == '\t' || c == '\n' || c == '\r' || c == '\u{b}' || c == '\u{c}'
        || c == '\u{85}' || c == '\u{a0}' || c == '\u{1680}'
        || ('\u{2000}' <= c && c <= '\u{200a}')
        || c == '\u{2028}' || c == '\u{2029}' || c == '\u{202f}' || c == '\u{205f}'
        || c == '\u{3000}'
}

/// Length of the whitespace prefix of `s`.
pub open spec fn ws_prefix_len(s: Seq<char>) -> nat
    decreases s.len(),
{
    if s.len() == 0 {
        0
    } else if is_ws_char(s[0]) {
        1 + ws_prefix_len(s.drop_first())
    } else {
        0
    }
}

/// Length of the whitespace suffix of `s`.
pub open spec fn ws_suffix_len(s: Seq<char>) -> nat
    decreases s.len(),
{
    if s.len() == 0 {
        0
    } else if is_ws_char(s.last()) {
        1 + ws_suffix_len(s.drop_last())
    } else {
        0
    }
}

/// `s` with leading and trailing whitespace removed.
pub open spec fn spec_trimmed(s: Seq<char>) -> Seq<char> {
    if ws_prefix_len(s) == s.len() {
        Seq::empty()
    } else {
        s.subrange(ws_prefix_len(s) as int, s.len() - ws_suffix_len(s))
    }
}

/// `ws_prefix_len` is the unique cut point with only whitespace before it
/// and, unless the whole string is whitespace, a non-whitespace character at it.
proof fn lemma_ws_prefix_char(s: Seq<char>, i: nat)
    requires
        i <= s.len(),
        forall|k: int| 0 <= k < i ==> is_ws_char(s[k]),
        i == s.len() || !is_ws_char(s[i as int]),
    ensures
        ws_prefix_len(s) == i,
    decreases i,
{
    if i == 0 {
        assert(s.len() == 0 || !is_ws_char(s[0]));
    } else {
        assert(is_ws_char(s[0]));
        let t = s.drop_first();
        assert(forall|k: int| 0 <= k < i - 1 ==> s[k + 1] == t[k] && is_ws_char(s[k + 1]));
        lemma_ws_prefix_char(t, (i - 1) as nat);
    }
}

/// `s.len() - ws_suffix_len(s)` is the unique cut point with only whitespace
/// after it and, unless the whole string is whitespace, a non-whitespace
/// character just before it.
proof fn lemma_ws_suffix_char(s: Seq<char>, e: nat)
    requires
        e <= s.len(),
        forall|k: int| e <= k < s.len() ==> is_ws_char(s[k]),
        e == 0 || !is_ws_char(s[e - 1]),
    ensures
        ws_suffix_len(s) == s.len() - e,
    decreases s.len() - e,
{
    if e == s.len() {
        assert(s.len() == 0 || !is_ws_char(s.last()));
    } else {
        assert(is_ws_char(s.last()));
        let t = s.drop_last();
        assert(forall|k: int| e <= k < t.len() ==> t[k] == s[k] && is_ws_char(s[k]));
        lemma_ws_suffix_char(t, e);
    }
}

/// Removes leading and trailing whitespace, character by character.
pub fn trim_str(s: &str) -> (r: String)
    ensures
        r@ == spec_trimmed(s@),
{
    let n = s.unicode_len();
    let mut start: usize = 0;
    while start < n && is_ws(s.get_char(start))
        invariant
            start <= n,
            n == s@.len(),
            forall|k: int| 0 <= k < start ==> is_ws_char(s@[k]),
        decreases n - start,
    {
        start = start + 1;
    }
    proof {
        lemma_ws_prefix_char(s@, start as nat);
    }
    let mut end: usize = n;
    while end > start && is_ws(s.get_char(end - 1))
        invariant
            start <= end <= n,
            n == s@.len(),
            ws_prefix_len(s@) == start,
            start == n || !is_ws_char(s@[start as int]),
            forall|k: int| end <= k < n ==> is_ws_char(s@[k]),
        decreases end,
    {
        end = end - 1;
    }
    if end == start {
        proof {
            assert(start == n);
        }
        String::new()
    } else {
        proof {
            assert(!is_ws_char(s@[end - 1]));
            lemma_ws_suffix_char(s@, end as nat);
        }
        s.substring_char(start, end).to_owned()
    }
}

/// Whether `c` has the Unicode `White_Space` property.
pub fn is_ws(c: char) -> (r: bool)
    ensures
        r == is_ws_char(c),
{
    c == ' ' || c == '\t' || c == '\n' || c == '\r' || c == '\u{b}' || c == '\u{c}'
        || c == '\u{85}' || c == '\u{a0}' || c == '\u{1680}'
        || ('\u{2000}' <= c && c <= '\u{200a}')
        || c == '\u{2028}' || c == '\u{2029}' || c == '\u{202f}' || c == '\u{205f}'
        || c == '\u{3000}'
}

/// What `String::from_utf8` yields: whether a byte sequence decodes as UTF-8,
/// and to which characters, is a function of the bytes alone.
pub uninterp spec fn utf8_decoded(b: Seq<u8>) -> Option<Seq<char>>;

/// Relies on `String::from_utf8`: decodes the bytes as UTF-8, or reports
/// that they are not valid UTF-8.
#[verifier::external_body]
pub(crate) fn decode_utf8(bytes: Vec<u8>) -> (r: Option<String>)
    ensures
        match r {
            Some(s) => utf8_decoded(bytes@) == Some(s@),
            None => utf8_decoded(bytes@) is None,
        },
{
    String::from_utf8(bytes).ok()
}

} // verus!
