use vstd::prelude::*;
use vstd::string::StrSliceExecFns;
use vstd::string::StringExecFns;

pub mod decrypt;
pub mod encrypt;
pub mod home;

verus! {

/// Number of characters kept on each side when a long string is elided.
pub const STR_LEN: usize = 30;

/// What `short_string` returns: a string of at most `2 * len + 3` characters
/// is shown whole; a longer one is cut down to its first `len` characters,
/// then `"..."`, then its last `len` characters.
pub open spec fn spec_short_string(s: Seq<char>, len: nat) -> Seq<char> {
    if s.len() <= 2 * len + 3 {
        s
    } else {
        s.subrange(0, len as int) + "..."@ + s.subrange(s.len() - len, s.len() as int)
    }
}

/// Elides the middle of a long string for display.
pub fn short_string(input: &str, len: usize) -> (r: String)
    requires
        2 * len + 3 <= usize::MAX,
    ensures
        r@ == spec_short_string(input@, len as nat),
{
    let n = input.unicode_len();
    if n <= 2 * len + 3 {
        input.to_owned()
    } else {
        let prefix = input.substring_char(0, len);
        let suffix = input.substring_char(n - len, n);
        let with_dots = prefix.to_owned().concat("...");
        with_dots.concat(suffix)
    }
}

/// Eliding is idempotent: eliding an already elided string changes nothing,
/// since an elided string never exceeds `2 * len + 3` characters.
pub proof fn lemma_short_string_idempotent(s: Seq<char>, len: nat)
    ensures
        spec_short_string(spec_short_string(s, len), len) == spec_short_string(s, len),
{
    if s.len() > 2 * len + 3 {
        reveal_strlit("...");
        let t = spec_short_string(s, len);
        assert(t.len() == 2 * len + 3);
    }
}

} // verus!
