//! Character-level text normalization: trimming surrounding whitespace and
//! ASCII case folding, used to recognize menu choices.

use vstd::prelude::*;

verus! {

/// The whitespace characters that are stripped from both ends of an input
/// line before it is matched against the menu choices: the Unicode
/// `White_Space` set, the one `str::trim` removes.
pub open spec fn is_ws(c: char) -> bool {
    ('\u{0009}' <= c && c <= '\u{000D}') || c == ' ' || c == '\u{0085}' || c == '\u{00A0}'
        || c == '\u{1680}' || ('\u{2000}' <= c && c <= '\u{200A}') || c == '\u{2028}' || c
        == '\u{2029}' || c == '\u{202F}' || c == '\u{205F}' || c == '\u{3000}'
}

/// ASCII case folding: uppercase ASCII letters map to their lowercase
/// counterparts, every other character is unchanged.
pub open spec fn ascii_lower(c: char) -> char {
    if 'A' <= c && c <= 'Z' {
        ((c as u8) + 32) as char
    } else {
        c
    }
}

/// What remains of `s` once its leading whitespace is removed.
pub open spec fn drop_leading_ws(s: Seq<char>) -> Seq<char>
    decreases s.len(),
{
    if s.len() > 0 && is_ws(s[0]) {
        drop_leading_ws(s.drop_first())
    } else {
        s
    }
}

/// What remains of `s` once its trailing whitespace is removed.
pub open spec fn drop_trailing_ws(s: Seq<char>) -> Seq<char>
    decreases s.len(),
{
    if s.len() > 0 && is_ws(s[s.len() - 1]) {
        drop_trailing_ws(s.drop_last())
    } else {
        s
    }
}

/// `s` without leading and trailing whitespace.
pub open spec fn spec_trim(s: Seq<char>) -> Seq<char> {
    drop_trailing_ws(drop_leading_ws(s))
}

/// `s` trimmed and then case folded character by character.
pub open spec fn spec_normalize(s: Seq<char>) -> Seq<char> {
    spec_trim(s).map_values(|c: char| ascii_lower(c))
}

/// Executable whitespace test, equal to the spec-level one.
pub fn is_ws_char(c: char) -> (r: bool)
    ensures
        r == is_ws(c),
{
    ('\u{0009}' <= c && c <= '\u{000D}') || c == ' ' || c == '\u{0085}' || c == '\u{00A0}'
        || c == '\u{1680}' || ('\u{2000}' <= c && c <= '\u{200A}') || c == '\u{2028}' || c
        == '\u{2029}' || c == '\u{202F}' || c == '\u{205F}' || c == '\u{3000}'
}

/// The bounds of the trimmed part of `s`: `spec_trim(s@)` is exactly
/// `s@.subrange(lo, hi)`.
pub fn trim_bounds(s: &str) -> (r: (usize, usize))
    ensures
        r.0 <= r.1 <= s@.len(),
        spec_trim(s@) == s@.subrange(r.0 as int, r.1 as int),
{
    let len: usize = s.unicode_len();
    proof {
        assert(s@.subrange(0, len as int) =~= s@);
    }
    let mut lo: usize = 0;
    while lo < len && is_ws_char(s.get_char(lo))
        invariant
            lo <= len,
            len == s@.len(),
            drop_leading_ws(s@) == drop_leading_ws(s@.subrange(lo as int, len as int)),
        decreases len - lo,
    {
        proof {
            let cur = s@.subrange(lo as int, len as int);
            assert(cur.drop_first() =~= s@.subrange(lo as int + 1, len as int));
        }
        lo = lo + 1;
    }
    proof {
        let cur = s@.subrange(lo as int, len as int);
        if lo < len {
            assert(cur[0] == s@[lo as int]);
        }
        assert(drop_leading_ws(cur) == cur);
    }
    let mut hi: usize = len;
    while lo < hi && is_ws_char(s.get_char(hi - 1))
        invariant
            lo <= hi <= len,
            len == s@.len(),
            drop_leading_ws(s@) == s@.subrange(lo as int, len as int),
            drop_trailing_ws(s@.subrange(lo as int, len as int)) == drop_trailing_ws(
                s@.subrange(lo as int, hi as int),
            ),
            lo < len ==> !is_ws(s@[lo as int]),
        decreases hi,
    {
        proof {
            let cur = s@.subrange(lo as int, hi as int);
            assert(cur[cur.len() - 1] == s@[hi as int - 1]);
            assert(cur.drop_last() =~= s@.subrange(lo as int, hi as int - 1));
        }
        hi = hi - 1;
    }
    proof {
        let cur = s@.subrange(lo as int, hi as int);
        if lo < hi {
            assert(cur[cur.len() - 1] == s@[hi as int - 1]);
        }
        assert(drop_trailing_ws(cur) == cur);
    }
    (lo, hi)
}

} // verus!
