//! String order and containment: lexicographic comparison by code point and
//! a literal-substring search, both with exact specifications.

use vstd::prelude::*;
use vstd::string::StrSliceExecFns;

verus! {

/// Lexicographic "less than or equal" on character sequences, comparing
/// code points (for ASCII keys this is the ordinary byte order).
pub open spec fn lex_le(a: Seq<char>, b: Seq<char>) -> bool
    decreases a.len(),
{
    if a.len() == 0 {
        true
    } else if b.len() == 0 {
        false
    } else if a[0] == b[0] {
        lex_le(a.drop_first(), b.drop_first())
    } else {
        (a[0] as u32) < (b[0] as u32)
    }
}

/// Strict lexicographic order.
pub open spec fn lex_lt(a: Seq<char>, b: Seq<char>) -> bool {
    lex_le(a, b) && a != b
}

/// `pat` occurs in `text` starting at position `i`.
pub open spec fn contains_at(text: Seq<char>, pat: Seq<char>, i: int) -> bool {
    0 <= i && i + pat.len() <= text.len() && text.subrange(i, i + pat.len()) == pat
}

/// `pat` occurs somewhere in `text` as a contiguous substring.
pub open spec fn contains_substr(text: Seq<char>, pat: Seq<char>) -> bool {
    exists|i: int| contains_at(text, pat, i)
}

/// Decides `lex_le` on string slices.
pub fn str_le(a: &str, b: &str) -> (r: bool)
    ensures
        r == lex_le(a@, b@),
    decreases a@.len(),
{
    let a_len = a.unicode_len();
    let b_len = b.unicode_len();
    if a_len == 0 {
        true
    } else if b_len == 0 {
        false
    } else {
        let ac = a.get_char(0);
        let bc = b.get_char(0);
        if ac == bc {
            let a_rest = a.substring_char(1, a_len);
            let b_rest = b.substring_char(1, b_len);
            proof {
                assert(a_rest@ =~= a@.drop_first());
                assert(b_rest@ =~= b@.drop_first());
            }
            str_le(a_rest, b_rest)
        } else {
            (ac as u32) < (bc as u32)
        }
    }
}

/// Decides equality of the character sequences of two string slices.
pub fn str_eq(a: &str, b: &str) -> (r: bool)
    ensures
        r == (a@ == b@),
{
    let a_len = a.unicode_len();
    let b_len = b.unicode_len();
    if a_len != b_len {
        return false;
    }
    let mut i: usize = 0;
    while i < a_len
        invariant
            a_len == a@.len(),
            b_len == b@.len(),
            a_len == b_len,
            i <= a_len,
            forall|j: int| 0 <= j < i ==> a@[j] == b@[j],
        decreases a_len - i,
    {
        if a.get_char(i) != b.get_char(i) {
            return false;
        }
        i += 1;
    }
    proof {
        assert(a@ =~= b@);
    }
    true
}

/// `pat` matches `text` at position `i` (all characters compared).
fn match_at(text: &str, pat: &str, i: usize, t_len: usize, p_len: usize) -> (r: bool)
    requires
        t_len == text@.len(),
        p_len == pat@.len(),
        i + p_len <= t_len,
    ensures
        r == contains_at(text@, pat@, i as int),
{
    let mut j: usize = 0;
    while j < p_len
        invariant
            t_len == text@.len(),
            p_len == pat@.len(),
            i + p_len <= t_len,
            j <= p_len,
            forall|k: int| 0 <= k < j ==> text@[i + k] == pat@[k],
        decreases p_len - j,
    {
        if text.get_char(i + j) != pat.get_char(j) {
            proof {
                assert(text@.subrange(i as int, i + pat@.len())[j as int] == text@[i + j]);
            }
            return false;
        }
        j += 1;
    }
    proof {
        assert(text@.subrange(i as int, i + pat@.len()) =~= pat@);
    }
    true
}

/// Decides whether `pat` occurs in `text` as a contiguous substring.
pub fn contains_str(text: &str, pat: &str) -> (r: bool)
    ensures
        r == contains_substr(text@, pat@),
{
    let t_len = text.unicode_len();
    let p_len = pat.unicode_len();
    if p_len > t_len {
        return false;
    }
    if p_len == 0 {
        proof {
            assert(contains_at(text@, pat@, 0)) by {
                assert(text@.subrange(0, 0) =~= pat@);
            }
        }
        return true;
    }
    let mut i: usize = 0;
    while i <= t_len - p_len
        invariant
            t_len == text@.len(),
            p_len == pat@.len(),
            1 <= p_len <= t_len,
            i <= t_len - p_len + 1,
            forall|k: int| 0 <= k < i ==> !contains_at(text@, pat@, k),
        decreases t_len - p_len + 1 - i,
    {
        if match_at(text, pat, i, t_len, p_len) {
            return true;
        }
        i += 1;
    }
    false
}

} // verus!
