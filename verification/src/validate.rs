//! Publish-time validation of item data.
//!
//! A genre is accepted when it equals `games` or `entertainment` up to ASCII
//! case. The comparison is defined character by character over the string's
//! view, so the accepted set is pinned down exactly.

use vstd::prelude::*;

verus! {

/// The code point of `c` with an ASCII upper-case letter folded to lower case.
pub open spec fn lower_code(c: char) -> int {
    if 65 <= c as u32 && c as u32 <= 90 {
        c as u32 + 32
    } else {
        c as u32 as int
    }
}

/// Character sequences equal up to ASCII case.
pub open spec fn eq_ignore_ascii_case_spec(a: Seq<char>, b: Seq<char>) -> bool {
    &&& a.len() == b.len()
    &&& forall|i: int| 0 <= i < a.len() ==> lower_code(a[i]) == lower_code(b[i])
}

/// The genres the marketplace accepts, up to ASCII case.
pub open spec fn is_valid_genre(g: Seq<char>) -> bool {
    ||| eq_ignore_ascii_case_spec(g, "games"@)
    ||| eq_ignore_ascii_case_spec(g, "entertainment"@)
}

/// Whether two characters agree up to ASCII case.
fn char_eq_ignore_case(a: char, b: char) -> (r: bool)
    ensures
        r == (lower_code(a) == lower_code(b)),
{
    let x: u32 = a as u32;
    let y: u32 = b as u32;
    let xl: u32 = if 65 <= x && x <= 90 { x + 32 } else { x };
    let yl: u32 = if 65 <= y && y <= 90 { y + 32 } else { y };
    xl == yl
}

/// Whether two strings agree up to ASCII case.
pub fn eq_ignore_ascii_case(a: &str, b: &str) -> (r: bool)
    ensures
        r == eq_ignore_ascii_case_spec(a@, b@),
{
    let a_len: usize = a.unicode_len();
    let b_len: usize = b.unicode_len();
    if a_len != b_len {
        return false;
    }
    let mut i: usize = 0;
    while i < a_len
        invariant
            a_len == a@.len(),
            b_len == b@.len(),
            a_len == b_len,
            i <= a_len,
            forall|j: int| 0 <= j < i ==> lower_code(a@[j]) == lower_code(b@[j]),
        decreases a_len - i,
    {
        if !char_eq_ignore_case(a.get_char(i), b.get_char(i)) {
            return false;
        }
        i = i + 1;
    }
    true
}

/// Whether the marketplace accepts `genre`.
pub fn check_genre(genre: &str) -> (r: bool)
    ensures
        r == is_valid_genre(genre@),
{
    eq_ignore_ascii_case(genre, "games") || eq_ignore_ascii_case(genre, "entertainment")
}

} // verus!
