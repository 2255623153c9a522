//! Character classes and substring matching, the primitives every cascade
//! stage is built from.
//!
//! All matching is defined over `Seq<char>` views.  Case-insensitive
//! comparison folds ASCII letters only: ISO codes and English names are
//! ASCII, and CJK names have no case.

use vstd::prelude::*;

verus! {

/// Code point of `c`, with ASCII upper-case letters folded to lower case.
pub open spec fn fold_case(c: char) -> int {
    if 65 <= c as u32 && c as u32 <= 90 {
        c as u32 + 32
    } else {
        c as u32 as int
    }
}

/// The two characters are equal under the case rule: exactly equal when
/// `cs` (case-sensitive), equal up to ASCII case otherwise.
pub open spec fn chars_eq(cs: bool, a: char, b: char) -> bool {
    if cs {
        a == b
    } else {
        fold_case(a) == fold_case(b)
    }
}

pub open spec fn is_ascii_letter(c: char) -> bool {
    (65 <= c as u32 && c as u32 <= 90) || (97 <= c as u32 && c as u32 <= 122)
}

pub open spec fn is_ascii_digit_char(c: char) -> bool {
    48 <= c as u32 && c as u32 <= 57
}

/// A character that delimits a token for the code-matching stages: anything
/// that is not an ASCII letter or digit.  This covers whitespace, the
/// decorative punctuation found in labels (`@ [ ] # 【 】`, full-width
/// separators, dashes, underscores) and all CJK text, so a Latin code next
/// to a Chinese word still sits on a boundary.  Digits are deliberately not
/// boundaries; a digit is accepted only as a *trailing* delimiter of a code.
pub open spec fn is_token_boundary(c: char) -> bool {
    !is_ascii_letter(c) && !is_ascii_digit_char(c)
}

/// Whitespace for the blank-input pre-check (ASCII whitespace and the
/// full-width space).
pub open spec fn is_blank_char(c: char) -> bool {
    c == ' ' || c == '\t' || c == '\n' || c == '\r' || c == '\u{3000}'
}

/// A text that contains at least one non-whitespace character, i.e. is not
/// empty after trimming.
pub open spec fn has_visible_char(t: Seq<char>) -> bool {
    exists|i: int| 0 <= i < t.len() && !is_blank_char(t[i])
}

/// Pattern `p` occurs in `t` starting at position `i`, under case rule `cs`.
pub open spec fn match_at(t: Seq<char>, p: Seq<char>, i: int, cs: bool) -> bool {
    &&& 0 <= i
    &&& i + p.len() <= t.len()
    &&& forall|j: int| 0 <= j < p.len() ==> chars_eq(cs, t[i + j], p[j])
}

/// Pattern `p` occurs somewhere in `t` (substring containment).
pub open spec fn has_sub(t: Seq<char>, p: Seq<char>, cs: bool) -> bool {
    exists|i: int| match_at(t, p, i, cs)
}

/// Executable case folding; mirrors [`fold_case`].
pub fn fold_case_exec(c: char) -> (n: u32)
    ensures
        n == fold_case(c),
{
    let code = c as u32;
    if 65 <= code && code <= 90 {
        code + 32
    } else {
        code
    }
}

/// Executable character comparison; mirrors [`chars_eq`].
pub fn chars_eq_exec(cs: bool, a: char, b: char) -> (r: bool)
    ensures
        r == chars_eq(cs, a, b),
{
    if cs {
        a == b
    } else {
        fold_case_exec(a) == fold_case_exec(b)
    }
}

/// Executable ASCII-digit test; mirrors [`is_ascii_digit_char`].
pub fn is_ascii_digit_exec(c: char) -> (r: bool)
    ensures
        r == is_ascii_digit_char(c),
{
    let code = c as u32;
    48 <= code && code <= 57
}

/// Executable blank test; mirrors [`is_blank_char`].
pub fn is_blank_char_exec(c: char) -> (r: bool)
    ensures
        r == is_blank_char(c),
{
    c == ' ' || c == '\t' || c == '\n' || c == '\r' || c == '\u{3000}'
}

/// Executable match-at-position test; mirrors [`match_at`].
pub fn match_at_exec(t: &Vec<char>, p: &Vec<char>, i: usize, cs: bool) -> (r: bool)
    requires
        i <= t@.len(),
    ensures
        r == match_at(t@, p@, i as int, cs),
{
    if t.len() - i < p.len() {
        return false;
    }
    let mut j: usize = 0;
    while j < p.len()
        invariant
            t@.len() <= usize::MAX,
            i + p@.len() <= t@.len(),
            j <= p@.len(),
            forall|q: int| 0 <= q < j ==> chars_eq(cs, t@[i + q], p@[q]),
        decreases p@.len() - j,
    {
        if !chars_eq_exec(cs, t[i + j], p[j]) {
            return false;
        }
        j += 1;
    }
    true
}

/// Executable containment test; mirrors [`has_sub`].
pub fn has_sub_exec(t: &Vec<char>, p: &Vec<char>, cs: bool) -> (r: bool)
    ensures
        r == has_sub(t@, p@, cs),
{
    if p.len() == 0 {
        assert(match_at(t@, p@, 0, cs));
        return true;
    }
    if p.len() > t.len() {
        assert(forall|i: int| !match_at(t@, p@, i, cs));
        return false;
    }
    let end = t.len() - p.len();
    let mut i: usize = 0;
    while i <= end
        invariant
            t@.len() <= usize::MAX,
            p@.len() >= 1,
            end == t@.len() - p@.len(),
            i <= end + 1,
            forall|q: int| 0 <= q < i ==> !match_at(t@, p@, q, cs),
        decreases end + 1 - i,
    {
        if match_at_exec(t, p, i, cs) {
            return true;
        }
        i += 1;
    }
    assert(forall|q: int| q > end ==> !match_at(t@, p@, q, cs));
    false
}

/// Executable test for a visible (non-whitespace) character; mirrors
/// [`has_visible_char`].
pub fn has_visible_exec(t: &Vec<char>) -> (r: bool)
    ensures
        r == has_visible_char(t@),
{
    let mut i: usize = 0;
    while i < t.len()
        invariant
            i <= t@.len(),
            forall|q: int| 0 <= q < i ==> is_blank_char(t@[q]),
        decreases t@.len() - i,
    {
        if !is_blank_char_exec(t[i]) {
            return true;
        }
        i += 1;
    }
    false
}

/// Collects the characters of `text` into a vector, so that the matching
/// stages can index them by character position.
pub fn chars_of_str(text: &str) -> (v: Vec<char>)
    ensures
        v@ == text@,
{
    let n = text.unicode_len();
    let mut v: Vec<char> = Vec::new();
    let mut i: usize = 0;
    while i < n
        invariant
            n == text@.len(),
            i <= n,
            v@ == text@.subrange(0, i as int),
        decreases n - i,
    {
        let c = text.get_char(i);
        v.push(c);
        proof {
            assert(v@ =~= text@.subrange(0, i + 1 as int));
        }
        i += 1;
    }
    proof {
        assert(v@ =~= text@);
    }
    v
}

} // verus!
