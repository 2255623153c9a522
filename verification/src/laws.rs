//! Laws of the matching cascade, proved against the model in `model`.
//!
//! These proof functions state the library-wide properties: case folding
//! cannot change the cascade's outcome, boundary validation rejects codes
//! embedded in words, a trailing digit is a legal delimiter, an embedded
//! boundary-legal code always resolves once the name stages pass, and the
//! first stage that yields a candidate decides the result.

use vstd::prelude::*;
use crate::model::{
    alias_hit, alias_stage, alias_stage_from, cascade, code_of, code_rec_at, code_rec_at_from,
    code_stage, code_stage_from, en_stage, en_stage_from, fuzzy_best, fuzzy_best_from, fuzzy_stage,
    fuzzy_ties_from, fuzzy_weight, window_ok, zh_name, zh_stage, zh_stage_from,
    CountryModel, MatchOutcome, ZhKind,
};
use crate::text::{
    chars_eq, fold_case, has_sub, is_ascii_digit_char, is_ascii_letter, is_token_boundary,
    match_at,
};

verus! {

/// Two texts are equal up to ASCII case: same length, and character by
/// character the same code point after case folding.
pub open spec fn fold_eq(t1: Seq<char>, t2: Seq<char>) -> bool {
    &&& t1.len() == t2.len()
    &&& forall|i: int| 0 <= i < t1.len() ==> #[trigger] fold_case(t1[i]) == fold_case(t2[i])
}

/// Case folding preserves the character classes the cascade looks at.
pub proof fn lemma_fold_char_classes(a: char, b: char)
    requires
        fold_case(a) == fold_case(b),
    ensures
        is_ascii_letter(a) == is_ascii_letter(b),
        is_ascii_digit_char(a) == is_ascii_digit_char(b),
        is_token_boundary(a) == is_token_boundary(b),
{
}

/// A match at one position is insensitive to case folding of the text.
pub proof fn lemma_match_at_fold(t1: Seq<char>, t2: Seq<char>, p: Seq<char>, i: int)
    requires
        fold_eq(t1, t2),
    ensures
        match_at(t1, p, i, false) == match_at(t2, p, i, false),
{
    if match_at(t1, p, i, false) {
        assert forall|j: int| 0 <= j < p.len() implies chars_eq(false, t2[i + j], p[j]) by {
            assert(chars_eq(false, t1[i + j], p[j]));
            assert(fold_case(t1[i + j]) == fold_case(t2[i + j]));
        }
        assert(match_at(t2, p, i, false));
    }
    if match_at(t2, p, i, false) {
        assert forall|j: int| 0 <= j < p.len() implies chars_eq(false, t1[i + j], p[j]) by {
            assert(chars_eq(false, t2[i + j], p[j]));
            assert(fold_case(t1[i + j]) == fold_case(t2[i + j]));
        }
        assert(match_at(t1, p, i, false));
    }
}

/// Containment is insensitive to case folding of the text.
pub proof fn lemma_has_sub_fold(t1: Seq<char>, t2: Seq<char>, p: Seq<char>)
    requires
        fold_eq(t1, t2),
    ensures
        has_sub(t1, p, false) == has_sub(t2, p, false),
{
    if has_sub(t1, p, false) {
        let i = choose|i: int| match_at(t1, p, i, false);
        lemma_match_at_fold(t1, t2, p, i);
        assert(match_at(t2, p, i, false));
    }
    if has_sub(t2, p, false) {
        let i = choose|i: int| match_at(t2, p, i, false);
        lemma_match_at_fold(t1, t2, p, i);
        assert(match_at(t1, p, i, false));
    }
}

/// An alias hit is insensitive to case folding of the text.
pub proof fn lemma_alias_hit_fold(r: CountryModel, t1: Seq<char>, t2: Seq<char>)
    requires
        fold_eq(t1, t2),
    ensures
        alias_hit(r, t1, false) == alias_hit(r, t2, false),
{
    if alias_hit(r, t1, false) {
        let a = choose|a: int|
            0 <= a < r.abbreviations.len() && has_sub(t1, #[trigger] r.abbreviations[a], false);
        lemma_has_sub_fold(t1, t2, r.abbreviations[a]);
        assert(has_sub(t2, r.abbreviations[a], false));
    }
    if alias_hit(r, t2, false) {
        let a = choose|a: int|
            0 <= a < r.abbreviations.len() && has_sub(t2, #[trigger] r.abbreviations[a], false);
        lemma_has_sub_fold(t1, t2, r.abbreviations[a]);
        assert(has_sub(t1, r.abbreviations[a], false));
    }
}

proof fn lemma_alias_stage_from_fold(rs: Seq<CountryModel>, t1: Seq<char>, t2: Seq<char>, k: int)
    requires
        fold_eq(t1, t2),
    ensures
        alias_stage_from(rs, t1, false, k) == alias_stage_from(rs, t2, false, k),
    decreases rs.len() - k,
{
    if 0 <= k < rs.len() {
        lemma_alias_hit_fold(rs[k], t1, t2);
        lemma_alias_stage_from_fold(rs, t1, t2, k + 1);
    }
}

proof fn lemma_zh_stage_from_fold(
    rs: Seq<CountryModel>,
    t1: Seq<char>,
    t2: Seq<char>,
    z: ZhKind,
    k: int,
    best: Option<int>,
)
    requires
        fold_eq(t1, t2),
    ensures
        zh_stage_from(rs, t1, false, z, k, best) == zh_stage_from(rs, t2, false, z, k, best),
    decreases rs.len() - k,
{
    if 0 <= k < rs.len() {
        lemma_has_sub_fold(t1, t2, zh_name(rs[k], z));
        let hit = has_sub(t1, zh_name(rs[k], z), false);
        let better = match best {
            Option::None => hit,
            Option::Some(b) => hit && zh_name(rs[k], z).len() > zh_name(rs[b], z).len(),
        };
        lemma_zh_stage_from_fold(rs, t1, t2, z, k + 1, if better {
            Option::Some(k)
        } else {
            best
        });
    }
}

proof fn lemma_en_stage_from_fold(rs: Seq<CountryModel>, t1: Seq<char>, t2: Seq<char>, k: int)
    requires
        fold_eq(t1, t2),
    ensures
        en_stage_from(rs, t1, false, k) == en_stage_from(rs, t2, false, k),
    decreases rs.len() - k,
{
    if 0 <= k < rs.len() {
        lemma_has_sub_fold(t1, t2, rs[k].name_en);
        lemma_en_stage_from_fold(rs, t1, t2, k + 1);
    }
}

/// Boundary legality of a window is insensitive to case folding.
pub proof fn lemma_window_ok_fold(t1: Seq<char>, t2: Seq<char>, i: int, n: int)
    requires
        fold_eq(t1, t2),
        0 <= n,
    ensures
        window_ok(t1, i, n) == window_ok(t2, i, n),
{
    if 0 <= i && i + n <= t1.len() {
        if i > 0 {
            assert(fold_case(t1[i - 1]) == fold_case(t2[i - 1]));
            lemma_fold_char_classes(t1[i - 1], t2[i - 1]);
        }
        if i + n < t1.len() {
            assert(fold_case(t1[i + n]) == fold_case(t2[i + n]));
            lemma_fold_char_classes(t1[i + n], t2[i + n]);
        }
    }
}

proof fn lemma_code_rec_at_from_fold(
    rs: Seq<CountryModel>,
    t1: Seq<char>,
    t2: Seq<char>,
    i: int,
    three: bool,
    k: int,
)
    requires
        fold_eq(t1, t2),
    ensures
        code_rec_at_from(rs, t1, i, three, k) == code_rec_at_from(rs, t2, i, three, k),
    decreases rs.len() - k,
{
    if 0 <= k < rs.len() {
        lemma_match_at_fold(t1, t2, code_of(rs[k], three), i);
        lemma_code_rec_at_from_fold(rs, t1, t2, i, three, k + 1);
    }
}

proof fn lemma_code_stage_from_fold(
    rs: Seq<CountryModel>,
    t1: Seq<char>,
    t2: Seq<char>,
    three: bool,
    i: int,
)
    requires
        fold_eq(t1, t2),
    ensures
        code_stage_from(rs, t1, three, i) == code_stage_from(rs, t2, three, i),
    decreases t1.len() - i,
{
    let n: int = if three {
        3
    } else {
        2
    };
    if 0 <= i && i + n <= t1.len() {
        lemma_window_ok_fold(t1, t2, i, n);
        lemma_code_rec_at_from_fold(rs, t1, t2, i, three, 0);
        lemma_code_stage_from_fold(rs, t1, t2, three, i + 1);
    }
}

/// The fuzzy priority of a record is insensitive to case folding.
pub proof fn lemma_fuzzy_weight_fold(r: CountryModel, t1: Seq<char>, t2: Seq<char>)
    requires
        fold_eq(t1, t2),
    ensures
        fuzzy_weight(r, t1, false) == fuzzy_weight(r, t2, false),
{
    lemma_has_sub_fold(t1, t2, r.alpha2);
    lemma_has_sub_fold(t1, t2, r.alpha3);
    lemma_has_sub_fold(t1, t2, r.name_zh_cn);
    lemma_has_sub_fold(t1, t2, r.name_zh_tw);
    lemma_has_sub_fold(t1, t2, r.name_en);
    lemma_alias_hit_fold(r, t1, t2);
}

proof fn lemma_fuzzy_best_from_fold(
    rs: Seq<CountryModel>,
    t1: Seq<char>,
    t2: Seq<char>,
    k: int,
    best: Option<int>,
)
    requires
        fold_eq(t1, t2),
    ensures
        fuzzy_best_from(rs, t1, false, k, best) == fuzzy_best_from(rs, t2, false, k, best),
    decreases rs.len() - k,
{
    if 0 <= k < rs.len() {
        lemma_fuzzy_weight_fold(rs[k], t1, t2);
        let w = fuzzy_weight(rs[k], t1, false);
        let nb = match (best, w) {
            (Option::None, _) => w,
            (Option::Some(b), Option::Some(x)) => if x < b {
                Option::Some(x)
            } else {
                best
            },
            (Option::Some(_), Option::None) => best,
        };
        lemma_fuzzy_best_from_fold(rs, t1, t2, k + 1, nb);
    }
}

proof fn lemma_fuzzy_ties_from_fold(
    rs: Seq<CountryModel>,
    t1: Seq<char>,
    t2: Seq<char>,
    w: int,
    k: int,
    acc: Seq<int>,
)
    requires
        fold_eq(t1, t2),
    ensures
        fuzzy_ties_from(rs, t1, false, w, k, acc) == fuzzy_ties_from(rs, t2, false, w, k, acc),
    decreases rs.len() - k,
{
    if 0 <= k < rs.len() {
        lemma_fuzzy_weight_fold(rs[k], t1, t2);
        let acc2 = if fuzzy_weight(rs[k], t1, false) == Option::Some(w) {
            acc.push(k)
        } else {
            acc
        };
        lemma_fuzzy_ties_from_fold(rs, t1, t2, w, k + 1, acc2);
    }
}

/// Case-insensitivity of the whole cascade: with case folding enabled, two
/// texts that agree character by character up to ASCII case drive the
/// cascade to the same outcome — the same record, the same miss, or the
/// same tie.  `parse("us")` and `parse("US")` are an instance.
pub proof fn lemma_case_insensitive_cascade(
    rs: Seq<CountryModel>,
    t1: Seq<char>,
    t2: Seq<char>,
    fz: bool,
)
    requires
        fold_eq(t1, t2),
    ensures
        cascade(rs, t1, false, fz) == cascade(rs, t2, false, fz),
{
    lemma_alias_stage_from_fold(rs, t1, t2, 0);
    lemma_zh_stage_from_fold(rs, t1, t2, ZhKind::Traditional, 0, Option::None);
    lemma_zh_stage_from_fold(rs, t1, t2, ZhKind::Simplified, 0, Option::None);
    lemma_en_stage_from_fold(rs, t1, t2, 0);
    lemma_code_stage_from_fold(rs, t1, t2, true, 0);
    lemma_code_stage_from_fold(rs, t1, t2, false, 0);
    lemma_fuzzy_best_from_fold(rs, t1, t2, 0, Option::None);
    match fuzzy_best(rs, t1, false) {
        Option::Some(w) => lemma_fuzzy_ties_from_fold(rs, t1, t2, w, 0, Seq::empty()),
        Option::None => (),
    }
}

/// Boundary rule: a code window flanked by an ASCII letter — a code embedded
/// inside a longer alphabetic run, as in `useful` — is never boundary-legal,
/// so the code-matching stages cannot match it there.
pub proof fn lemma_letter_adjacent_window_illegal(t: Seq<char>, i: int, n: int)
    requires
        (i > 0 && i - 1 < t.len() && is_ascii_letter(t[i - 1])) || (0 <= i + n < t.len()
            && is_ascii_letter(t[i + n])),
    ensures
        !window_ok(t, i, n),
{
}

/// Digit adjacency: a boundary-legal window that reaches the end of the text
/// stays boundary-legal when a digit is appended, which is why `US1` and
/// `US` validate alike.
pub proof fn lemma_trailing_digit_keeps_window(t: Seq<char>, i: int, n: int, d: char)
    requires
        0 <= n,
        window_ok(t, i, n),
        i + n == t.len(),
        is_ascii_digit_char(d),
    ensures
        window_ok(t.push(d), i, n),
{
    assert(t.push(d).len() == t.len() + 1);
    if i > 0 {
        assert(t.push(d)[i - 1] == t[i - 1]);
    }
    assert(t.push(d)[i + n] == d);
}

/// An embedded, boundary-legal alpha-3 code resolves: when the alias and
/// name stages yield nothing and some boundary-legal window of the text
/// equals a record's alpha-3 code, the cascade returns a record — never a
/// miss and never a tie.
pub proof fn lemma_embedded_alpha3_resolves(
    rs: Seq<CountryModel>,
    t: Seq<char>,
    cs: bool,
    fz: bool,
    i: int,
    k: int,
)
    requires
        alias_stage(rs, t, cs) is None,
        zh_stage(rs, t, cs, ZhKind::Traditional) is None,
        zh_stage(rs, t, cs, ZhKind::Simplified) is None,
        en_stage(rs, t, cs) is None,
        0 <= k < rs.len(),
        window_ok(t, i, 3),
        match_at(t, rs[k].alpha3, i, false),
    ensures
        cascade(rs, t, cs, fz) is Hit,
{
    assert(match_at(t, code_of(rs[k], true), i, false));
    lemma_code_rec_from_some(rs, t, i, true, 0, k);
    lemma_code_stage_from_some(rs, t, true, 0, i);
}

/// An embedded, boundary-legal alpha-2 code resolves when no earlier stage
/// (including the alpha-3 stage) found anything.
pub proof fn lemma_embedded_alpha2_resolves(
    rs: Seq<CountryModel>,
    t: Seq<char>,
    cs: bool,
    fz: bool,
    i: int,
    k: int,
)
    requires
        alias_stage(rs, t, cs) is None,
        zh_stage(rs, t, cs, ZhKind::Traditional) is None,
        zh_stage(rs, t, cs, ZhKind::Simplified) is None,
        en_stage(rs, t, cs) is None,
        code_stage(rs, t, true) is None,
        0 <= k < rs.len(),
        window_ok(t, i, 2),
        match_at(t, rs[k].alpha2, i, false),
    ensures
        cascade(rs, t, cs, fz) is Hit,
{
    assert(match_at(t, code_of(rs[k], false), i, false));
    lemma_code_rec_from_some(rs, t, i, false, 0, k);
    lemma_code_stage_from_some(rs, t, false, 0, i);
}

/// Boundary-legal code embedding, pinned to the record: when the alias and
/// name stages yield nothing, `i` is the leftmost boundary-legal window
/// whose content equals a known code of the selected length (alpha-3, or
/// alpha-2 after the alpha-3 stage missed), and `k` is the first record
/// matching there, the cascade returns exactly record `k` — so the
/// resolver, whose contract ties its `Ok` to the cascade's hit, hands back
/// that record's data.
pub proof fn lemma_embedded_code_is_the_result(
    rs: Seq<CountryModel>,
    t: Seq<char>,
    cs: bool,
    fz: bool,
    three: bool,
    i: int,
    k: int,
)
    requires
        alias_stage(rs, t, cs) is None,
        zh_stage(rs, t, cs, ZhKind::Traditional) is None,
        zh_stage(rs, t, cs, ZhKind::Simplified) is None,
        en_stage(rs, t, cs) is None,
        !three ==> code_stage(rs, t, true) is None,
        0 <= i,
        window_ok(t, i, if three {
            3int
        } else {
            2int
        }),
        code_rec_at(rs, t, i, three) == Option::Some(k),
        forall|j: int|
            0 <= j < i ==> !(window_ok(t, j, if three {
                3int
            } else {
                2int
            }) && code_rec_at(rs, t, j, three) is Some),
    ensures
        cascade(rs, t, cs, fz) == MatchOutcome::Hit(k),
{
    lemma_first_window_decides(rs, t, three, i, k);
}

proof fn lemma_code_rec_from_some(
    rs: Seq<CountryModel>,
    t: Seq<char>,
    i: int,
    three: bool,
    j: int,
    k: int,
)
    requires
        0 <= j <= k < rs.len(),
        match_at(t, code_of(rs[k], three), i, false),
    ensures
        code_rec_at_from(rs, t, i, three, j) is Some,
    decreases k - j,
{
    if j < k && !match_at(t, code_of(rs[j], three), i, false) {
        lemma_code_rec_from_some(rs, t, i, three, j + 1, k);
    }
}

proof fn lemma_code_stage_from_some(rs: Seq<CountryModel>, t: Seq<char>, three: bool, j: int, i: int)
    requires
        0 <= j <= i,
        window_ok(t, i, if three {
            3int
        } else {
            2int
        }),
        code_rec_at(rs, t, i, three) is Some,
    ensures
        code_stage_from(rs, t, three, j) is Some,
    decreases i - j,
{
    let n: int = if three {
        3
    } else {
        2
    };
    assert(i + n <= t.len());
    if j < i {
        if !(window_ok(t, j, n) && code_rec_at(rs, t, j, three) is Some) {
            lemma_code_stage_from_some(rs, t, three, j + 1, i);
        }
    }
}

/// Ambiguity is reserved for the fuzzy fallback: with the fuzzy stage
/// disabled, the cascade ends in a single record or a miss, never a tie.
pub proof fn lemma_no_tie_without_fuzzy(rs: Seq<CountryModel>, t: Seq<char>, cs: bool)
    ensures
        !(cascade(rs, t, cs, false) is Tie),
{
}

/// Left-to-right determinism of the code stages: when the window at `i` is
/// the first boundary-legal window whose content equals a known code, the
/// code stage returns exactly the first record matching there.  With two
/// valid mentions in one text, the leftmost one decides, on every run.
pub proof fn lemma_first_window_decides(
    rs: Seq<CountryModel>,
    t: Seq<char>,
    three: bool,
    i: int,
    k: int,
)
    requires
        0 <= i,
        window_ok(t, i, if three {
            3int
        } else {
            2int
        }),
        code_rec_at(rs, t, i, three) == Option::Some(k),
        forall|j: int|
            0 <= j < i ==> !(window_ok(t, j, if three {
                3int
            } else {
                2int
            }) && code_rec_at(rs, t, j, three) is Some),
    ensures
        code_stage(rs, t, three) == Option::Some(k),
{
    lemma_code_stage_from_skips(rs, t, three, 0, i, k);
}

proof fn lemma_code_stage_from_skips(
    rs: Seq<CountryModel>,
    t: Seq<char>,
    three: bool,
    j: int,
    i: int,
    k: int,
)
    requires
        0 <= j <= i,
        window_ok(t, i, if three {
            3int
        } else {
            2int
        }),
        code_rec_at(rs, t, i, three) == Option::Some(k),
        forall|q: int|
            j <= q < i ==> !(window_ok(t, q, if three {
                3int
            } else {
                2int
            }) && code_rec_at(rs, t, q, three) is Some),
    ensures
        code_stage_from(rs, t, three, j) == Option::Some(k),
    decreases i - j,
{
    let n: int = if three {
        3
    } else {
        2
    };
    assert(i + n <= t.len());
    if j < i {
        lemma_code_stage_from_skips(rs, t, three, j + 1, i, k);
    }
}

/// Multi-mention determinism: the cascade is an ordered, short-circuiting
/// composition — whichever stage is the first to yield a candidate decides
/// the outcome, and the later stages never run.  Together with the fact that
/// every stage is a pure function of registry, text and settings, two calls
/// on equal inputs always give the same record.
pub proof fn lemma_first_stage_wins(rs: Seq<CountryModel>, t: Seq<char>, cs: bool, fz: bool)
    ensures
        (alias_stage(rs, t, cs) matches Option::Some(k) ==> cascade(rs, t, cs, fz)
            == MatchOutcome::Hit(k)),
        (alias_stage(rs, t, cs) is None ==> (zh_stage(rs, t, cs, ZhKind::Traditional) matches Option::Some(k)
            ==> cascade(rs, t, cs, fz) == MatchOutcome::Hit(k))),
        (alias_stage(rs, t, cs) is None && zh_stage(rs, t, cs, ZhKind::Traditional) is None ==> (
        zh_stage(rs, t, cs, ZhKind::Simplified) matches Option::Some(k) ==> cascade(rs, t, cs, fz)
            == MatchOutcome::Hit(k))),
        (alias_stage(rs, t, cs) is None && zh_stage(rs, t, cs, ZhKind::Traditional) is None
            && zh_stage(rs, t, cs, ZhKind::Simplified) is None ==> (en_stage(rs, t, cs) matches Option::Some(k)
            ==> cascade(rs, t, cs, fz) == MatchOutcome::Hit(k))),
        (alias_stage(rs, t, cs) is None && zh_stage(rs, t, cs, ZhKind::Traditional) is None
            && zh_stage(rs, t, cs, ZhKind::Simplified) is None && en_stage(rs, t, cs) is None ==> (
        code_stage(rs, t, true) matches Option::Some(k) ==> cascade(rs, t, cs, fz)
            == MatchOutcome::Hit(k))),
        (alias_stage(rs, t, cs) is None && zh_stage(rs, t, cs, ZhKind::Traditional) is None
            && zh_stage(rs, t, cs, ZhKind::Simplified) is None && en_stage(rs, t, cs) is None
            && code_stage(rs, t, true) is None ==> (code_stage(rs, t, false) matches Option::Some(k)
            ==> cascade(rs, t, cs, fz) == MatchOutcome::Hit(k))),
        (alias_stage(rs, t, cs) is None && zh_stage(rs, t, cs, ZhKind::Traditional) is None
            && zh_stage(rs, t, cs, ZhKind::Simplified) is None && en_stage(rs, t, cs) is None
            && code_stage(rs, t, true) is None && code_stage(rs, t, false) is None && fz
            ==> cascade(rs, t, cs, fz) == fuzzy_stage(rs, t, cs)),
        (alias_stage(rs, t, cs) is None && zh_stage(rs, t, cs, ZhKind::Traditional) is None
            && zh_stage(rs, t, cs, ZhKind::Simplified) is None && en_stage(rs, t, cs) is None
            && code_stage(rs, t, true) is None && code_stage(rs, t, false) is None && !fz
            ==> cascade(rs, t, cs, fz) is Miss),
{
}

} // verus!
