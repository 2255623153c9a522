//! Mathematical model of the registry and of the matching cascade.
//!
//! Every executable stage in `parser` is specified against the functions in
//! this module; the laws in `laws` are proved about them.  The cascade is
//! defined as a pure function of the registry view, the text view and the
//! settings, so the resolver's result is deterministic by construction.

use vstd::prelude::*;
use crate::text::{
    chars_eq, has_sub, is_ascii_digit_char, is_token_boundary, has_visible_char, match_at,
};

verus! {

/// Model of one country record: the views of its six fields.
pub struct CountryModel {
    pub alpha2: Seq<char>,
    pub alpha3: Seq<char>,
    pub name_en: Seq<char>,
    pub name_zh_cn: Seq<char>,
    pub name_zh_tw: Seq<char>,
    pub abbreviations: Seq<Seq<char>>,
}

/// A well-formed ISO code: exactly `n` upper-case ASCII letters.
pub open spec fn wf_code(s: Seq<char>, n: int) -> bool {
    &&& s.len() == n
    &&& forall|i: int| 0 <= i < s.len() ==> 65 <= #[trigger] s[i] as u32 && s[i] as u32 <= 90
}

/// A well-formed record: canonical codes and no field blank after trimming.
pub open spec fn wf_record(r: CountryModel) -> bool {
    &&& wf_code(r.alpha2, 2)
    &&& wf_code(r.alpha3, 3)
    &&& has_visible_char(r.name_en)
    &&& has_visible_char(r.name_zh_cn)
    &&& has_visible_char(r.name_zh_tw)
    &&& forall|j: int| 0 <= j < r.abbreviations.len()
        ==> has_visible_char(#[trigger] r.abbreviations[j])
}

/// Every record of the registry is well-formed.
pub open spec fn records_wf(rs: Seq<CountryModel>) -> bool {
    forall|k: int| 0 <= k < rs.len() ==> wf_record(#[trigger] rs[k])
}

/// The alpha-2 and alpha-3 codes are globally unique within the registry.
pub open spec fn codes_unique(rs: Seq<CountryModel>) -> bool {
    forall|k1: int, k2: int|
        #![trigger rs[k1], rs[k2]]
        0 <= k1 < k2 < rs.len()
            ==> rs[k1].alpha2 != rs[k2].alpha2 && rs[k1].alpha3 != rs[k2].alpha3
}

/// A well-formed registry: well-formed records and globally unique codes.
pub open spec fn wf_registry(rs: Seq<CountryModel>) -> bool {
    records_wf(rs) && codes_unique(rs)
}

/// The record has some alias contained in `t`.
pub open spec fn alias_hit(r: CountryModel, t: Seq<char>, cs: bool) -> bool {
    exists|a: int| 0 <= a < r.abbreviations.len() && has_sub(t, #[trigger] r.abbreviations[a], cs)
}

/// Alias stage, scanning the registry from index `k` on: the first record
/// one of whose aliases is contained in `t`.
pub open spec fn alias_stage_from(rs: Seq<CountryModel>, t: Seq<char>, cs: bool, k: int) -> Option<
    int,
>
    decreases rs.len() - k,
{
    if k < 0 || k >= rs.len() {
        Option::None
    } else if alias_hit(rs[k], t, cs) {
        Option::Some(k)
    } else {
        alias_stage_from(rs, t, cs, k + 1)
    }
}

/// Alias stage over the whole registry.
pub open spec fn alias_stage(rs: Seq<CountryModel>, t: Seq<char>, cs: bool) -> Option<int> {
    alias_stage_from(rs, t, cs, 0)
}

/// Which Chinese name a name stage matches against.
pub enum ZhKind {
    Traditional,
    Simplified,
}

/// The Chinese name of `r` selected by `z`.
pub open spec fn zh_name(r: CountryModel, z: ZhKind) -> Seq<char> {
    match z {
        ZhKind::Traditional => r.name_zh_tw,
        ZhKind::Simplified => r.name_zh_cn,
    }
}

/// Chinese-name stage, scanning from `k` with the best candidate so far in
/// `best`: among the records whose selected name is contained in `t`, the one
/// with the longest name wins, earliest registry position breaking ties.
pub open spec fn zh_stage_from(
    rs: Seq<CountryModel>,
    t: Seq<char>,
    cs: bool,
    z: ZhKind,
    k: int,
    best: Option<int>,
) -> Option<int>
    decreases rs.len() - k,
{
    if k < 0 || k >= rs.len() {
        best
    } else {
        let hit = has_sub(t, zh_name(rs[k], z), cs);
        let better = match best {
            Option::None => hit,
            Option::Some(b) => hit && zh_name(rs[k], z).len() > zh_name(rs[b], z).len(),
        };
        zh_stage_from(rs, t, cs, z, k + 1, if better {
            Option::Some(k)
        } else {
            best
        })
    }
}

/// Chinese-name stage over the whole registry.
pub open spec fn zh_stage(rs: Seq<CountryModel>, t: Seq<char>, cs: bool, z: ZhKind) -> Option<int> {
    zh_stage_from(rs, t, cs, z, 0, Option::None)
}

/// English-name stage, scanning from `k`: the first record whose English
/// name is contained in `t`.
pub open spec fn en_stage_from(rs: Seq<CountryModel>, t: Seq<char>, cs: bool, k: int) -> Option<int>
    decreases rs.len() - k,
{
    if k < 0 || k >= rs.len() {
        Option::None
    } else if has_sub(t, rs[k].name_en, cs) {
        Option::Some(k)
    } else {
        en_stage_from(rs, t, cs, k + 1)
    }
}

/// English-name stage over the whole registry.
pub open spec fn en_stage(rs: Seq<CountryModel>, t: Seq<char>, cs: bool) -> Option<int> {
    en_stage_from(rs, t, cs, 0)
}

/// The `n`-character window of `t` at `i` sits on legal boundaries: a
/// boundary (or the start of the text) before it, and a boundary, a digit or
/// the end of the text after it.
pub open spec fn window_ok(t: Seq<char>, i: int, n: int) -> bool {
    &&& 0 <= i && i + n <= t.len()
    &&& (i == 0 || is_token_boundary(t[i - 1]))
    &&& (i + n == t.len() || is_token_boundary(t[i + n]) || is_ascii_digit_char(t[i + n]))
}

/// The alpha-3 or alpha-2 code of `r`.
pub open spec fn code_of(r: CountryModel, three: bool) -> Seq<char> {
    if three {
        r.alpha3
    } else {
        r.alpha2
    }
}

/// First record (from `k` on) whose code matches the window at `i`,
/// case-insensitively: ISO codes have no case.
pub open spec fn code_rec_at_from(
    rs: Seq<CountryModel>,
    t: Seq<char>,
    i: int,
    three: bool,
    k: int,
) -> Option<int>
    decreases rs.len() - k,
{
    if k < 0 || k >= rs.len() {
        Option::None
    } else if match_at(t, code_of(rs[k], three), i, false) {
        Option::Some(k)
    } else {
        code_rec_at_from(rs, t, i, three, k + 1)
    }
}

/// First record whose code matches the window at `i`.
pub open spec fn code_rec_at(rs: Seq<CountryModel>, t: Seq<char>, i: int, three: bool) -> Option<
    int,
> {
    code_rec_at_from(rs, t, i, three, 0)
}

/// Code stage, scanning windows left to right from position `i`: the first
/// boundary-legal window that equals a known code decides, and the earliest
/// matching record at that window wins.
pub open spec fn code_stage_from(rs: Seq<CountryModel>, t: Seq<char>, three: bool, i: int) -> Option<
    int,
>
    decreases t.len() - i,
{
    let n: int = if three {
        3
    } else {
        2
    };
    if i < 0 || i + n > t.len() {
        Option::None
    } else if window_ok(t, i, n) && code_rec_at(rs, t, i, three) is Some {
        code_rec_at(rs, t, i, three)
    } else {
        code_stage_from(rs, t, three, i + 1)
    }
}

/// Code stage over the whole text.
pub open spec fn code_stage(rs: Seq<CountryModel>, t: Seq<char>, three: bool) -> Option<int> {
    code_stage_from(rs, t, three, 0)
}

/// Fuzzy priority of `r` for `t`: the weight of the best kind of containment
/// it has, lower winning.  Codes always compare case-insensitively.
pub open spec fn fuzzy_weight(r: CountryModel, t: Seq<char>, cs: bool) -> Option<int> {
    if has_sub(t, r.alpha2, false) {
        Option::Some(0)
    } else if has_sub(t, r.alpha3, false) {
        Option::Some(1)
    } else if has_sub(t, r.name_zh_cn, cs) || has_sub(t, r.name_zh_tw, cs) {
        Option::Some(2)
    } else if has_sub(t, r.name_en, cs) {
        Option::Some(3)
    } else if alias_hit(r, t, cs) {
        Option::Some(4)
    } else {
        Option::None
    }
}

/// Best (lowest) fuzzy weight over the registry from `k` on, starting from
/// `best`.
pub open spec fn fuzzy_best_from(
    rs: Seq<CountryModel>,
    t: Seq<char>,
    cs: bool,
    k: int,
    best: Option<int>,
) -> Option<int>
    decreases rs.len() - k,
{
    if k < 0 || k >= rs.len() {
        best
    } else {
        let w = fuzzy_weight(rs[k], t, cs);
        let nb = match (best, w) {
            (Option::None, _) => w,
            (Option::Some(b), Option::Some(x)) => if x < b {
                Option::Some(x)
            } else {
                best
            },
            (Option::Some(_), Option::None) => best,
        };
        fuzzy_best_from(rs, t, cs, k + 1, nb)
    }
}

/// Best fuzzy weight over the whole registry.
pub open spec fn fuzzy_best(rs: Seq<CountryModel>, t: Seq<char>, cs: bool) -> Option<int> {
    fuzzy_best_from(rs, t, cs, 0, Option::None)
}

/// Indices (from `k` on, appended to `acc`) of the records whose fuzzy
/// weight equals `w`, in registry order.
pub open spec fn fuzzy_ties_from(
    rs: Seq<CountryModel>,
    t: Seq<char>,
    cs: bool,
    w: int,
    k: int,
    acc: Seq<int>,
) -> Seq<int>
    decreases rs.len() - k,
{
    if k < 0 || k >= rs.len() {
        acc
    } else {
        let acc2 = if fuzzy_weight(rs[k], t, cs) == Option::Some(w) {
            acc.push(k)
        } else {
            acc
        };
        fuzzy_ties_from(rs, t, cs, w, k + 1, acc2)
    }
}

/// Indices of the records tied at weight `w`, in registry order.
pub open spec fn fuzzy_ties(rs: Seq<CountryModel>, t: Seq<char>, cs: bool, w: int) -> Seq<int> {
    fuzzy_ties_from(rs, t, cs, w, 0, Seq::empty())
}

/// Result of the cascade: a single record, no record, or a fuzzy tie.
pub enum MatchOutcome {
    Hit(int),
    Miss,
    Tie(Seq<int>),
}

/// Fuzzy fallback stage: a unique best-priority record wins; several records
/// tied at the best priority are reported as a tie; no containment at all is
/// a miss.
pub open spec fn fuzzy_stage(rs: Seq<CountryModel>, t: Seq<char>, cs: bool) -> MatchOutcome {
    match fuzzy_best(rs, t, cs) {
        Option::None => MatchOutcome::Miss,
        Option::Some(w) => {
            let ties = fuzzy_ties(rs, t, cs, w);
            if ties.len() == 1 {
                MatchOutcome::Hit(ties[0])
            } else {
                MatchOutcome::Tie(ties)
            }
        },
    }
}

/// The full cascade: strictly ordered stages, the first stage that yields a
/// candidate short-circuiting the rest; the fuzzy fallback runs only when
/// enabled.
pub open spec fn cascade(rs: Seq<CountryModel>, t: Seq<char>, cs: bool, fuzzy: bool) -> MatchOutcome {
    match alias_stage(rs, t, cs) {
        Option::Some(k) => MatchOutcome::Hit(k),
        Option::None => match zh_stage(rs, t, cs, ZhKind::Traditional) {
            Option::Some(k) => MatchOutcome::Hit(k),
            Option::None => match zh_stage(rs, t, cs, ZhKind::Simplified) {
                Option::Some(k) => MatchOutcome::Hit(k),
                Option::None => match en_stage(rs, t, cs) {
                    Option::Some(k) => MatchOutcome::Hit(k),
                    Option::None => match code_stage(rs, t, true) {
                        Option::Some(k) => MatchOutcome::Hit(k),
                        Option::None => match code_stage(rs, t, false) {
                            Option::Some(k) => MatchOutcome::Hit(k),
                            Option::None => if fuzzy {
                                fuzzy_stage(rs, t, cs)
                            } else {
                                MatchOutcome::Miss
                            },
                        },
                    },
                },
            },
        },
    }
}

/// An input the resolver accepts: not blank after trimming and at most 1024
/// characters long.
pub open spec fn input_ok(t: Seq<char>) -> bool {
    has_visible_char(t) && t.len() <= 1024
}

} // verus!
