//! The executable matching cascade and the resolver.
//!
//! Every stage function is verified against its counterpart in `model`; the
//! resolver's contract (`parse_post`) fixes the result for every input, up
//! to the latency ceiling, whose clock is the one trusted call of the crate.

use vstd::prelude::*;
use crate::config::{builtin_registry, regs_of, Configuration, CountryInfo};
use crate::error::ParseError;
use crate::model::{
    alias_hit, alias_stage, alias_stage_from, cascade, code_of, code_rec_at, code_rec_at_from,
    code_stage, code_stage_from, en_stage, en_stage_from, fuzzy_best, fuzzy_best_from,
    fuzzy_ties, fuzzy_ties_from, fuzzy_weight, input_ok, window_ok, zh_name, zh_stage,
    zh_stage_from, CountryModel, MatchOutcome, ZhKind,
};
use crate::text::{
    chars_of_str, has_sub, has_sub_exec, has_visible_exec, is_ascii_digit_exec,
    is_token_boundary, match_at_exec,
};
use crate::ParserConfig;

verus! {

/// Relies on `std::time::SystemTime`: the wall-clock time, in milliseconds
/// since the Unix epoch, truncated to 64 bits.  It only feeds the
/// latency-budget check of the resolver, through the verified
/// [`budget_exceeded`].  Nothing is assumed of the value: the clock may
/// move arbitrarily between two calls, so the resolver states only that a
/// `Timeout` error may replace its result.
#[verifier::external_body]
fn now_millis() -> u64 {
    match std::time::SystemTime::now().duration_since(std::time::UNIX_EPOCH) {
        Ok(d) => d.as_millis() as u64,
        Err(_) => 0,
    }
}

/// The latency-budget decision on two clock readings: the budget is
/// exceeded exactly when the clock moved forward between the readings and
/// by more than `budget` milliseconds.  A clock that stood still or moved
/// backwards never charges the budget, so a `Timeout` is returned when and
/// only when this comparison says so.
pub fn budget_exceeded(started: u64, finished: u64, budget: u64) -> (r: bool)
    ensures
        r == (finished > started && finished - started > budget),
{
    finished > started && finished - started > budget
}

/// A character that delimits a token for the code-matching stages: anything
/// other than an ASCII letter or digit, which covers whitespace, decorative
/// punctuation such as `@ [ ] # 【 】` and full-width separators, and CJK
/// text.  A digit is not a boundary; it is accepted separately as a trailing
/// delimiter of a code, so that `US1` still resolves.
pub fn is_boundary_char(c: char) -> (r: bool)
    ensures
        r == is_token_boundary(c),
{
    let code = c as u32;
    !((65 <= code && code <= 90) || (97 <= code && code <= 122) || (48 <= code && code <= 57))
}

/// The indices of `s` as mathematical integers.
pub open spec fn idxs_of(s: Seq<usize>) -> Seq<int> {
    s.map_values(|x: usize| x as int)
}

/// An `Option<usize>` as an `Option<int>`.
pub open spec fn opt_idx(o: Option<usize>) -> Option<int> {
    match o {
        Option::Some(k) => Option::Some(k as int),
        Option::None => Option::None,
    }
}

/// Whether some alias of `c` is contained in `t`.
fn alias_hit_exec(c: &CountryInfo, t: &Vec<char>, case_sensitive: bool) -> (r: bool)
    ensures
        r == alias_hit(c@, t@, case_sensitive),
{
    let mut a: usize = 0;
    while a < c.abbreviations.len()
        invariant
            a <= c.abbreviations@.len(),
            forall|q: int|
                0 <= q < a ==> !has_sub(t@, #[trigger] c@.abbreviations[q], case_sensitive),
        decreases c.abbreviations@.len() - a,
    {
        let p = chars_of_str(c.abbreviations[a].as_str());
        proof {
            assert(p@ == c@.abbreviations[a as int]);
        }
        if has_sub_exec(t, &p, case_sensitive) {
            return true;
        }
        a += 1;
    }
    false
}

/// Alias stage: first record one of whose aliases is contained in `t`.
fn alias_scan(countries: &Vec<CountryInfo>, t: &Vec<char>, case_sensitive: bool) -> (r: Option<
    usize,
>)
    ensures
        ({
            let rs = regs_of(countries@);
            match r {
                Option::Some(k) => (k as int) < rs.len() && alias_stage(rs, t@, case_sensitive)
                    == Option::Some(k as int),
                Option::None => alias_stage(rs, t@, case_sensitive) is None,
            }
        }),
{
    let ghost rs = regs_of(countries@);
    let mut k: usize = 0;
    while k < countries.len()
        invariant
            rs == regs_of(countries@),
            rs.len() == countries@.len(),
            k <= countries@.len(),
            alias_stage(rs, t@, case_sensitive) == alias_stage_from(
                rs,
                t@,
                case_sensitive,
                k as int,
            ),
        decreases countries@.len() - k,
    {
        proof {
            assert(rs[k as int] == countries@[k as int]@);
        }
        if alias_hit_exec(&countries[k], t, case_sensitive) {
            proof {
                assert(alias_stage_from(rs, t@, case_sensitive, k as int) == Option::Some(
                    k as int,
                ));
            }
            return Option::Some(k);
        }
        proof {
            assert(alias_stage_from(rs, t@, case_sensitive, k as int) == alias_stage_from(
                rs,
                t@,
                case_sensitive,
                k as int + 1,
            ));
        }
        k += 1;
    }
    proof {
        assert(alias_stage_from(rs, t@, case_sensitive, k as int) is None);
    }
    Option::None
}

/// Chinese-name stage: longest contained name wins, earliest record on ties.
fn zh_scan(
    countries: &Vec<CountryInfo>,
    t: &Vec<char>,
    case_sensitive: bool,
    traditional: bool,
) -> (r: Option<usize>)
    ensures
        ({
            let rs = regs_of(countries@);
            let z = if traditional {
                ZhKind::Traditional
            } else {
                ZhKind::Simplified
            };
            match r {
                Option::Some(k) => (k as int) < rs.len() && zh_stage(rs, t@, case_sensitive, z)
                    == Option::Some(k as int),
                Option::None => zh_stage(rs, t@, case_sensitive, z) is None,
            }
        }),
{
    let ghost rs = regs_of(countries@);
    let ghost z = if traditional {
        ZhKind::Traditional
    } else {
        ZhKind::Simplified
    };
    let mut best: Option<usize> = Option::None;
    let mut best_len: usize = 0;
    let mut k: usize = 0;
    while k < countries.len()
        invariant
            rs == regs_of(countries@),
            z == (if traditional {
                ZhKind::Traditional
            } else {
                ZhKind::Simplified
            }),
            rs.len() == countries@.len(),
            k <= countries@.len(),
            (match best {
                Option::Some(b) => (b as int) < k as int && best_len == zh_name(
                    rs[b as int],
                    z,
                ).len(),
                Option::None => true,
            }),
            zh_stage(rs, t@, case_sensitive, z) == zh_stage_from(
                rs,
                t@,
                case_sensitive,
                z,
                k as int,
                opt_idx(best),
            ),
        decreases countries@.len() - k,
    {
        let name = if traditional {
            chars_of_str(countries[k].name_zh_tw.as_str())
        } else {
            chars_of_str(countries[k].name_zh_cn.as_str())
        };
        proof {
            assert(rs[k as int] == countries@[k as int]@);
            assert(name@ == zh_name(rs[k as int], z));
        }
        let hit = has_sub_exec(t, &name, case_sensitive);
        let better = hit && (best.is_none() || name.len() > best_len);
        proof {
            let spec_better = match opt_idx(best) {
                Option::None => has_sub(t@, zh_name(rs[k as int], z), case_sensitive),
                Option::Some(b) => has_sub(t@, zh_name(rs[k as int], z), case_sensitive)
                    && zh_name(rs[k as int], z).len() > zh_name(rs[b], z).len(),
            };
            assert(better == spec_better);
            assert(zh_stage_from(rs, t@, case_sensitive, z, k as int, opt_idx(best))
                == zh_stage_from(rs, t@, case_sensitive, z, k as int + 1, if spec_better {
                Option::Some(k as int)
            } else {
                opt_idx(best)
            }));
        }
        if better {
            best = Option::Some(k);
            best_len = name.len();
        }
        k += 1;
    }
    proof {
        assert(zh_stage_from(rs, t@, case_sensitive, z, k as int, opt_idx(best)) == opt_idx(best));
    }
    best
}

/// English-name stage: first record whose English name is contained in `t`.
fn en_scan(countries: &Vec<CountryInfo>, t: &Vec<char>, case_sensitive: bool) -> (r: Option<usize>)
    ensures
        ({
            let rs = regs_of(countries@);
            match r {
                Option::Some(k) => (k as int) < rs.len() && en_stage(rs, t@, case_sensitive)
                    == Option::Some(k as int),
                Option::None => en_stage(rs, t@, case_sensitive) is None,
            }
        }),
{
    let ghost rs = regs_of(countries@);
    let mut k: usize = 0;
    while k < countries.len()
        invariant
            rs == regs_of(countries@),
            rs.len() == countries@.len(),
            k <= countries@.len(),
            en_stage(rs, t@, case_sensitive) == en_stage_from(rs, t@, case_sensitive, k as int),
        decreases countries@.len() - k,
    {
        proof {
            assert(rs[k as int] == countries@[k as int]@);
        }
        let p = chars_of_str(countries[k].name_en.as_str());
        if has_sub_exec(t, &p, case_sensitive) {
            proof {
                assert(en_stage_from(rs, t@, case_sensitive, k as int) == Option::Some(k as int));
            }
            return Option::Some(k);
        }
        proof {
            assert(en_stage_from(rs, t@, case_sensitive, k as int) == en_stage_from(
                rs,
                t@,
                case_sensitive,
                k as int + 1,
            ));
        }
        k += 1;
    }
    proof {
        assert(en_stage_from(rs, t@, case_sensitive, k as int) is None);
    }
    Option::None
}

/// The window at `i` sits on legal boundaries.
fn window_ok_exec(t: &Vec<char>, i: usize, n: usize) -> (r: bool)
    requires
        i + n <= t@.len(),
    ensures
        r == window_ok(t@, i as int, n as int),
{
    let total = t.len();
    let prev_ok = i == 0 || is_boundary_char(t[i - 1]);
    let next_ok = i + n == total || is_boundary_char(t[i + n]) || is_ascii_digit_exec(t[i + n]);
    prev_ok && next_ok
}

/// First record whose selected code matches the window at `i`.
fn code_rec_scan(countries: &Vec<CountryInfo>, t: &Vec<char>, i: usize, three: bool) -> (r: Option<
    usize,
>)
    requires
        i <= t@.len(),
    ensures
        ({
            let rs = regs_of(countries@);
            match r {
                Option::Some(k) => (k as int) < rs.len() && code_rec_at(rs, t@, i as int, three)
                    == Option::Some(k as int),
                Option::None => code_rec_at(rs, t@, i as int, three) is None,
            }
        }),
{
    let ghost rs = regs_of(countries@);
    let mut k: usize = 0;
    while k < countries.len()
        invariant
            rs == regs_of(countries@),
            rs.len() == countries@.len(),
            k <= countries@.len(),
            i <= t@.len(),
            code_rec_at(rs, t@, i as int, three) == code_rec_at_from(
                rs,
                t@,
                i as int,
                three,
                k as int,
            ),
        decreases countries@.len() - k,
    {
        proof {
            assert(rs[k as int] == countries@[k as int]@);
        }
        let p = if three {
            chars_of_str(countries[k].alpha3.as_str())
        } else {
            chars_of_str(countries[k].alpha2.as_str())
        };
        proof {
            assert(p@ == code_of(rs[k as int], three));
        }
        if match_at_exec(t, &p, i, false) {
            proof {
                assert(code_rec_at_from(rs, t@, i as int, three, k as int) == Option::Some(
                    k as int,
                ));
            }
            return Option::Some(k);
        }
        proof {
            assert(code_rec_at_from(rs, t@, i as int, three, k as int) == code_rec_at_from(
                rs,
                t@,
                i as int,
                three,
                k as int + 1,
            ));
        }
        k += 1;
    }
    proof {
        assert(code_rec_at_from(rs, t@, i as int, three, k as int) is None);
    }
    Option::None
}

/// Code stage: scans the windows of `t` left to right; the first
/// boundary-legal window equal to a known code decides.
fn code_scan(countries: &Vec<CountryInfo>, t: &Vec<char>, three: bool) -> (r: Option<usize>)
    ensures
        ({
            let rs = regs_of(countries@);
            match r {
                Option::Some(k) => (k as int) < rs.len() && code_stage(rs, t@, three)
                    == Option::Some(k as int),
                Option::None => code_stage(rs, t@, three) is None,
            }
        }),
{
    let ghost rs = regs_of(countries@);
    let n: usize = if three {
        3
    } else {
        2
    };
    if t.len() < n {
        proof {
            assert(code_stage_from(rs, t@, three, 0) is None);
        }
        return Option::None;
    }
    let last = t.len() - n;
    let mut i: usize = 0;
    while i <= last
        invariant
            rs == regs_of(countries@),
            n == (if three {
                3int
            } else {
                2int
            }),
            t@.len() <= usize::MAX,
            n <= t@.len(),
            last == t@.len() - n,
            i <= last + 1,
            code_stage(rs, t@, three) == code_stage_from(rs, t@, three, i as int),
        decreases last + 1 - i,
    {
        if window_ok_exec(t, i, n) {
            let found = code_rec_scan(countries, t, i, three);
            if let Option::Some(k) = found {
                proof {
                    assert(code_stage_from(rs, t@, three, i as int) == Option::Some(k as int));
                }
                return Option::Some(k);
            }
            proof {
                assert(code_stage_from(rs, t@, three, i as int) == code_stage_from(
                    rs,
                    t@,
                    three,
                    i as int + 1,
                ));
            }
        } else {
            proof {
                assert(code_stage_from(rs, t@, three, i as int) == code_stage_from(
                    rs,
                    t@,
                    three,
                    i as int + 1,
                ));
            }
        }
        i += 1;
    }
    proof {
        assert(code_stage_from(rs, t@, three, i as int) is None);
    }
    Option::None
}

/// The fuzzy priority of one record, as the fuzzy fallback weighs it.
fn fuzzy_weight_exec(c: &CountryInfo, t: &Vec<char>, case_sensitive: bool) -> (r: Option<u8>)
    ensures
        ({
            match r {
                Option::Some(w) => fuzzy_weight(c@, t@, case_sensitive) == Option::Some(w as int),
                Option::None => fuzzy_weight(c@, t@, case_sensitive) is None,
            }
        }),
{
    let a2 = chars_of_str(c.alpha2.as_str());
    if has_sub_exec(t, &a2, false) {
        return Option::Some(0);
    }
    let a3 = chars_of_str(c.alpha3.as_str());
    if has_sub_exec(t, &a3, false) {
        return Option::Some(1);
    }
    let cn = chars_of_str(c.name_zh_cn.as_str());
    let tw = chars_of_str(c.name_zh_tw.as_str());
    if has_sub_exec(t, &cn, case_sensitive) || has_sub_exec(t, &tw, case_sensitive) {
        return Option::Some(2);
    }
    let en = chars_of_str(c.name_en.as_str());
    if has_sub_exec(t, &en, case_sensitive) {
        return Option::Some(3);
    }
    if alias_hit_exec(c, t, case_sensitive) {
        return Option::Some(4);
    }
    Option::None
}

/// An `Option<u8>` weight as an `Option<int>`.
pub open spec fn opt_weight(o: Option<u8>) -> Option<int> {
    match o {
        Option::Some(w) => Option::Some(w as int),
        Option::None => Option::None,
    }
}

/// Best (lowest) fuzzy weight over the registry.
fn fuzzy_best_scan(countries: &Vec<CountryInfo>, t: &Vec<char>, case_sensitive: bool) -> (r: Option<
    u8,
>)
    ensures
        opt_weight(r) == fuzzy_best(regs_of(countries@), t@, case_sensitive),
{
    let ghost rs = regs_of(countries@);
    let mut best: Option<u8> = Option::None;
    let mut k: usize = 0;
    while k < countries.len()
        invariant
            rs == regs_of(countries@),
            rs.len() == countries@.len(),
            k <= countries@.len(),
            fuzzy_best(rs, t@, case_sensitive) == fuzzy_best_from(
                rs,
                t@,
                case_sensitive,
                k as int,
                opt_weight(best),
            ),
        decreases countries@.len() - k,
    {
        proof {
            assert(rs[k as int] == countries@[k as int]@);
        }
        let w = fuzzy_weight_exec(&countries[k], t, case_sensitive);
        let ghost prev = opt_weight(best);
        let next = match (best, w) {
            (Option::None, _) => w,
            (Option::Some(b), Option::Some(x)) => if x < b {
                Option::Some(x)
            } else {
                best
            },
            (Option::Some(_), Option::None) => best,
        };
        proof {
            let sw = fuzzy_weight(rs[k as int], t@, case_sensitive);
            let nb = match (prev, sw) {
                (Option::None, _) => sw,
                (Option::Some(b), Option::Some(x)) => if x < b {
                    Option::Some(x)
                } else {
                    prev
                },
                (Option::Some(_), Option::None) => prev,
            };
            assert(opt_weight(next) == nb);
            assert(fuzzy_best_from(rs, t@, case_sensitive, k as int, prev) == fuzzy_best_from(
                rs,
                t@,
                case_sensitive,
                k as int + 1,
                nb,
            ));
        }
        best = next;
        k += 1;
    }
    proof {
        assert(fuzzy_best_from(rs, t@, case_sensitive, k as int, opt_weight(best)) == opt_weight(
            best,
        ));
    }
    best
}

/// The records tied at weight `w`, in registry order.
fn fuzzy_ties_scan(
    countries: &Vec<CountryInfo>,
    t: &Vec<char>,
    case_sensitive: bool,
    w: u8,
) -> (r: Vec<usize>)
    ensures
        idxs_of(r@) == fuzzy_ties(regs_of(countries@), t@, case_sensitive, w as int),
        forall|q: int| 0 <= q < r@.len() ==> (#[trigger] r@[q] as int) < countries@.len(),
{
    let ghost rs = regs_of(countries@);
    let mut acc: Vec<usize> = Vec::new();
    let mut k: usize = 0;
    proof {
        assert(idxs_of(acc@) =~= Seq::<int>::empty());
    }
    while k < countries.len()
        invariant
            rs == regs_of(countries@),
            rs.len() == countries@.len(),
            k <= countries@.len(),
            forall|q: int| 0 <= q < acc@.len() ==> (#[trigger] acc@[q] as int) < countries@.len(),
            fuzzy_ties(rs, t@, case_sensitive, w as int) == fuzzy_ties_from(
                rs,
                t@,
                case_sensitive,
                w as int,
                k as int,
                idxs_of(acc@),
            ),
        decreases countries@.len() - k,
    {
        proof {
            assert(rs[k as int] == countries@[k as int]@);
        }
        let ghost prev = idxs_of(acc@);
        let wk = fuzzy_weight_exec(&countries[k], t, case_sensitive);
        let take = match wk {
            Option::Some(x) => x == w,
            Option::None => false,
        };
        proof {
            let hit = fuzzy_weight(rs[k as int], t@, case_sensitive) == Option::Some(w as int);
            assert(take == hit);
            assert(fuzzy_ties_from(rs, t@, case_sensitive, w as int, k as int, prev)
                == fuzzy_ties_from(rs, t@, case_sensitive, w as int, k as int + 1, if hit {
                prev.push(k as int)
            } else {
                prev
            }));
        }
        if take {
            acc.push(k);
            proof {
                assert(idxs_of(acc@) =~= prev.push(k as int));
            }
        }
        k += 1;
    }
    proof {
        assert(fuzzy_ties_from(rs, t@, case_sensitive, w as int, k as int, idxs_of(acc@))
            == idxs_of(acc@));
    }
    acc
}

/// Executable result of the cascade.
enum StageOutcome {
    Found(usize),
    NoMatch,
    Tied(Vec<usize>),
}

/// The model outcome an executable outcome stands for.
spec fn outcome_abs(r: StageOutcome) -> MatchOutcome {
    match r {
        StageOutcome::Found(k) => MatchOutcome::Hit(k as int),
        StageOutcome::NoMatch => MatchOutcome::Miss,
        StageOutcome::Tied(v) => MatchOutcome::Tie(idxs_of(v@)),
    }
}

/// Runs the cascade stages strictly in priority order over `t`.
fn run_cascade(countries: &Vec<CountryInfo>, t: &Vec<char>, case_sensitive: bool, fuzzy: bool) -> (r:
    StageOutcome)
    ensures
        outcome_abs(r) == cascade(regs_of(countries@), t@, case_sensitive, fuzzy),
        (r matches StageOutcome::Found(k) ==> (k as int) < countries@.len()),
        (r matches StageOutcome::Tied(v) ==> forall|q: int|
            0 <= q < v@.len() ==> (#[trigger] v@[q] as int) < countries@.len()),
{
    if let Option::Some(k) = alias_scan(countries, t, case_sensitive) {
        return StageOutcome::Found(k);
    }
    if let Option::Some(k) = zh_scan(countries, t, case_sensitive, true) {
        return StageOutcome::Found(k);
    }
    if let Option::Some(k) = zh_scan(countries, t, case_sensitive, false) {
        return StageOutcome::Found(k);
    }
    if let Option::Some(k) = en_scan(countries, t, case_sensitive) {
        return StageOutcome::Found(k);
    }
    if let Option::Some(k) = code_scan(countries, t, true) {
        return StageOutcome::Found(k);
    }
    if let Option::Some(k) = code_scan(countries, t, false) {
        return StageOutcome::Found(k);
    }
    if !fuzzy {
        return StageOutcome::NoMatch;
    }
    let best = fuzzy_best_scan(countries, t, case_sensitive);
    match best {
        Option::None => StageOutcome::NoMatch,
        Option::Some(w) => {
            let ties = fuzzy_ties_scan(countries, t, case_sensitive, w);
            if ties.len() == 1 {
                let k = ties[0];
                proof {
                    assert(idxs_of(ties@)[0] == k as int);
                }
                StageOutcome::Found(k)
            } else {
                StageOutcome::Tied(ties)
            }
        },
    }
}

/// The error `e` reports the cascade outcome `out` for input `t` faithfully.
pub open spec fn error_matches(
    e: ParseError,
    t: Seq<char>,
    out: MatchOutcome,
    rs: Seq<CountryModel>,
) -> bool {
    match e {
        ParseError::NotFound { text } => text@ == t && out is Miss,
        ParseError::Ambiguous { text, candidates } => match out {
            MatchOutcome::Tie(ks) => text@ == t && candidates.deep_view() == ks.map_values(
                |k: int| rs[k].alpha2,
            ),
            _ => false,
        },
        _ => false,
    }
}

/// The result `r` is exactly what the cascade decides for `t`.
pub open spec fn outcome_matches(
    r: Result<CountryInfo, ParseError>,
    t: Seq<char>,
    rs: Seq<CountryModel>,
    cs: bool,
    fz: bool,
) -> bool {
    match r {
        Result::Ok(c) => match cascade(rs, t, cs, fz) {
            MatchOutcome::Hit(k) => 0 <= k < rs.len() && c@ == rs[k],
            _ => false,
        },
        Result::Err(e) => error_matches(e, t, cascade(rs, t, cs, fz), rs),
    }
}

/// The full contract of the resolver: blank or over-long input is rejected
/// as `InvalidInput` before anything else; otherwise the result is exactly
/// the cascade's decision over the built-in registry, except that a
/// `Timeout` carrying the configured budget may replace it when the wall
/// clock ran past the budget.
pub open spec fn parse_post(
    r: Result<CountryInfo, ParseError>,
    t: Seq<char>,
    cs: bool,
    fz: bool,
    tm: u64,
) -> bool {
    if !input_ok(t) {
        match r {
            Result::Err(ParseError::InvalidInput { text }) => text@ == t,
            _ => false,
        }
    } else {
        ||| outcome_matches(r, t, builtin_registry(), cs, fz)
        ||| (match r {
            Result::Err(ParseError::Timeout { timeout_ms }) => timeout_ms == tm,
            _ => false,
        })
    }
}

/// Resolves `text` against the built-in registry with the given settings.
pub fn parse_country_code_with_config(text: &str, config: &ParserConfig) -> (r: Result<
    CountryInfo,
    ParseError,
>)
    ensures
        parse_post(r, text@, config.case_sensitive, config.fuzzy_match, config.timeout_ms),
{
    let t = chars_of_str(text);
    if !has_visible_exec(&t) {
        return Result::Err(ParseError::invalid_input(text));
    }
    if t.len() > 1024 {
        return Result::Err(ParseError::invalid_input(text));
    }
    let cfg = match Configuration::load() {
        Result::Ok(c) => c,
        Result::Err(e) => {
            return Result::Err(e);
        },
    };
    let started = now_millis();
    let outcome = run_cascade(
        &cfg.countries_config.countries,
        &t,
        config.case_sensitive,
        config.fuzzy_match,
    );
    let finished = now_millis();
    if budget_exceeded(started, finished, config.timeout_ms) {
        return Result::Err(ParseError::timeout(config.timeout_ms));
    }
    let ghost rs = builtin_registry();
    match outcome {
        StageOutcome::Found(k) => Result::Ok(cfg.countries_config.countries[k].clone()),
        StageOutcome::NoMatch => Result::Err(ParseError::not_found(text)),
        StageOutcome::Tied(ks) => {
            let ghost tie = idxs_of(ks@);
            let countries = &cfg.countries_config.countries;
            let mut cands: Vec<String> = Vec::new();
            let mut m: usize = 0;
            proof {
                assert(cands.deep_view() =~= tie.subrange(0, 0).map_values(
                    |k: int| rs[k].alpha2,
                ));
            }
            while m < ks.len()
                invariant
                    rs == builtin_registry(),
                    tie == idxs_of(ks@),
                    regs_of(countries@) == rs,
                    countries == &cfg.countries_config.countries,
                    tie.len() == ks@.len(),
                    m <= ks@.len(),
                    forall|q: int|
                        0 <= q < ks@.len() ==> (#[trigger] ks@[q] as int) < countries@.len(),
                    cands.deep_view() == tie.subrange(0, m as int).map_values(
                        |k: int| rs[k].alpha2,
                    ),
                decreases ks@.len() - m,
            {
                let idx = ks[m];
                proof {
                    assert(rs[idx as int] == countries@[idx as int]@);
                    assert(tie[m as int] == idx as int);
                }
                let ghost prevc = cands.deep_view();
                cands.push(countries[idx].alpha2.clone());
                proof {
                    assert(cands.deep_view() =~= prevc.push(countries@[idx as int].alpha2@));
                    assert(rs[idx as int].alpha2 == countries@[idx as int].alpha2@);
                    assert(tie.subrange(0, m + 1 as int) =~= tie.subrange(0, m as int).push(
                        tie[m as int],
                    ));
                    assert(tie.subrange(0, m + 1 as int).map_values(|k: int| rs[k].alpha2)
                        =~= tie.subrange(0, m as int).map_values(|k: int| rs[k].alpha2).push(
                        rs[tie[m as int]].alpha2,
                    ));
                    assert(cands.deep_view() =~= tie.subrange(0, m + 1 as int).map_values(
                        |k: int| rs[k].alpha2,
                    ));
                }
                m += 1;
            }
            proof {
                assert(tie.subrange(0, ks@.len() as int) =~= tie);
            }
            Result::Err(ParseError::ambiguous(text, cands))
        },
    }
}

/// Resolves `text` with the default settings: case-insensitive, fuzzy
/// fallback enabled, a 100 ms budget.
pub fn parse_country_code(text: &str) -> (r: Result<CountryInfo, ParseError>)
    ensures
        parse_post(r, text@, false, true, 100),
{
    let config = ParserConfig { case_sensitive: false, fuzzy_match: true, timeout_ms: 100 };
    parse_country_code_with_config(text, &config)
}

/// Alias/abbreviation stage over a configuration, as a strategy of its own:
/// the first record one of whose aliases is contained in `text`,
/// case-insensitively; `NotFound` when none is.
pub fn parse_abbreviations(text: &str, config_data: &Configuration) -> (r: Result<
    CountryInfo,
    ParseError,
>)
    ensures
        ({
            let rs = regs_of(config_data.countries_config.countries@);
            match r {
                Result::Ok(c) => match alias_stage(rs, text@, false) {
                    Option::Some(k) => 0 <= k < rs.len() && c@ == rs[k],
                    Option::None => false,
                },
                Result::Err(e) => {
                    &&& e matches ParseError::NotFound { text: s } && s@ == text@
                    &&& alias_stage(rs, text@, false) is None
                },
            }
        }),
{
    let t = chars_of_str(text);
    match alias_scan(&config_data.countries_config.countries, &t, false) {
        Option::Some(k) => Result::Ok(config_data.countries_config.countries[k].clone()),
        Option::None => Result::Err(ParseError::not_found(text)),
    }
}

/// Traditional-Chinese-name stage as a strategy of its own: containment
/// alone decides, the longest contained name winning.
pub fn parse_traditional_chinese_names(text: &str, config_data: &Configuration) -> (r: Result<
    CountryInfo,
    ParseError,
>)
    ensures
        ({
            let rs = regs_of(config_data.countries_config.countries@);
            match r {
                Result::Ok(c) => match zh_stage(rs, text@, false, ZhKind::Traditional) {
                    Option::Some(k) => 0 <= k < rs.len() && c@ == rs[k],
                    Option::None => false,
                },
                Result::Err(e) => {
                    &&& e matches ParseError::NotFound { text: s } && s@ == text@
                    &&& zh_stage(rs, text@, false, ZhKind::Traditional) is None
                },
            }
        }),
{
    let t = chars_of_str(text);
    match zh_scan(&config_data.countries_config.countries, &t, false, true) {
        Option::Some(k) => Result::Ok(config_data.countries_config.countries[k].clone()),
        Option::None => Result::Err(ParseError::not_found(text)),
    }
}

/// Simplified-Chinese-name stage as a strategy of its own: containment
/// alone decides, the longest contained name winning.
pub fn parse_simplified_chinese_names(text: &str, config_data: &Configuration) -> (r: Result<
    CountryInfo,
    ParseError,
>)
    ensures
        ({
            let rs = regs_of(config_data.countries_config.countries@);
            match r {
                Result::Ok(c) => match zh_stage(rs, text@, false, ZhKind::Simplified) {
                    Option::Some(k) => 0 <= k < rs.len() && c@ == rs[k],
                    Option::None => false,
                },
                Result::Err(e) => {
                    &&& e matches ParseError::NotFound { text: s } && s@ == text@
                    &&& zh_stage(rs, text@, false, ZhKind::Simplified) is None
                },
            }
        }),
{
    let t = chars_of_str(text);
    match zh_scan(&config_data.countries_config.countries, &t, false, false) {
        Option::Some(k) => Result::Ok(config_data.countries_config.countries[k].clone()),
        Option::None => Result::Err(ParseError::not_found(text)),
    }
}

/// English-name stage as a strategy of its own: case-insensitive containment
/// of the record's English name, first record in registry order winning.
pub fn parse_english_names(text: &str, config_data: &Configuration) -> (r: Result<
    CountryInfo,
    ParseError,
>)
    ensures
        ({
            let rs = regs_of(config_data.countries_config.countries@);
            match r {
                Result::Ok(c) => match en_stage(rs, text@, false) {
                    Option::Some(k) => 0 <= k < rs.len() && c@ == rs[k],
                    Option::None => false,
                },
                Result::Err(e) => {
                    &&& e matches ParseError::NotFound { text: s } && s@ == text@
                    &&& en_stage(rs, text@, false) is None
                },
            }
        }),
{
    let t = chars_of_str(text);
    match en_scan(&config_data.countries_config.countries, &t, false) {
        Option::Some(k) => Result::Ok(config_data.countries_config.countries[k].clone()),
        Option::None => Result::Err(ParseError::not_found(text)),
    }
}

} // verus!
