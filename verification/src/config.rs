//! The country registry: record type, the built-in reference table, registry
//! validation, and the derived lookup index.

use vstd::prelude::*;
use crate::error::ParseError;
use crate::model::{codes_unique, records_wf, wf_code, wf_record, wf_registry, CountryModel};
use crate::text::{chars_of_str, has_visible_char, is_blank_char, is_blank_char_exec};

verus! {

/// One country record of the reference table.
#[derive(Debug)]
pub struct CountryInfo {
    /// ISO 3166-1 alpha-2 code, canonical upper case.
    pub alpha2: String,
    /// ISO 3166-1 alpha-3 code, canonical upper case.
    pub alpha3: String,
    /// English name.
    pub name_en: String,
    /// Simplified-Chinese name.
    pub name_zh_cn: String,
    /// Traditional-Chinese name.
    pub name_zh_tw: String,
    /// Aliases and abbreviations, possibly empty.
    pub abbreviations: Vec<String>,
}

impl View for CountryInfo {
    type V = CountryModel;

    open spec fn view(&self) -> CountryModel {
        CountryModel {
            alpha2: self.alpha2@,
            alpha3: self.alpha3@,
            name_en: self.name_en@,
            name_zh_cn: self.name_zh_cn@,
            name_zh_tw: self.name_zh_tw@,
            abbreviations: self.abbreviations.deep_view(),
        }
    }
}

/// The views of a sequence of records.
pub open spec fn regs_of(v: Seq<CountryInfo>) -> Seq<CountryModel> {
    v.map_values(|c: CountryInfo| c@)
}

/// Clones a vector of strings element by element.
fn clone_string_vec(v: &Vec<String>) -> (r: Vec<String>)
    ensures
        r.deep_view() == v.deep_view(),
{
    let mut r: Vec<String> = Vec::new();
    let mut i: usize = 0;
    while i < v.len()
        invariant
            i <= v@.len(),
            r@.len() == i,
            forall|q: int| 0 <= q < i ==> r@[q]@ == v@[q]@,
        decreases v@.len() - i,
    {
        r.push(v[i].clone());
        i += 1;
    }
    proof {
        assert(r.deep_view() =~= v.deep_view());
    }
    r
}

impl Clone for CountryInfo {
    /// Cloning preserves the record's model.
    fn clone(&self) -> (res: Self)
        ensures
            res@ == self@,
    {
        let res = CountryInfo {
            alpha2: self.alpha2.clone(),
            alpha3: self.alpha3.clone(),
            name_en: self.name_en.clone(),
            name_zh_cn: self.name_zh_cn.clone(),
            name_zh_tw: self.name_zh_tw.clone(),
            abbreviations: clone_string_vec(&self.abbreviations),
        };
        res
    }
}

/// Caller-tunable parsing behaviour, carried inside a `Configuration`.
#[derive(Debug, Clone, Copy)]
pub struct ParserSettings {
    /// Disables case folding in the alias and name stages.
    pub case_sensitive: bool,
    /// Enables the fuzzy fallback stage.
    pub fuzzy_match: bool,
    /// Latency budget in milliseconds, checked after the cascade has run.
    pub timeout_ms: u64,
}

/// Decorative prefix/suffix patterns that may accompany the table.  They are
/// carried as data only; no matching stage consumes them.
#[derive(Debug)]
pub struct PatternConfig {
    pub prefix_patterns: Vec<String>,
    pub suffix_patterns: Vec<String>,
}

/// The reference table: a version tag and the ordered list of records.
#[derive(Debug)]
pub struct CountriesConfig {
    pub version: String,
    pub countries: Vec<CountryInfo>,
}

/// A validated configuration: the registry, its pattern data and the parser
/// settings.
#[derive(Debug)]
pub struct Configuration {
    pub countries_config: CountriesConfig,
    pub patterns: PatternConfig,
    pub settings: ParserSettings,
}

/// Model of one built-in record (aliases given as a sequence of views).
pub open spec fn crec(
    a2: &str,
    a3: &str,
    en: &str,
    cn: &str,
    tw: &str,
    ab: Seq<Seq<char>>,
) -> CountryModel {
    CountryModel {
        alpha2: a2@,
        alpha3: a3@,
        name_en: en@,
        name_zh_cn: cn@,
        name_zh_tw: tw@,
        abbreviations: ab,
    }
}

/// The registry the library ships with.  Order matters: it is the priority
/// order for ties inside a stage.
pub open spec fn builtin_registry() -> Seq<CountryModel> {
    seq![
        crec("US", "USA", "United States", "美国", "美國", seq![]),
        crec("CN", "CHN", "China", "中国", "中國", seq![]),
        crec("HK", "HKG", "Hong Kong", "香港", "香港", seq![]),
        crec("JP", "JPN", "Japan", "日本", "日本", seq![]),
        crec("KR", "KOR", "South Korea", "韩国", "韓國", seq![]),
        crec("SG", "SGP", "Singapore", "新加坡", "新加坡", seq![]),
        crec("TW", "TWN", "Taiwan", "台湾", "臺灣", seq![]),
        crec("GB", "GBR", "United Kingdom", "英国", "英國", seq!["UK"@]),
        crec("DE", "DEU", "Germany", "德国", "德國", seq![]),
        crec("FR", "FRA", "France", "法国", "法國", seq![]),
        crec("PH", "PHL", "Philippines", "菲律宾", "菲律賓", seq![]),
        crec("VN", "VNM", "Vietnam", "越南", "越南", seq![]),
        crec("ID", "IDN", "Indonesia", "印度尼西亚", "印度尼西亞", seq!["印尼"@]),
        crec("TH", "THA", "Thailand", "泰国", "泰國", seq![]),
        crec("MY", "MYS", "Malaysia", "马来西亚", "馬來西亞", seq![]),
        crec("AR", "ARG", "Argentina", "阿根廷", "阿根廷", seq![]),
        crec("ZA", "ZAF", "South Africa", "南非", "南非", seq![]),
        crec("EG", "EGY", "Egypt", "埃及", "埃及", seq![]),
        crec("AE", "ARE", "United Arab Emirates", "阿联酋", "阿拉伯聯合大公國", seq![]),
        crec("SA", "SAU", "Saudi Arabia", "沙特阿拉伯", "沙烏地阿拉伯", seq!["沙特"@]),
        crec("TR", "TUR", "Turkey", "土耳其", "土耳其", seq![]),
        crec("IR", "IRN", "Iran", "伊朗", "伊朗", seq![]),
        crec("BT", "BTN", "Bhutan", "不丹", "不丹", seq![]),
        crec("IN", "IND", "India", "印度", "印度", seq![]),
        crec("PW", "PLW", "Palau", "帕劳", "帕勞", seq![]),
        crec("MO", "MAC", "Macao", "澳门", "澳門", seq![]),
        crec("NZ", "NZL", "New Zealand", "新西兰", "紐西蘭", seq![]),
        crec("AU", "AUS", "Australia", "澳大利亚", "澳大利亞", seq![]),
        crec("IT", "ITA", "Italy", "意大利", "義大利", seq![]),
        crec("RU", "RUS", "Russia", "俄罗斯", "俄羅斯", seq![]),
        crec("BR", "BRA", "Brazil", "巴西", "巴西", seq![]),
    ]
}

/// Appends a record without aliases to the table under construction.
fn push_record(v: &mut Vec<CountryInfo>, a2: &str, a3: &str, en: &str, cn: &str, tw: &str)
    ensures
        regs_of(final(v)@) == regs_of(old(v)@).push(crec(a2, a3, en, cn, tw, Seq::empty())),
{
    let rec = CountryInfo {
        alpha2: String::from_str(a2),
        alpha3: String::from_str(a3),
        name_en: String::from_str(en),
        name_zh_cn: String::from_str(cn),
        name_zh_tw: String::from_str(tw),
        abbreviations: Vec::new(),
    };
    proof {
        assert(rec@.abbreviations =~= Seq::<Seq<char>>::empty());
    }
    v.push(rec);
    proof {
        assert(regs_of(v@) =~= regs_of(old(v)@).push(crec(a2, a3, en, cn, tw, Seq::empty())));
    }
}

/// Appends a record with a single alias to the table under construction.
fn push_record_with_alias(
    v: &mut Vec<CountryInfo>,
    a2: &str,
    a3: &str,
    en: &str,
    cn: &str,
    tw: &str,
    alias: &str,
)
    ensures
        regs_of(final(v)@) == regs_of(old(v)@).push(crec(a2, a3, en, cn, tw, seq![alias@])),
{
    let mut abbrs: Vec<String> = Vec::new();
    abbrs.push(String::from_str(alias));
    let rec = CountryInfo {
        alpha2: String::from_str(a2),
        alpha3: String::from_str(a3),
        name_en: String::from_str(en),
        name_zh_cn: String::from_str(cn),
        name_zh_tw: String::from_str(tw),
        abbreviations: abbrs,
    };
    proof {
        assert(rec@.abbreviations =~= seq![alias@]);
    }
    v.push(rec);
    proof {
        assert(regs_of(v@) =~= regs_of(old(v)@).push(crec(a2, a3, en, cn, tw, seq![alias@])));
    }
}

/// Builds the built-in reference table.
fn builtin_countries() -> (v: Vec<CountryInfo>)
    ensures
        regs_of(v@) == builtin_registry(),
{
    let mut v: Vec<CountryInfo> = Vec::new();
    push_record(&mut v, "US", "USA", "United States", "美国", "美國");
    push_record(&mut v, "CN", "CHN", "China", "中国", "中國");
    push_record(&mut v, "HK", "HKG", "Hong Kong", "香港", "香港");
    push_record(&mut v, "JP", "JPN", "Japan", "日本", "日本");
    push_record(&mut v, "KR", "KOR", "South Korea", "韩国", "韓國");
    push_record(&mut v, "SG", "SGP", "Singapore", "新加坡", "新加坡");
    push_record(&mut v, "TW", "TWN", "Taiwan", "台湾", "臺灣");
    push_record_with_alias(&mut v, "GB", "GBR", "United Kingdom", "英国", "英國", "UK");
    push_record(&mut v, "DE", "DEU", "Germany", "德国", "德國");
    push_record(&mut v, "FR", "FRA", "France", "法国", "法國");
    push_record(&mut v, "PH", "PHL", "Philippines", "菲律宾", "菲律賓");
    push_record(&mut v, "VN", "VNM", "Vietnam", "越南", "越南");
    push_record_with_alias(&mut v, "ID", "IDN", "Indonesia", "印度尼西亚", "印度尼西亞", "印尼");
    push_record(&mut v, "TH", "THA", "Thailand", "泰国", "泰國");
    push_record(&mut v, "MY", "MYS", "Malaysia", "马来西亚", "馬來西亞");
    push_record(&mut v, "AR", "ARG", "Argentina", "阿根廷", "阿根廷");
    push_record(&mut v, "ZA", "ZAF", "South Africa", "南非", "南非");
    push_record(&mut v, "EG", "EGY", "Egypt", "埃及", "埃及");
    push_record(&mut v, "AE", "ARE", "United Arab Emirates", "阿联酋", "阿拉伯聯合大公國");
    push_record_with_alias(&mut v, "SA", "SAU", "Saudi Arabia", "沙特阿拉伯", "沙烏地阿拉伯", "沙特");
    push_record(&mut v, "TR", "TUR", "Turkey", "土耳其", "土耳其");
    push_record(&mut v, "IR", "IRN", "Iran", "伊朗", "伊朗");
    push_record(&mut v, "BT", "BTN", "Bhutan", "不丹", "不丹");
    push_record(&mut v, "IN", "IND", "India", "印度", "印度");
    push_record(&mut v, "PW", "PLW", "Palau", "帕劳", "帕勞");
    push_record(&mut v, "MO", "MAC", "Macao", "澳门", "澳門");
    push_record(&mut v, "NZ", "NZL", "New Zealand", "新西兰", "紐西蘭");
    push_record(&mut v, "AU", "AUS", "Australia", "澳大利亚", "澳大利亞");
    push_record(&mut v, "IT", "ITA", "Italy", "意大利", "義大利");
    push_record(&mut v, "RU", "RUS", "Russia", "俄罗斯", "俄羅斯");
    push_record(&mut v, "BR", "BRA", "Brazil", "巴西", "巴西");
    proof {
        assert(regs_of(v@) =~= builtin_registry());
    }
    v
}

/// Compares two character vectors for equality of their sequences.
fn chars_vec_eq(a: &Vec<char>, b: &Vec<char>) -> (r: bool)
    ensures
        r == (a@ == b@),
{
    if a.len() != b.len() {
        return false;
    }
    let mut i: usize = 0;
    while i < a.len()
        invariant
            a@.len() == b@.len(),
            i <= a@.len(),
            forall|q: int| 0 <= q < i ==> a@[q] == b@[q],
        decreases a@.len() - i,
    {
        if a[i] != b[i] {
            return false;
        }
        i += 1;
    }
    proof {
        assert(a@ =~= b@);
    }
    true
}

/// Compares two strings by their character sequences.
fn string_view_eq(a: &String, b: &String) -> (r: bool)
    ensures
        r == (a@ == b@),
{
    let ca = chars_of_str(a.as_str());
    let cb = chars_of_str(b.as_str());
    chars_vec_eq(&ca, &cb)
}

/// Checks that `s` is exactly `n` upper-case ASCII letters.
fn code_wf_exec(s: &String, n: usize) -> (r: bool)
    ensures
        r == wf_code(s@, n as int),
{
    let ch = chars_of_str(s.as_str());
    if ch.len() != n {
        return false;
    }
    let mut i: usize = 0;
    while i < n
        invariant
            ch@ == s@,
            s@.len() == n,
            i <= n,
            forall|q: int| 0 <= q < i ==> 65 <= #[trigger] s@[q] as u32 && s@[q] as u32 <= 90,
        decreases n - i,
    {
        let c = ch[i];
        let code = c as u32;
        proof {
            assert(c == s@[i as int]);
        }
        if code < 65 || code > 90 {
            proof {
                assert(!(65 <= s@[i as int] as u32 && s@[i as int] as u32 <= 90));
            }
            return false;
        }
        i += 1;
    }
    true
}

/// Checks that `s` is not blank after trimming.
fn visible_exec(s: &String) -> (r: bool)
    ensures
        r == has_visible_char(s@),
{
    let ch = chars_of_str(s.as_str());
    let mut i: usize = 0;
    while i < ch.len()
        invariant
            ch@ == s@,
            i <= ch@.len(),
            forall|q: int| 0 <= q < i ==> is_blank_char(s@[q]),
        decreases ch@.len() - i,
    {
        if !is_blank_char_exec(ch[i]) {
            proof {
                assert(!is_blank_char(s@[i as int]));
            }
            return true;
        }
        i += 1;
    }
    false
}

/// Checks that one record is well-formed.
fn record_wf_exec(c: &CountryInfo) -> (r: bool)
    ensures
        r == wf_record(c@),
{
    if !code_wf_exec(&c.alpha2, 2) {
        return false;
    }
    if !code_wf_exec(&c.alpha3, 3) {
        return false;
    }
    if !visible_exec(&c.name_en) {
        return false;
    }
    if !visible_exec(&c.name_zh_cn) {
        return false;
    }
    if !visible_exec(&c.name_zh_tw) {
        return false;
    }
    let mut j: usize = 0;
    while j < c.abbreviations.len()
        invariant
            wf_code(c@.alpha2, 2),
            wf_code(c@.alpha3, 3),
            has_visible_char(c@.name_en),
            has_visible_char(c@.name_zh_cn),
            has_visible_char(c@.name_zh_tw),
            j <= c.abbreviations@.len(),
            forall|q: int| 0 <= q < j ==> has_visible_char(#[trigger] c@.abbreviations[q]),
        decreases c.abbreviations@.len() - j,
    {
        if !visible_exec(&c.abbreviations[j]) {
            proof {
                assert(c@.abbreviations[j as int] == c.abbreviations@[j as int]@);
            }
            return false;
        }
        j += 1;
    }
    true
}

/// Checks that every record of the table is well-formed.
fn records_wf_exec(v: &Vec<CountryInfo>) -> (r: bool)
    ensures
        r == records_wf(regs_of(v@)),
{
    let ghost rs = regs_of(v@);
    let mut k: usize = 0;
    while k < v.len()
        invariant
            rs == regs_of(v@),
            rs.len() == v@.len(),
            k <= v@.len(),
            forall|q: int| 0 <= q < k ==> wf_record(#[trigger] rs[q]),
        decreases v@.len() - k,
    {
        let ok = record_wf_exec(&v[k]);
        proof {
            assert(rs[k as int] == v@[k as int]@);
        }
        if !ok {
            return false;
        }
        k += 1;
    }
    true
}

/// Checks that no two records share an alpha-2 or alpha-3 code.
fn codes_unique_exec(v: &Vec<CountryInfo>) -> (r: bool)
    ensures
        r == codes_unique(regs_of(v@)),
{
    let ghost rs = regs_of(v@);
    let n = v.len();
    let mut i: usize = 0;
    while i < n
        invariant
            rs == regs_of(v@),
            n == v@.len(),
            rs.len() == n,
            i <= n,
            forall|a: int, b: int|
                #![trigger rs[a], rs[b]]
                0 <= a < b < (n as int) && a < i as int
                    ==> rs[a].alpha2 != rs[b].alpha2 && rs[a].alpha3 != rs[b].alpha3,
        decreases n - i,
    {
        let mut j: usize = i + 1;
        while j < n
            invariant
                rs == regs_of(v@),
                n == v@.len(),
                rs.len() == n,
                i < n,
                i + 1 <= j <= n,
                forall|a: int, b: int|
                    #![trigger rs[a], rs[b]]
                    0 <= a < b < n as int && a < i
                        ==> rs[a].alpha2 != rs[b].alpha2 && rs[a].alpha3 != rs[b].alpha3,
                forall|b: int|
                    (i as int) < b < (j as int) ==> rs[i as int].alpha2 != #[trigger] rs[b].alpha2
                        && rs[i as int].alpha3 != rs[b].alpha3,
            decreases n - j,
        {
            proof {
                assert(rs[i as int] == v@[i as int]@);
                assert(rs[j as int] == v@[j as int]@);
            }
            if string_view_eq(&v[i].alpha2, &v[j].alpha2) {
                return false;
            }
            if string_view_eq(&v[i].alpha3, &v[j].alpha3) {
                return false;
            }
            proof {
                assert(rs[i as int].alpha2 != rs[j as int].alpha2);
                assert(rs[i as int].alpha3 != rs[j as int].alpha3);
                assert forall|b: int| (i as int) < b < (j as int) + 1 implies rs[i as int].alpha2
                    != #[trigger] rs[b].alpha2 && rs[i as int].alpha3 != rs[b].alpha3 by {
                    if b < j as int {
                    } else {
                        assert(b == j as int);
                    }
                }
            }
            j += 1;
        }
        proof {
            assert(forall|b: int|
                (i as int) < b < (n as int) ==> rs[i as int].alpha2 != #[trigger] rs[b].alpha2
                    && rs[i as int].alpha3 != rs[b].alpha3);
            assert(forall|a: int, b: int|
                #![trigger rs[a], rs[b]]
                0 <= a < b < (n as int) && a < i as int + 1 ==> rs[a].alpha2 != rs[b].alpha2
                    && rs[a].alpha3 != rs[b].alpha3) by {
                assert forall|a: int, b: int|
                    0 <= a < b < (n as int) && a < i as int + 1 implies #[trigger] rs[a].alpha2
                    != #[trigger] rs[b].alpha2 && rs[a].alpha3 != rs[b].alpha3 by {
                    if a < i {
                    } else {
                        assert(a == i as int);
                        assert(rs[i as int].alpha2 != rs[b].alpha2);
                    }
                }
            }
        }
        i += 1;
    }
    true
}

/// Checks the whole registry invariant.
fn registry_wf_exec(v: &Vec<CountryInfo>) -> (r: bool)
    ensures
        r == wf_registry(regs_of(v@)),
{
    if !records_wf_exec(v) {
        return false;
    }
    codes_unique_exec(v)
}

/// The settings the parameterless entry points run with.
pub open spec fn default_parser_settings() -> ParserSettings {
    ParserSettings { case_sensitive: false, fuzzy_match: true, timeout_ms: 100 }
}

/// What `Configuration::load` returns: always the built-in table, which is
/// proved to satisfy the registry invariant, with the default settings.
pub open spec fn load_post(r: Result<Configuration, ParseError>) -> bool {
    match r {
        Result::Ok(c) => {
            &&& wf_registry(builtin_registry())
            &&& regs_of(c.countries_config.countries@) == builtin_registry()
            &&& c.countries_config.version@ == "1.0"@
            &&& c.settings == default_parser_settings()
            &&& c.patterns.prefix_patterns@.len() == 0
            &&& c.patterns.suffix_patterns@.len() == 0
        },
        Result::Err(_) => false,
    }
}

/// What `Configuration::from_parts` returns: the caller's parts unchanged on
/// success, and a `ConfigError` exactly when the table is invalid.
pub open spec fn from_parts_post(
    r: Result<Configuration, ParseError>,
    countries_config: CountriesConfig,
    patterns: PatternConfig,
    settings: ParserSettings,
) -> bool {
    match r {
        Result::Ok(c) => {
            &&& wf_registry(regs_of(countries_config.countries@))
            &&& c.countries_config == countries_config
            &&& c.patterns == patterns
            &&& c.settings == settings
        },
        Result::Err(e) => {
            &&& e matches ParseError::ConfigError { .. }
            &&& !wf_registry(regs_of(countries_config.countries@))
        },
    }
}

/// One record's contribution to the lookup index: the five named variants in
/// a fixed order, then its aliases.
pub open spec fn base_pairs(r: CountryModel) -> Seq<(Seq<char>, CountryModel)> {
    seq![
        (r.alpha2, r),
        (r.alpha3, r),
        (r.name_en, r),
        (r.name_zh_cn, r),
        (r.name_zh_tw, r),
    ]
}

/// The alias entries of one record.
pub open spec fn alias_pairs(r: CountryModel) -> Seq<(Seq<char>, CountryModel)> {
    r.abbreviations.map_values(|a: Seq<char>| (a, r))
}

/// All index entries of one record.
pub open spec fn record_pairs(r: CountryModel) -> Seq<(Seq<char>, CountryModel)> {
    base_pairs(r) + alias_pairs(r)
}

/// The index entries of the first `k` records, in registry order.
pub open spec fn mapping_upto(rs: Seq<CountryModel>, k: int) -> Seq<(Seq<char>, CountryModel)>
    decreases k,
{
    if k <= 0 {
        Seq::empty()
    } else {
        mapping_upto(rs, k - 1) + record_pairs(rs[k - 1])
    }
}

/// The full derived index of a registry: every recognized string variant
/// paired with its owning record.
pub open spec fn mapping_of(rs: Seq<CountryModel>) -> Seq<(Seq<char>, CountryModel)> {
    mapping_upto(rs, rs.len() as int)
}

/// The views of the executable index entries.
pub open spec fn pairs_view(v: Seq<(String, CountryInfo)>) -> Seq<(Seq<char>, CountryModel)> {
    v.map_values(|p: (String, CountryInfo)| (p.0@, p.1@))
}

/// Appends the index entries of `c` to the index under construction.
fn append_record_pairs(r: &mut Vec<(String, CountryInfo)>, c: &CountryInfo)
    ensures
        pairs_view(final(r)@) == pairs_view(old(r)@) + record_pairs(c@),
{
    r.push((c.alpha2.clone(), c.clone()));
    r.push((c.alpha3.clone(), c.clone()));
    r.push((c.name_en.clone(), c.clone()));
    r.push((c.name_zh_cn.clone(), c.clone()));
    r.push((c.name_zh_tw.clone(), c.clone()));
    proof {
        assert(pairs_view(r@) =~= pairs_view(old(r)@) + base_pairs(c@));
    }
    let ghost mid = r@;
    let mut j: usize = 0;
    while j < c.abbreviations.len()
        invariant
            mid == r@.subrange(0, mid.len() as int),
            pairs_view(mid) == pairs_view(old(r)@) + base_pairs(c@),
            r@.len() == mid.len() + j,
            j <= c.abbreviations@.len(),
            pairs_view(r@) == pairs_view(old(r)@) + base_pairs(c@) + alias_pairs(c@).subrange(
                0,
                j as int,
            ),
        decreases c.abbreviations@.len() - j,
    {
        let key = c.abbreviations[j].clone();
        let ghost kview = key@;
        let val = c.clone();
        let ghost vview = val@;
        let ghost prev = r@;
        r.push((key, val));
        proof {
            assert(kview == c@.abbreviations[j as int]);
            assert(vview == c@);
            assert(r@ == prev.push((key, val)));
            assert(pairs_view(r@) =~= pairs_view(prev).push((kview, vview)));
            assert(alias_pairs(c@).subrange(0, j + 1 as int) =~= alias_pairs(c@).subrange(
                0,
                j as int,
            ).push((c@.abbreviations[j as int], c@)));
            assert(pairs_view(r@) =~= pairs_view(old(r)@) + base_pairs(c@) + alias_pairs(
                c@,
            ).subrange(0, j + 1 as int));
        }
        j += 1;
    }
    proof {
        assert(alias_pairs(c@).subrange(0, c.abbreviations@.len() as int) =~= alias_pairs(c@));
        assert(pairs_view(r@) =~= pairs_view(old(r)@) + record_pairs(c@));
    }
}

/// A record variant that equals `key` exactly.
pub open spec fn key_hit(r: CountryModel, key: Seq<char>) -> bool {
    ||| r.alpha2 == key
    ||| r.alpha3 == key
    ||| r.name_en == key
    ||| r.name_zh_cn == key
    ||| r.name_zh_tw == key
    ||| exists|j: int| 0 <= j < r.abbreviations.len() && #[trigger] r.abbreviations[j] == key
}

/// Index of the first record (from `k` on) one of whose variants equals
/// `key`.
pub open spec fn lookup_from(rs: Seq<CountryModel>, key: Seq<char>, k: int) -> Option<int>
    decreases rs.len() - k,
{
    if k < 0 || k >= rs.len() {
        Option::None
    } else if key_hit(rs[k], key) {
        Option::Some(k)
    } else {
        lookup_from(rs, key, k + 1)
    }
}

/// Index of the first record one of whose variants equals `key`.
pub open spec fn lookup_idx(rs: Seq<CountryModel>, key: Seq<char>) -> Option<int> {
    lookup_from(rs, key, 0)
}

/// Checks whether any variant of `c` equals the key characters `kc`.
fn key_hit_exec(c: &CountryInfo, kc: &Vec<char>) -> (r: bool)
    ensures
        r == key_hit(c@, kc@),
{
    if chars_vec_eq(&chars_of_str(c.alpha2.as_str()), kc) {
        return true;
    }
    if chars_vec_eq(&chars_of_str(c.alpha3.as_str()), kc) {
        return true;
    }
    if chars_vec_eq(&chars_of_str(c.name_en.as_str()), kc) {
        return true;
    }
    if chars_vec_eq(&chars_of_str(c.name_zh_cn.as_str()), kc) {
        return true;
    }
    if chars_vec_eq(&chars_of_str(c.name_zh_tw.as_str()), kc) {
        return true;
    }
    let mut j: usize = 0;
    while j < c.abbreviations.len()
        invariant
            c@.alpha2 != kc@,
            c@.alpha3 != kc@,
            c@.name_en != kc@,
            c@.name_zh_cn != kc@,
            c@.name_zh_tw != kc@,
            j <= c.abbreviations@.len(),
            forall|q: int| 0 <= q < j ==> #[trigger] c@.abbreviations[q] != kc@,
        decreases c.abbreviations@.len() - j,
    {
        if chars_vec_eq(&chars_of_str(c.abbreviations[j].as_str()), kc) {
            proof {
                assert(c@.abbreviations[j as int] == c.abbreviations@[j as int]@);
            }
            return true;
        }
        j += 1;
    }
    false
}

impl Configuration {
    /// Builds the built-in reference table.  Registry construction demands a
    /// validated table; here the registry invariant is discharged once and
    /// for all by [`lemma_builtin_registry_wf`], so loading cannot fail.
    pub fn load() -> (r: Result<Configuration, ParseError>)
        ensures
            load_post(r),
            r is Ok,
    {
        let countries = builtin_countries();
        proof {
            lemma_builtin_registry_wf();
        }
        Result::Ok(
            Configuration {
                countries_config: CountriesConfig { version: String::from_str("1.0"), countries },
                patterns: PatternConfig {
                    prefix_patterns: Vec::new(),
                    suffix_patterns: Vec::new(),
                },
                settings: ParserSettings {
                    case_sensitive: false,
                    fuzzy_match: true,
                    timeout_ms: 100,
                },
            },
        )
    }

    /// Validates a caller-supplied table and assembles a configuration from
    /// it; fails with `ConfigError` on a duplicate code or a malformed field.
    pub fn from_parts(
        countries_config: CountriesConfig,
        patterns: PatternConfig,
        settings: ParserSettings,
    ) -> (r: Result<Configuration, ParseError>)
        ensures
            from_parts_post(r, countries_config, patterns, settings),
    {
        if !registry_wf_exec(&countries_config.countries) {
            return Result::Err(
                ParseError::config_error("reference table violates the registry invariant"),
            );
        }
        Result::Ok(Configuration { countries_config, patterns, settings })
    }

    /// Builds the derived lookup index: every recognized variant of every
    /// record (codes, names, aliases), each paired with its owning record, in
    /// registry order.
    pub fn create_country_mapping(&self) -> (r: Vec<(String, CountryInfo)>)
        ensures
            pairs_view(r@) == mapping_of(regs_of(self.countries_config.countries@)),
    {
        let ghost rs = regs_of(self.countries_config.countries@);
        let cs = &self.countries_config.countries;
        let mut r: Vec<(String, CountryInfo)> = Vec::new();
        let mut k: usize = 0;
        proof {
            assert(pairs_view(r@) =~= mapping_upto(rs, 0));
        }
        while k < cs.len()
            invariant
                rs == regs_of(self.countries_config.countries@),
                cs == &self.countries_config.countries,
                rs.len() == cs@.len(),
                k <= cs@.len(),
                pairs_view(r@) == mapping_upto(rs, k as int),
            decreases cs@.len() - k,
        {
            proof {
                assert(rs[k as int] == cs@[k as int]@);
            }
            append_record_pairs(&mut r, &cs[k]);
            k += 1;
        }
        r
    }

    /// Probes the registry with an exact key (case rules applied by the
    /// caller): the first record any of whose variants equals `key`.
    pub fn lookup_exact(&self, key: &str) -> (r: Option<CountryInfo>)
        ensures
            ({
                let rs = regs_of(self.countries_config.countries@);
                match r {
                    Option::Some(c) => exists|k: int|
                        0 <= k < rs.len() && lookup_idx(rs, key@) == Option::Some(k) && c@ == rs[k],
                    Option::None => lookup_idx(rs, key@) is None,
                }
            }),
    {
        let ghost rs = regs_of(self.countries_config.countries@);
        let kc = chars_of_str(key);
        let cs = &self.countries_config.countries;
        let mut k: usize = 0;
        while k < cs.len()
            invariant
                rs == regs_of(self.countries_config.countries@),
                cs == &self.countries_config.countries,
                rs.len() == cs@.len(),
                k <= cs@.len(),
                kc@ == key@,
                lookup_idx(rs, key@) == lookup_from(rs, key@, k as int),
            decreases cs@.len() - k,
        {
            proof {
                assert(rs[k as int] == cs@[k as int]@);
            }
            if key_hit_exec(&cs[k], &kc) {
                return Option::Some(cs[k].clone());
            }
            k += 1;
        }
        Option::None
    }

    /// The parser settings carried by this configuration.
    pub fn get_settings(&self) -> (r: &ParserSettings)
        ensures
            *r == self.settings,
    {
        &self.settings
    }

    /// The decorative pattern data carried by this configuration.
    pub fn get_patterns(&self) -> (r: &PatternConfig)
        ensures
            r == &self.patterns,
    {
        &self.patterns
    }

    /// The ordered sequence of records of the registry.
    pub fn get_countries(&self) -> (r: &Vec<CountryInfo>)
        ensures
            r == &self.countries_config.countries,
    {
        &self.countries_config.countries
    }

    /// The version tag of the reference table.
    pub fn get_version(&self) -> (r: &str)
        ensures
            r@ == self.countries_config.version@,
    {
        self.countries_config.version.as_str()
    }
}

} // verus!

verus! {

/// Two character sequences that differ at a position differ as sequences.
proof fn lemma_seq_differs_at(s1: Seq<char>, s2: Seq<char>, i: int)
    requires
        0 <= i < s1.len(),
        i < s2.len(),
        s1[i] as u32 != s2[i] as u32,
    ensures
        s1 != s2,
{
    if s1 == s2 {
        assert(s1[i] == s2[i]);
        assert(s1[i] as u32 == s2[i] as u32);
    }
}

// The registry invariant of the built-in table is discharged by chunks:
// three lemmas cover well-formedness of the records, four cover pairwise
// distinctness of the codes, each over revealed literals.
proof fn lemma_builtin_records_wf_a()
    ensures
        forall|k: int| 0 <= k < 11 ==> wf_record(#[trigger] builtin_registry()[k]),
{
    reveal_strlit("US");
    reveal_strlit("USA");
    reveal_strlit("United States");
    reveal_strlit("美国");
    reveal_strlit("美國");
    reveal_strlit("CN");
    reveal_strlit("CHN");
    reveal_strlit("China");
    reveal_strlit("中国");
    reveal_strlit("中國");
    reveal_strlit("HK");
    reveal_strlit("HKG");
    reveal_strlit("Hong Kong");
    reveal_strlit("香港");
    reveal_strlit("JP");
    reveal_strlit("JPN");
    reveal_strlit("Japan");
    reveal_strlit("日本");
    reveal_strlit("KR");
    reveal_strlit("KOR");
    reveal_strlit("South Korea");
    reveal_strlit("韩国");
    reveal_strlit("韓國");
    reveal_strlit("SG");
    reveal_strlit("SGP");
    reveal_strlit("Singapore");
    reveal_strlit("新加坡");
    reveal_strlit("TW");
    reveal_strlit("TWN");
    reveal_strlit("Taiwan");
    reveal_strlit("台湾");
    reveal_strlit("臺灣");
    reveal_strlit("GB");
    reveal_strlit("GBR");
    reveal_strlit("United Kingdom");
    reveal_strlit("英国");
    reveal_strlit("英國");
    reveal_strlit("UK");
    reveal_strlit("DE");
    reveal_strlit("DEU");
    reveal_strlit("Germany");
    reveal_strlit("德国");
    reveal_strlit("德國");
    reveal_strlit("FR");
    reveal_strlit("FRA");
    reveal_strlit("France");
    reveal_strlit("法国");
    reveal_strlit("法國");
    reveal_strlit("PH");
    reveal_strlit("PHL");
    reveal_strlit("Philippines");
    reveal_strlit("菲律宾");
    reveal_strlit("菲律賓");
    let rs = builtin_registry();
    assert(!is_blank_char("United States"@[0]));
    assert(has_visible_char("United States"@));
    assert(!is_blank_char("美国"@[0]));
    assert(has_visible_char("美国"@));
    assert(!is_blank_char("美國"@[0]));
    assert(has_visible_char("美國"@));
    assert(wf_record(rs[0]));
    assert(!is_blank_char("China"@[0]));
    assert(has_visible_char("China"@));
    assert(!is_blank_char("中国"@[0]));
    assert(has_visible_char("中国"@));
    assert(!is_blank_char("中國"@[0]));
    assert(has_visible_char("中國"@));
    assert(wf_record(rs[1]));
    assert(!is_blank_char("Hong Kong"@[0]));
    assert(has_visible_char("Hong Kong"@));
    assert(!is_blank_char("香港"@[0]));
    assert(has_visible_char("香港"@));
    assert(!is_blank_char("香港"@[0]));
    assert(has_visible_char("香港"@));
    assert(wf_record(rs[2]));
    assert(!is_blank_char("Japan"@[0]));
    assert(has_visible_char("Japan"@));
    assert(!is_blank_char("日本"@[0]));
    assert(has_visible_char("日本"@));
    assert(!is_blank_char("日本"@[0]));
    assert(has_visible_char("日本"@));
    assert(wf_record(rs[3]));
    assert(!is_blank_char("South Korea"@[0]));
    assert(has_visible_char("South Korea"@));
    assert(!is_blank_char("韩国"@[0]));
    assert(has_visible_char("韩国"@));
    assert(!is_blank_char("韓國"@[0]));
    assert(has_visible_char("韓國"@));
    assert(wf_record(rs[4]));
    assert(!is_blank_char("Singapore"@[0]));
    assert(has_visible_char("Singapore"@));
    assert(!is_blank_char("新加坡"@[0]));
    assert(has_visible_char("新加坡"@));
    assert(!is_blank_char("新加坡"@[0]));
    assert(has_visible_char("新加坡"@));
    assert(wf_record(rs[5]));
    assert(!is_blank_char("Taiwan"@[0]));
    assert(has_visible_char("Taiwan"@));
    assert(!is_blank_char("台湾"@[0]));
    assert(has_visible_char("台湾"@));
    assert(!is_blank_char("臺灣"@[0]));
    assert(has_visible_char("臺灣"@));
    assert(wf_record(rs[6]));
    assert(!is_blank_char("United Kingdom"@[0]));
    assert(has_visible_char("United Kingdom"@));
    assert(!is_blank_char("英国"@[0]));
    assert(has_visible_char("英国"@));
    assert(!is_blank_char("英國"@[0]));
    assert(has_visible_char("英國"@));
    assert(!is_blank_char("UK"@[0]));
    assert(has_visible_char("UK"@));
    assert(wf_record(rs[7]));
    assert(!is_blank_char("Germany"@[0]));
    assert(has_visible_char("Germany"@));
    assert(!is_blank_char("德国"@[0]));
    assert(has_visible_char("德国"@));
    assert(!is_blank_char("德國"@[0]));
    assert(has_visible_char("德國"@));
    assert(wf_record(rs[8]));
    assert(!is_blank_char("France"@[0]));
    assert(has_visible_char("France"@));
    assert(!is_blank_char("法国"@[0]));
    assert(has_visible_char("法国"@));
    assert(!is_blank_char("法國"@[0]));
    assert(has_visible_char("法國"@));
    assert(wf_record(rs[9]));
    assert(!is_blank_char("Philippines"@[0]));
    assert(has_visible_char("Philippines"@));
    assert(!is_blank_char("菲律宾"@[0]));
    assert(has_visible_char("菲律宾"@));
    assert(!is_blank_char("菲律賓"@[0]));
    assert(has_visible_char("菲律賓"@));
    assert(wf_record(rs[10]));
}

proof fn lemma_builtin_records_wf_b()
    ensures
        forall|k: int| 11 <= k < 21 ==> wf_record(#[trigger] builtin_registry()[k]),
{
    reveal_strlit("VN");
    reveal_strlit("VNM");
    reveal_strlit("Vietnam");
    reveal_strlit("越南");
    reveal_strlit("ID");
    reveal_strlit("IDN");
    reveal_strlit("Indonesia");
    reveal_strlit("印度尼西亚");
    reveal_strlit("印度尼西亞");
    reveal_strlit("印尼");
    reveal_strlit("TH");
    reveal_strlit("THA");
    reveal_strlit("Thailand");
    reveal_strlit("泰国");
    reveal_strlit("泰國");
    reveal_strlit("MY");
    reveal_strlit("MYS");
    reveal_strlit("Malaysia");
    reveal_strlit("马来西亚");
    reveal_strlit("馬來西亞");
    reveal_strlit("AR");
    reveal_strlit("ARG");
    reveal_strlit("Argentina");
    reveal_strlit("阿根廷");
    reveal_strlit("ZA");
    reveal_strlit("ZAF");
    reveal_strlit("South Africa");
    reveal_strlit("南非");
    reveal_strlit("EG");
    reveal_strlit("EGY");
    reveal_strlit("Egypt");
    reveal_strlit("埃及");
    reveal_strlit("AE");
    reveal_strlit("ARE");
    reveal_strlit("United Arab Emirates");
    reveal_strlit("阿联酋");
    reveal_strlit("阿拉伯聯合大公國");
    reveal_strlit("SA");
    reveal_strlit("SAU");
    reveal_strlit("Saudi Arabia");
    reveal_strlit("沙特阿拉伯");
    reveal_strlit("沙烏地阿拉伯");
    reveal_strlit("沙特");
    reveal_strlit("TR");
    reveal_strlit("TUR");
    reveal_strlit("Turkey");
    reveal_strlit("土耳其");
    let rs = builtin_registry();
    assert(!is_blank_char("Vietnam"@[0]));
    assert(has_visible_char("Vietnam"@));
    assert(!is_blank_char("越南"@[0]));
    assert(has_visible_char("越南"@));
    assert(!is_blank_char("越南"@[0]));
    assert(has_visible_char("越南"@));
    assert(wf_record(rs[11]));
    assert(!is_blank_char("Indonesia"@[0]));
    assert(has_visible_char("Indonesia"@));
    assert(!is_blank_char("印度尼西亚"@[0]));
    assert(has_visible_char("印度尼西亚"@));
    assert(!is_blank_char("印度尼西亞"@[0]));
    assert(has_visible_char("印度尼西亞"@));
    assert(!is_blank_char("印尼"@[0]));
    assert(has_visible_char("印尼"@));
    assert(wf_record(rs[12]));
    assert(!is_blank_char("Thailand"@[0]));
    assert(has_visible_char("Thailand"@));
    assert(!is_blank_char("泰国"@[0]));
    assert(has_visible_char("泰国"@));
    assert(!is_blank_char("泰國"@[0]));
    assert(has_visible_char("泰國"@));
    assert(wf_record(rs[13]));
    assert(!is_blank_char("Malaysia"@[0]));
    assert(has_visible_char("Malaysia"@));
    assert(!is_blank_char("马来西亚"@[0]));
    assert(has_visible_char("马来西亚"@));
    assert(!is_blank_char("馬來西亞"@[0]));
    assert(has_visible_char("馬來西亞"@));
    assert(wf_record(rs[14]));
    assert(!is_blank_char("Argentina"@[0]));
    assert(has_visible_char("Argentina"@));
    assert(!is_blank_char("阿根廷"@[0]));
    assert(has_visible_char("阿根廷"@));
    assert(!is_blank_char("阿根廷"@[0]));
    assert(has_visible_char("阿根廷"@));
    assert(wf_record(rs[15]));
    assert(!is_blank_char("South Africa"@[0]));
    assert(has_visible_char("South Africa"@));
    assert(!is_blank_char("南非"@[0]));
    assert(has_visible_char("南非"@));
    assert(!is_blank_char("南非"@[0]));
    assert(has_visible_char("南非"@));
    assert(wf_record(rs[16]));
    assert(!is_blank_char("Egypt"@[0]));
    assert(has_visible_char("Egypt"@));
    assert(!is_blank_char("埃及"@[0]));
    assert(has_visible_char("埃及"@));
    assert(!is_blank_char("埃及"@[0]));
    assert(has_visible_char("埃及"@));
    assert(wf_record(rs[17]));
    assert(!is_blank_char("United Arab Emirates"@[0]));
    assert(has_visible_char("United Arab Emirates"@));
    assert(!is_blank_char("阿联酋"@[0]));
    assert(has_visible_char("阿联酋"@));
    assert(!is_blank_char("阿拉伯聯合大公國"@[0]));
    assert(has_visible_char("阿拉伯聯合大公國"@));
    assert(wf_record(rs[18]));
    assert(!is_blank_char("Saudi Arabia"@[0]));
    assert(has_visible_char("Saudi Arabia"@));
    assert(!is_blank_char("沙特阿拉伯"@[0]));
    assert(has_visible_char("沙特阿拉伯"@));
    assert(!is_blank_char("沙烏地阿拉伯"@[0]));
    assert(has_visible_char("沙烏地阿拉伯"@));
    assert(!is_blank_char("沙特"@[0]));
    assert(has_visible_char("沙特"@));
    assert(wf_record(rs[19]));
    assert(!is_blank_char("Turkey"@[0]));
    assert(has_visible_char("Turkey"@));
    assert(!is_blank_char("土耳其"@[0]));
    assert(has_visible_char("土耳其"@));
    assert(!is_blank_char("土耳其"@[0]));
    assert(has_visible_char("土耳其"@));
    assert(wf_record(rs[20]));
}

proof fn lemma_builtin_records_wf_c()
    ensures
        forall|k: int| 21 <= k < 31 ==> wf_record(#[trigger] builtin_registry()[k]),
{
    reveal_strlit("IR");
    reveal_strlit("IRN");
    reveal_strlit("Iran");
    reveal_strlit("伊朗");
    reveal_strlit("BT");
    reveal_strlit("BTN");
    reveal_strlit("Bhutan");
    reveal_strlit("不丹");
    reveal_strlit("IN");
    reveal_strlit("IND");
    reveal_strlit("India");
    reveal_strlit("印度");
    reveal_strlit("PW");
    reveal_strlit("PLW");
    reveal_strlit("Palau");
    reveal_strlit("帕劳");
    reveal_strlit("帕勞");
    reveal_strlit("MO");
    reveal_strlit("MAC");
    reveal_strlit("Macao");
    reveal_strlit("澳门");
    reveal_strlit("澳門");
    reveal_strlit("NZ");
    reveal_strlit("NZL");
    reveal_strlit("New Zealand");
    reveal_strlit("新西兰");
    reveal_strlit("紐西蘭");
    reveal_strlit("AU");
    reveal_strlit("AUS");
    reveal_strlit("Australia");
    reveal_strlit("澳大利亚");
    reveal_strlit("澳大利亞");
    reveal_strlit("IT");
    reveal_strlit("ITA");
    reveal_strlit("Italy");
    reveal_strlit("意大利");
    reveal_strlit("義大利");
    reveal_strlit("RU");
    reveal_strlit("RUS");
    reveal_strlit("Russia");
    reveal_strlit("俄罗斯");
    reveal_strlit("俄羅斯");
    reveal_strlit("BR");
    reveal_strlit("BRA");
    reveal_strlit("Brazil");
    reveal_strlit("巴西");
    let rs = builtin_registry();
    assert(!is_blank_char("Iran"@[0]));
    assert(has_visible_char("Iran"@));
    assert(!is_blank_char("伊朗"@[0]));
    assert(has_visible_char("伊朗"@));
    assert(!is_blank_char("伊朗"@[0]));
    assert(has_visible_char("伊朗"@));
    assert(wf_record(rs[21]));
    assert(!is_blank_char("Bhutan"@[0]));
    assert(has_visible_char("Bhutan"@));
    assert(!is_blank_char("不丹"@[0]));
    assert(has_visible_char("不丹"@));
    assert(!is_blank_char("不丹"@[0]));
    assert(has_visible_char("不丹"@));
    assert(wf_record(rs[22]));
    assert(!is_blank_char("India"@[0]));
    assert(has_visible_char("India"@));
    assert(!is_blank_char("印度"@[0]));
    assert(has_visible_char("印度"@));
    assert(!is_blank_char("印度"@[0]));
    assert(has_visible_char("印度"@));
    assert(wf_record(rs[23]));
    assert(!is_blank_char("Palau"@[0]));
    assert(has_visible_char("Palau"@));
    assert(!is_blank_char("帕劳"@[0]));
    assert(has_visible_char("帕劳"@));
    assert(!is_blank_char("帕勞"@[0]));
    assert(has_visible_char("帕勞"@));
    assert(wf_record(rs[24]));
    assert(!is_blank_char("Macao"@[0]));
    assert(has_visible_char("Macao"@));
    assert(!is_blank_char("澳门"@[0]));
    assert(has_visible_char("澳门"@));
    assert(!is_blank_char("澳門"@[0]));
    assert(has_visible_char("澳門"@));
    assert(wf_record(rs[25]));
    assert(!is_blank_char("New Zealand"@[0]));
    assert(has_visible_char("New Zealand"@));
    assert(!is_blank_char("新西兰"@[0]));
    assert(has_visible_char("新西兰"@));
    assert(!is_blank_char("紐西蘭"@[0]));
    assert(has_visible_char("紐西蘭"@));
    assert(wf_record(rs[26]));
    assert(!is_blank_char("Australia"@[0]));
    assert(has_visible_char("Australia"@));
    assert(!is_blank_char("澳大利亚"@[0]));
    assert(has_visible_char("澳大利亚"@));
    assert(!is_blank_char("澳大利亞"@[0]));
    assert(has_visible_char("澳大利亞"@));
    assert(wf_record(rs[27]));
    assert(!is_blank_char("Italy"@[0]));
    assert(has_visible_char("Italy"@));
    assert(!is_blank_char("意大利"@[0]));
    assert(has_visible_char("意大利"@));
    assert(!is_blank_char("義大利"@[0]));
    assert(has_visible_char("義大利"@));
    assert(wf_record(rs[28]));
    assert(!is_blank_char("Russia"@[0]));
    assert(has_visible_char("Russia"@));
    assert(!is_blank_char("俄罗斯"@[0]));
    assert(has_visible_char("俄罗斯"@));
    assert(!is_blank_char("俄羅斯"@[0]));
    assert(has_visible_char("俄羅斯"@));
    assert(wf_record(rs[29]));
    assert(!is_blank_char("Brazil"@[0]));
    assert(has_visible_char("Brazil"@));
    assert(!is_blank_char("巴西"@[0]));
    assert(has_visible_char("巴西"@));
    assert(!is_blank_char("巴西"@[0]));
    assert(has_visible_char("巴西"@));
    assert(wf_record(rs[30]));
}

proof fn lemma_builtin_codes_distinct_a()
    ensures
        forall|k1: int, k2: int|
            #![trigger builtin_registry()[k1], builtin_registry()[k2]]
            0 <= k1 < 8 && k1 < k2 < builtin_registry().len()
                ==> builtin_registry()[k1].alpha2 != builtin_registry()[k2].alpha2
                    && builtin_registry()[k1].alpha3 != builtin_registry()[k2].alpha3,
{
    reveal_strlit("US");
    reveal_strlit("USA");
    reveal_strlit("CN");
    reveal_strlit("CHN");
    reveal_strlit("HK");
    reveal_strlit("HKG");
    reveal_strlit("JP");
    reveal_strlit("JPN");
    reveal_strlit("KR");
    reveal_strlit("KOR");
    reveal_strlit("SG");
    reveal_strlit("SGP");
    reveal_strlit("TW");
    reveal_strlit("TWN");
    reveal_strlit("GB");
    reveal_strlit("GBR");
    reveal_strlit("DE");
    reveal_strlit("DEU");
    reveal_strlit("FR");
    reveal_strlit("FRA");
    reveal_strlit("PH");
    reveal_strlit("PHL");
    reveal_strlit("VN");
    reveal_strlit("VNM");
    reveal_strlit("ID");
    reveal_strlit("IDN");
    reveal_strlit("TH");
    reveal_strlit("THA");
    reveal_strlit("MY");
    reveal_strlit("MYS");
    reveal_strlit("AR");
    reveal_strlit("ARG");
    reveal_strlit("ZA");
    reveal_strlit("ZAF");
    reveal_strlit("EG");
    reveal_strlit("EGY");
    reveal_strlit("AE");
    reveal_strlit("ARE");
    reveal_strlit("SA");
    reveal_strlit("SAU");
    reveal_strlit("TR");
    reveal_strlit("TUR");
    reveal_strlit("IR");
    reveal_strlit("IRN");
    reveal_strlit("BT");
    reveal_strlit("BTN");
    reveal_strlit("IN");
    reveal_strlit("IND");
    reveal_strlit("PW");
    reveal_strlit("PLW");
    reveal_strlit("MO");
    reveal_strlit("MAC");
    reveal_strlit("NZ");
    reveal_strlit("NZL");
    reveal_strlit("AU");
    reveal_strlit("AUS");
    reveal_strlit("IT");
    reveal_strlit("ITA");
    reveal_strlit("RU");
    reveal_strlit("RUS");
    reveal_strlit("BR");
    reveal_strlit("BRA");
    let rs = builtin_registry();
    lemma_seq_differs_at("US"@, "CN"@, 0);
    lemma_seq_differs_at("USA"@, "CHN"@, 0);
    lemma_seq_differs_at("US"@, "HK"@, 0);
    lemma_seq_differs_at("USA"@, "HKG"@, 0);
    lemma_seq_differs_at("US"@, "JP"@, 0);
    lemma_seq_differs_at("USA"@, "JPN"@, 0);
    lemma_seq_differs_at("US"@, "KR"@, 0);
    lemma_seq_differs_at("USA"@, "KOR"@, 0);
    lemma_seq_differs_at("US"@, "SG"@, 0);
    lemma_seq_differs_at("USA"@, "SGP"@, 0);
    lemma_seq_differs_at("US"@, "TW"@, 0);
    lemma_seq_differs_at("USA"@, "TWN"@, 0);
    lemma_seq_differs_at("US"@, "GB"@, 0);
    lemma_seq_differs_at("USA"@, "GBR"@, 0);
    lemma_seq_differs_at("US"@, "DE"@, 0);
    lemma_seq_differs_at("USA"@, "DEU"@, 0);
    lemma_seq_differs_at("US"@, "FR"@, 0);
    lemma_seq_differs_at("USA"@, "FRA"@, 0);
    lemma_seq_differs_at("US"@, "PH"@, 0);
    lemma_seq_differs_at("USA"@, "PHL"@, 0);
    lemma_seq_differs_at("US"@, "VN"@, 0);
    lemma_seq_differs_at("USA"@, "VNM"@, 0);
    lemma_seq_differs_at("US"@, "ID"@, 0);
    lemma_seq_differs_at("USA"@, "IDN"@, 0);
    lemma_seq_differs_at("US"@, "TH"@, 0);
    lemma_seq_differs_at("USA"@, "THA"@, 0);
    lemma_seq_differs_at("US"@, "MY"@, 0);
    lemma_seq_differs_at("USA"@, "MYS"@, 0);
    lemma_seq_differs_at("US"@, "AR"@, 0);
    lemma_seq_differs_at("USA"@, "ARG"@, 0);
    lemma_seq_differs_at("US"@, "ZA"@, 0);
    lemma_seq_differs_at("USA"@, "ZAF"@, 0);
    lemma_seq_differs_at("US"@, "EG"@, 0);
    lemma_seq_differs_at("USA"@, "EGY"@, 0);
    lemma_seq_differs_at("US"@, "AE"@, 0);
    lemma_seq_differs_at("USA"@, "ARE"@, 0);
    lemma_seq_differs_at("US"@, "SA"@, 0);
    lemma_seq_differs_at("USA"@, "SAU"@, 0);
    lemma_seq_differs_at("US"@, "TR"@, 0);
    lemma_seq_differs_at("USA"@, "TUR"@, 0);
    lemma_seq_differs_at("US"@, "IR"@, 0);
    lemma_seq_differs_at("USA"@, "IRN"@, 0);
    lemma_seq_differs_at("US"@, "BT"@, 0);
    lemma_seq_differs_at("USA"@, "BTN"@, 0);
    lemma_seq_differs_at("US"@, "IN"@, 0);
    lemma_seq_differs_at("USA"@, "IND"@, 0);
    lemma_seq_differs_at("US"@, "PW"@, 0);
    lemma_seq_differs_at("USA"@, "PLW"@, 0);
    lemma_seq_differs_at("US"@, "MO"@, 0);
    lemma_seq_differs_at("USA"@, "MAC"@, 0);
    lemma_seq_differs_at("US"@, "NZ"@, 0);
    lemma_seq_differs_at("USA"@, "NZL"@, 0);
    lemma_seq_differs_at("US"@, "AU"@, 0);
    lemma_seq_differs_at("USA"@, "AUS"@, 0);
    lemma_seq_differs_at("US"@, "IT"@, 0);
    lemma_seq_differs_at("USA"@, "ITA"@, 0);
    lemma_seq_differs_at("US"@, "RU"@, 0);
    lemma_seq_differs_at("USA"@, "RUS"@, 0);
    lemma_seq_differs_at("US"@, "BR"@, 0);
    lemma_seq_differs_at("USA"@, "BRA"@, 0);
    lemma_seq_differs_at("CN"@, "HK"@, 0);
    lemma_seq_differs_at("CHN"@, "HKG"@, 0);
    lemma_seq_differs_at("CN"@, "JP"@, 0);
    lemma_seq_differs_at("CHN"@, "JPN"@, 0);
    lemma_seq_differs_at("CN"@, "KR"@, 0);
    lemma_seq_differs_at("CHN"@, "KOR"@, 0);
    lemma_seq_differs_at("CN"@, "SG"@, 0);
    lemma_seq_differs_at("CHN"@, "SGP"@, 0);
    lemma_seq_differs_at("CN"@, "TW"@, 0);
    lemma_seq_differs_at("CHN"@, "TWN"@, 0);
    lemma_seq_differs_at("CN"@, "GB"@, 0);
    lemma_seq_differs_at("CHN"@, "GBR"@, 0);
    lemma_seq_differs_at("CN"@, "DE"@, 0);
    lemma_seq_differs_at("CHN"@, "DEU"@, 0);
    lemma_seq_differs_at("CN"@, "FR"@, 0);
    lemma_seq_differs_at("CHN"@, "FRA"@, 0);
    lemma_seq_differs_at("CN"@, "PH"@, 0);
    lemma_seq_differs_at("CHN"@, "PHL"@, 0);
    lemma_seq_differs_at("CN"@, "VN"@, 0);
    lemma_seq_differs_at("CHN"@, "VNM"@, 0);
    lemma_seq_differs_at("CN"@, "ID"@, 0);
    lemma_seq_differs_at("CHN"@, "IDN"@, 0);
    lemma_seq_differs_at("CN"@, "TH"@, 0);
    lemma_seq_differs_at("CHN"@, "THA"@, 0);
    lemma_seq_differs_at("CN"@, "MY"@, 0);
    lemma_seq_differs_at("CHN"@, "MYS"@, 0);
    lemma_seq_differs_at("CN"@, "AR"@, 0);
    lemma_seq_differs_at("CHN"@, "ARG"@, 0);
    lemma_seq_differs_at("CN"@, "ZA"@, 0);
    lemma_seq_differs_at("CHN"@, "ZAF"@, 0);
    lemma_seq_differs_at("CN"@, "EG"@, 0);
    lemma_seq_differs_at("CHN"@, "EGY"@, 0);
    lemma_seq_differs_at("CN"@, "AE"@, 0);
    lemma_seq_differs_at("CHN"@, "ARE"@, 0);
    lemma_seq_differs_at("CN"@, "SA"@, 0);
    lemma_seq_differs_at("CHN"@, "SAU"@, 0);
    lemma_seq_differs_at("CN"@, "TR"@, 0);
    lemma_seq_differs_at("CHN"@, "TUR"@, 0);
    lemma_seq_differs_at("CN"@, "IR"@, 0);
    lemma_seq_differs_at("CHN"@, "IRN"@, 0);
    lemma_seq_differs_at("CN"@, "BT"@, 0);
    lemma_seq_differs_at("CHN"@, "BTN"@, 0);
    lemma_seq_differs_at("CN"@, "IN"@, 0);
    lemma_seq_differs_at("CHN"@, "IND"@, 0);
    lemma_seq_differs_at("CN"@, "PW"@, 0);
    lemma_seq_differs_at("CHN"@, "PLW"@, 0);
    lemma_seq_differs_at("CN"@, "MO"@, 0);
    lemma_seq_differs_at("CHN"@, "MAC"@, 0);
    lemma_seq_differs_at("CN"@, "NZ"@, 0);
    lemma_seq_differs_at("CHN"@, "NZL"@, 0);
    lemma_seq_differs_at("CN"@, "AU"@, 0);
    lemma_seq_differs_at("CHN"@, "AUS"@, 0);
    lemma_seq_differs_at("CN"@, "IT"@, 0);
    lemma_seq_differs_at("CHN"@, "ITA"@, 0);
    lemma_seq_differs_at("CN"@, "RU"@, 0);
    lemma_seq_differs_at("CHN"@, "RUS"@, 0);
    lemma_seq_differs_at("CN"@, "BR"@, 0);
    lemma_seq_differs_at("CHN"@, "BRA"@, 0);
    lemma_seq_differs_at("HK"@, "JP"@, 0);
    lemma_seq_differs_at("HKG"@, "JPN"@, 0);
    lemma_seq_differs_at("HK"@, "KR"@, 0);
    lemma_seq_differs_at("HKG"@, "KOR"@, 0);
    lemma_seq_differs_at("HK"@, "SG"@, 0);
    lemma_seq_differs_at("HKG"@, "SGP"@, 0);
    lemma_seq_differs_at("HK"@, "TW"@, 0);
    lemma_seq_differs_at("HKG"@, "TWN"@, 0);
    lemma_seq_differs_at("HK"@, "GB"@, 0);
    lemma_seq_differs_at("HKG"@, "GBR"@, 0);
    lemma_seq_differs_at("HK"@, "DE"@, 0);
    lemma_seq_differs_at("HKG"@, "DEU"@, 0);
    lemma_seq_differs_at("HK"@, "FR"@, 0);
    lemma_seq_differs_at("HKG"@, "FRA"@, 0);
    lemma_seq_differs_at("HK"@, "PH"@, 0);
    lemma_seq_differs_at("HKG"@, "PHL"@, 0);
    lemma_seq_differs_at("HK"@, "VN"@, 0);
    lemma_seq_differs_at("HKG"@, "VNM"@, 0);
    lemma_seq_differs_at("HK"@, "ID"@, 0);
    lemma_seq_differs_at("HKG"@, "IDN"@, 0);
    lemma_seq_differs_at("HK"@, "TH"@, 0);
    lemma_seq_differs_at("HKG"@, "THA"@, 0);
    lemma_seq_differs_at("HK"@, "MY"@, 0);
    lemma_seq_differs_at("HKG"@, "MYS"@, 0);
    lemma_seq_differs_at("HK"@, "AR"@, 0);
    lemma_seq_differs_at("HKG"@, "ARG"@, 0);
    lemma_seq_differs_at("HK"@, "ZA"@, 0);
    lemma_seq_differs_at("HKG"@, "ZAF"@, 0);
    lemma_seq_differs_at("HK"@, "EG"@, 0);
    lemma_seq_differs_at("HKG"@, "EGY"@, 0);
    lemma_seq_differs_at("HK"@, "AE"@, 0);
    lemma_seq_differs_at("HKG"@, "ARE"@, 0);
    lemma_seq_differs_at("HK"@, "SA"@, 0);
    lemma_seq_differs_at("HKG"@, "SAU"@, 0);
    lemma_seq_differs_at("HK"@, "TR"@, 0);
    lemma_seq_differs_at("HKG"@, "TUR"@, 0);
    lemma_seq_differs_at("HK"@, "IR"@, 0);
    lemma_seq_differs_at("HKG"@, "IRN"@, 0);
    lemma_seq_differs_at("HK"@, "BT"@, 0);
    lemma_seq_differs_at("HKG"@, "BTN"@, 0);
    lemma_seq_differs_at("HK"@, "IN"@, 0);
    lemma_seq_differs_at("HKG"@, "IND"@, 0);
    lemma_seq_differs_at("HK"@, "PW"@, 0);
    lemma_seq_differs_at("HKG"@, "PLW"@, 0);
    lemma_seq_differs_at("HK"@, "MO"@, 0);
    lemma_seq_differs_at("HKG"@, "MAC"@, 0);
    lemma_seq_differs_at("HK"@, "NZ"@, 0);
    lemma_seq_differs_at("HKG"@, "NZL"@, 0);
    lemma_seq_differs_at("HK"@, "AU"@, 0);
    lemma_seq_differs_at("HKG"@, "AUS"@, 0);
    lemma_seq_differs_at("HK"@, "IT"@, 0);
    lemma_seq_differs_at("HKG"@, "ITA"@, 0);
    lemma_seq_differs_at("HK"@, "RU"@, 0);
    lemma_seq_differs_at("HKG"@, "RUS"@, 0);
    lemma_seq_differs_at("HK"@, "BR"@, 0);
    lemma_seq_differs_at("HKG"@, "BRA"@, 0);
    lemma_seq_differs_at("JP"@, "KR"@, 0);
    lemma_seq_differs_at("JPN"@, "KOR"@, 0);
    lemma_seq_differs_at("JP"@, "SG"@, 0);
    lemma_seq_differs_at("JPN"@, "SGP"@, 0);
    lemma_seq_differs_at("JP"@, "TW"@, 0);
    lemma_seq_differs_at("JPN"@, "TWN"@, 0);
    lemma_seq_differs_at("JP"@, "GB"@, 0);
    lemma_seq_differs_at("JPN"@, "GBR"@, 0);
    lemma_seq_differs_at("JP"@, "DE"@, 0);
    lemma_seq_differs_at("JPN"@, "DEU"@, 0);
    lemma_seq_differs_at("JP"@, "FR"@, 0);
    lemma_seq_differs_at("JPN"@, "FRA"@, 0);
    lemma_seq_differs_at("JP"@, "PH"@, 0);
    lemma_seq_differs_at("JPN"@, "PHL"@, 0);
    lemma_seq_differs_at("JP"@, "VN"@, 0);
    lemma_seq_differs_at("JPN"@, "VNM"@, 0);
    lemma_seq_differs_at("JP"@, "ID"@, 0);
    lemma_seq_differs_at("JPN"@, "IDN"@, 0);
    lemma_seq_differs_at("JP"@, "TH"@, 0);
    lemma_seq_differs_at("JPN"@, "THA"@, 0);
    lemma_seq_differs_at("JP"@, "MY"@, 0);
    lemma_seq_differs_at("JPN"@, "MYS"@, 0);
    lemma_seq_differs_at("JP"@, "AR"@, 0);
    lemma_seq_differs_at("JPN"@, "ARG"@, 0);
    lemma_seq_differs_at("JP"@, "ZA"@, 0);
    lemma_seq_differs_at("JPN"@, "ZAF"@, 0);
    lemma_seq_differs_at("JP"@, "EG"@, 0);
    lemma_seq_differs_at("JPN"@, "EGY"@, 0);
    lemma_seq_differs_at("JP"@, "AE"@, 0);
    lemma_seq_differs_at("JPN"@, "ARE"@, 0);
    lemma_seq_differs_at("JP"@, "SA"@, 0);
    lemma_seq_differs_at("JPN"@, "SAU"@, 0);
    lemma_seq_differs_at("JP"@, "TR"@, 0);
    lemma_seq_differs_at("JPN"@, "TUR"@, 0);
    lemma_seq_differs_at("JP"@, "IR"@, 0);
    lemma_seq_differs_at("JPN"@, "IRN"@, 0);
    lemma_seq_differs_at("JP"@, "BT"@, 0);
    lemma_seq_differs_at("JPN"@, "BTN"@, 0);
    lemma_seq_differs_at("JP"@, "IN"@, 0);
    lemma_seq_differs_at("JPN"@, "IND"@, 0);
    lemma_seq_differs_at("JP"@, "PW"@, 0);
    lemma_seq_differs_at("JPN"@, "PLW"@, 0);
    lemma_seq_differs_at("JP"@, "MO"@, 0);
    lemma_seq_differs_at("JPN"@, "MAC"@, 0);
    lemma_seq_differs_at("JP"@, "NZ"@, 0);
    lemma_seq_differs_at("JPN"@, "NZL"@, 0);
    lemma_seq_differs_at("JP"@, "AU"@, 0);
    lemma_seq_differs_at("JPN"@, "AUS"@, 0);
    lemma_seq_differs_at("JP"@, "IT"@, 0);
    lemma_seq_differs_at("JPN"@, "ITA"@, 0);
    lemma_seq_differs_at("JP"@, "RU"@, 0);
    lemma_seq_differs_at("JPN"@, "RUS"@, 0);
    lemma_seq_differs_at("JP"@, "BR"@, 0);
    lemma_seq_differs_at("JPN"@, "BRA"@, 0);
    lemma_seq_differs_at("KR"@, "SG"@, 0);
    lemma_seq_differs_at("KOR"@, "SGP"@, 0);
    lemma_seq_differs_at("KR"@, "TW"@, 0);
    lemma_seq_differs_at("KOR"@, "TWN"@, 0);
    lemma_seq_differs_at("KR"@, "GB"@, 0);
    lemma_seq_differs_at("KOR"@, "GBR"@, 0);
    lemma_seq_differs_at("KR"@, "DE"@, 0);
    lemma_seq_differs_at("KOR"@, "DEU"@, 0);
    lemma_seq_differs_at("KR"@, "FR"@, 0);
    lemma_seq_differs_at("KOR"@, "FRA"@, 0);
    lemma_seq_differs_at("KR"@, "PH"@, 0);
    lemma_seq_differs_at("KOR"@, "PHL"@, 0);
    lemma_seq_differs_at("KR"@, "VN"@, 0);
    lemma_seq_differs_at("KOR"@, "VNM"@, 0);
    lemma_seq_differs_at("KR"@, "ID"@, 0);
    lemma_seq_differs_at("KOR"@, "IDN"@, 0);
    lemma_seq_differs_at("KR"@, "TH"@, 0);
    lemma_seq_differs_at("KOR"@, "THA"@, 0);
    lemma_seq_differs_at("KR"@, "MY"@, 0);
    lemma_seq_differs_at("KOR"@, "MYS"@, 0);
    lemma_seq_differs_at("KR"@, "AR"@, 0);
    lemma_seq_differs_at("KOR"@, "ARG"@, 0);
    lemma_seq_differs_at("KR"@, "ZA"@, 0);
    lemma_seq_differs_at("KOR"@, "ZAF"@, 0);
    lemma_seq_differs_at("KR"@, "EG"@, 0);
    lemma_seq_differs_at("KOR"@, "EGY"@, 0);
    lemma_seq_differs_at("KR"@, "AE"@, 0);
    lemma_seq_differs_at("KOR"@, "ARE"@, 0);
    lemma_seq_differs_at("KR"@, "SA"@, 0);
    lemma_seq_differs_at("KOR"@, "SAU"@, 0);
    lemma_seq_differs_at("KR"@, "TR"@, 0);
    lemma_seq_differs_at("KOR"@, "TUR"@, 0);
    lemma_seq_differs_at("KR"@, "IR"@, 0);
    lemma_seq_differs_at("KOR"@, "IRN"@, 0);
    lemma_seq_differs_at("KR"@, "BT"@, 0);
    lemma_seq_differs_at("KOR"@, "BTN"@, 0);
    lemma_seq_differs_at("KR"@, "IN"@, 0);
    lemma_seq_differs_at("KOR"@, "IND"@, 0);
    lemma_seq_differs_at("KR"@, "PW"@, 0);
    lemma_seq_differs_at("KOR"@, "PLW"@, 0);
    lemma_seq_differs_at("KR"@, "MO"@, 0);
    lemma_seq_differs_at("KOR"@, "MAC"@, 0);
    lemma_seq_differs_at("KR"@, "NZ"@, 0);
    lemma_seq_differs_at("KOR"@, "NZL"@, 0);
    lemma_seq_differs_at("KR"@, "AU"@, 0);
    lemma_seq_differs_at("KOR"@, "AUS"@, 0);
    lemma_seq_differs_at("KR"@, "IT"@, 0);
    lemma_seq_differs_at("KOR"@, "ITA"@, 0);
    lemma_seq_differs_at("KR"@, "RU"@, 0);
    lemma_seq_differs_at("KOR"@, "RUS"@, 0);
    lemma_seq_differs_at("KR"@, "BR"@, 0);
    lemma_seq_differs_at("KOR"@, "BRA"@, 0);
    lemma_seq_differs_at("SG"@, "TW"@, 0);
    lemma_seq_differs_at("SGP"@, "TWN"@, 0);
    lemma_seq_differs_at("SG"@, "GB"@, 0);
    lemma_seq_differs_at("SGP"@, "GBR"@, 0);
    lemma_seq_differs_at("SG"@, "DE"@, 0);
    lemma_seq_differs_at("SGP"@, "DEU"@, 0);
    lemma_seq_differs_at("SG"@, "FR"@, 0);
    lemma_seq_differs_at("SGP"@, "FRA"@, 0);
    lemma_seq_differs_at("SG"@, "PH"@, 0);
    lemma_seq_differs_at("SGP"@, "PHL"@, 0);
    lemma_seq_differs_at("SG"@, "VN"@, 0);
    lemma_seq_differs_at("SGP"@, "VNM"@, 0);
    lemma_seq_differs_at("SG"@, "ID"@, 0);
    lemma_seq_differs_at("SGP"@, "IDN"@, 0);
    lemma_seq_differs_at("SG"@, "TH"@, 0);
    lemma_seq_differs_at("SGP"@, "THA"@, 0);
    lemma_seq_differs_at("SG"@, "MY"@, 0);
    lemma_seq_differs_at("SGP"@, "MYS"@, 0);
    lemma_seq_differs_at("SG"@, "AR"@, 0);
    lemma_seq_differs_at("SGP"@, "ARG"@, 0);
    lemma_seq_differs_at("SG"@, "ZA"@, 0);
    lemma_seq_differs_at("SGP"@, "ZAF"@, 0);
    lemma_seq_differs_at("SG"@, "EG"@, 0);
    lemma_seq_differs_at("SGP"@, "EGY"@, 0);
    lemma_seq_differs_at("SG"@, "AE"@, 0);
    lemma_seq_differs_at("SGP"@, "ARE"@, 0);
    lemma_seq_differs_at("SG"@, "SA"@, 1);
    lemma_seq_differs_at("SGP"@, "SAU"@, 1);
    lemma_seq_differs_at("SG"@, "TR"@, 0);
    lemma_seq_differs_at("SGP"@, "TUR"@, 0);
    lemma_seq_differs_at("SG"@, "IR"@, 0);
    lemma_seq_differs_at("SGP"@, "IRN"@, 0);
    lemma_seq_differs_at("SG"@, "BT"@, 0);
    lemma_seq_differs_at("SGP"@, "BTN"@, 0);
    lemma_seq_differs_at("SG"@, "IN"@, 0);
    lemma_seq_differs_at("SGP"@, "IND"@, 0);
    lemma_seq_differs_at("SG"@, "PW"@, 0);
    lemma_seq_differs_at("SGP"@, "PLW"@, 0);
    lemma_seq_differs_at("SG"@, "MO"@, 0);
    lemma_seq_differs_at("SGP"@, "MAC"@, 0);
    lemma_seq_differs_at("SG"@, "NZ"@, 0);
    lemma_seq_differs_at("SGP"@, "NZL"@, 0);
    lemma_seq_differs_at("SG"@, "AU"@, 0);
    lemma_seq_differs_at("SGP"@, "AUS"@, 0);
    lemma_seq_differs_at("SG"@, "IT"@, 0);
    lemma_seq_differs_at("SGP"@, "ITA"@, 0);
    lemma_seq_differs_at("SG"@, "RU"@, 0);
    lemma_seq_differs_at("SGP"@, "RUS"@, 0);
    lemma_seq_differs_at("SG"@, "BR"@, 0);
    lemma_seq_differs_at("SGP"@, "BRA"@, 0);
    lemma_seq_differs_at("TW"@, "GB"@, 0);
    lemma_seq_differs_at("TWN"@, "GBR"@, 0);
    lemma_seq_differs_at("TW"@, "DE"@, 0);
    lemma_seq_differs_at("TWN"@, "DEU"@, 0);
    lemma_seq_differs_at("TW"@, "FR"@, 0);
    lemma_seq_differs_at("TWN"@, "FRA"@, 0);
    lemma_seq_differs_at("TW"@, "PH"@, 0);
    lemma_seq_differs_at("TWN"@, "PHL"@, 0);
    lemma_seq_differs_at("TW"@, "VN"@, 0);
    lemma_seq_differs_at("TWN"@, "VNM"@, 0);
    lemma_seq_differs_at("TW"@, "ID"@, 0);
    lemma_seq_differs_at("TWN"@, "IDN"@, 0);
    lemma_seq_differs_at("TW"@, "TH"@, 1);
    lemma_seq_differs_at("TWN"@, "THA"@, 1);
    lemma_seq_differs_at("TW"@, "MY"@, 0);
    lemma_seq_differs_at("TWN"@, "MYS"@, 0);
    lemma_seq_differs_at("TW"@, "AR"@, 0);
    lemma_seq_differs_at("TWN"@, "ARG"@, 0);
    lemma_seq_differs_at("TW"@, "ZA"@, 0);
    lemma_seq_differs_at("TWN"@, "ZAF"@, 0);
    lemma_seq_differs_at("TW"@, "EG"@, 0);
    lemma_seq_differs_at("TWN"@, "EGY"@, 0);
    lemma_seq_differs_at("TW"@, "AE"@, 0);
    lemma_seq_differs_at("TWN"@, "ARE"@, 0);
    lemma_seq_differs_at("TW"@, "SA"@, 0);
    lemma_seq_differs_at("TWN"@, "SAU"@, 0);
    lemma_seq_differs_at("TW"@, "TR"@, 1);
    lemma_seq_differs_at("TWN"@, "TUR"@, 1);
    lemma_seq_differs_at("TW"@, "IR"@, 0);
    lemma_seq_differs_at("TWN"@, "IRN"@, 0);
    lemma_seq_differs_at("TW"@, "BT"@, 0);
    lemma_seq_differs_at("TWN"@, "BTN"@, 0);
    lemma_seq_differs_at("TW"@, "IN"@, 0);
    lemma_seq_differs_at("TWN"@, "IND"@, 0);
    lemma_seq_differs_at("TW"@, "PW"@, 0);
    lemma_seq_differs_at("TWN"@, "PLW"@, 0);
    lemma_seq_differs_at("TW"@, "MO"@, 0);
    lemma_seq_differs_at("TWN"@, "MAC"@, 0);
    lemma_seq_differs_at("TW"@, "NZ"@, 0);
    lemma_seq_differs_at("TWN"@, "NZL"@, 0);
    lemma_seq_differs_at("TW"@, "AU"@, 0);
    lemma_seq_differs_at("TWN"@, "AUS"@, 0);
    lemma_seq_differs_at("TW"@, "IT"@, 0);
    lemma_seq_differs_at("TWN"@, "ITA"@, 0);
    lemma_seq_differs_at("TW"@, "RU"@, 0);
    lemma_seq_differs_at("TWN"@, "RUS"@, 0);
    lemma_seq_differs_at("TW"@, "BR"@, 0);
    lemma_seq_differs_at("TWN"@, "BRA"@, 0);
    lemma_seq_differs_at("GB"@, "DE"@, 0);
    lemma_seq_differs_at("GBR"@, "DEU"@, 0);
    lemma_seq_differs_at("GB"@, "FR"@, 0);
    lemma_seq_differs_at("GBR"@, "FRA"@, 0);
    lemma_seq_differs_at("GB"@, "PH"@, 0);
    lemma_seq_differs_at("GBR"@, "PHL"@, 0);
    lemma_seq_differs_at("GB"@, "VN"@, 0);
    lemma_seq_differs_at("GBR"@, "VNM"@, 0);
    lemma_seq_differs_at("GB"@, "ID"@, 0);
    lemma_seq_differs_at("GBR"@, "IDN"@, 0);
    lemma_seq_differs_at("GB"@, "TH"@, 0);
    lemma_seq_differs_at("GBR"@, "THA"@, 0);
    lemma_seq_differs_at("GB"@, "MY"@, 0);
    lemma_seq_differs_at("GBR"@, "MYS"@, 0);
    lemma_seq_differs_at("GB"@, "AR"@, 0);
    lemma_seq_differs_at("GBR"@, "ARG"@, 0);
    lemma_seq_differs_at("GB"@, "ZA"@, 0);
    lemma_seq_differs_at("GBR"@, "ZAF"@, 0);
    lemma_seq_differs_at("GB"@, "EG"@, 0);
    lemma_seq_differs_at("GBR"@, "EGY"@, 0);
    lemma_seq_differs_at("GB"@, "AE"@, 0);
    lemma_seq_differs_at("GBR"@, "ARE"@, 0);
    lemma_seq_differs_at("GB"@, "SA"@, 0);
    lemma_seq_differs_at("GBR"@, "SAU"@, 0);
    lemma_seq_differs_at("GB"@, "TR"@, 0);
    lemma_seq_differs_at("GBR"@, "TUR"@, 0);
    lemma_seq_differs_at("GB"@, "IR"@, 0);
    lemma_seq_differs_at("GBR"@, "IRN"@, 0);
    lemma_seq_differs_at("GB"@, "BT"@, 0);
    lemma_seq_differs_at("GBR"@, "BTN"@, 0);
    lemma_seq_differs_at("GB"@, "IN"@, 0);
    lemma_seq_differs_at("GBR"@, "IND"@, 0);
    lemma_seq_differs_at("GB"@, "PW"@, 0);
    lemma_seq_differs_at("GBR"@, "PLW"@, 0);
    lemma_seq_differs_at("GB"@, "MO"@, 0);
    lemma_seq_differs_at("GBR"@, "MAC"@, 0);
    lemma_seq_differs_at("GB"@, "NZ"@, 0);
    lemma_seq_differs_at("GBR"@, "NZL"@, 0);
    lemma_seq_differs_at("GB"@, "AU"@, 0);
    lemma_seq_differs_at("GBR"@, "AUS"@, 0);
    lemma_seq_differs_at("GB"@, "IT"@, 0);
    lemma_seq_differs_at("GBR"@, "ITA"@, 0);
    lemma_seq_differs_at("GB"@, "RU"@, 0);
    lemma_seq_differs_at("GBR"@, "RUS"@, 0);
    lemma_seq_differs_at("GB"@, "BR"@, 0);
    lemma_seq_differs_at("GBR"@, "BRA"@, 0);
}

proof fn lemma_builtin_codes_distinct_b()
    ensures
        forall|k1: int, k2: int|
            #![trigger builtin_registry()[k1], builtin_registry()[k2]]
            8 <= k1 < 16 && k1 < k2 < builtin_registry().len()
                ==> builtin_registry()[k1].alpha2 != builtin_registry()[k2].alpha2
                    && builtin_registry()[k1].alpha3 != builtin_registry()[k2].alpha3,
{
    reveal_strlit("DE");
    reveal_strlit("DEU");
    reveal_strlit("FR");
    reveal_strlit("FRA");
    reveal_strlit("PH");
    reveal_strlit("PHL");
    reveal_strlit("VN");
    reveal_strlit("VNM");
    reveal_strlit("ID");
    reveal_strlit("IDN");
    reveal_strlit("TH");
    reveal_strlit("THA");
    reveal_strlit("MY");
    reveal_strlit("MYS");
    reveal_strlit("AR");
    reveal_strlit("ARG");
    reveal_strlit("ZA");
    reveal_strlit("ZAF");
    reveal_strlit("EG");
    reveal_strlit("EGY");
    reveal_strlit("AE");
    reveal_strlit("ARE");
    reveal_strlit("SA");
    reveal_strlit("SAU");
    reveal_strlit("TR");
    reveal_strlit("TUR");
    reveal_strlit("IR");
    reveal_strlit("IRN");
    reveal_strlit("BT");
    reveal_strlit("BTN");
    reveal_strlit("IN");
    reveal_strlit("IND");
    reveal_strlit("PW");
    reveal_strlit("PLW");
    reveal_strlit("MO");
    reveal_strlit("MAC");
    reveal_strlit("NZ");
    reveal_strlit("NZL");
    reveal_strlit("AU");
    reveal_strlit("AUS");
    reveal_strlit("IT");
    reveal_strlit("ITA");
    reveal_strlit("RU");
    reveal_strlit("RUS");
    reveal_strlit("BR");
    reveal_strlit("BRA");
    let rs = builtin_registry();
    lemma_seq_differs_at("DE"@, "FR"@, 0);
    lemma_seq_differs_at("DEU"@, "FRA"@, 0);
    lemma_seq_differs_at("DE"@, "PH"@, 0);
    lemma_seq_differs_at("DEU"@, "PHL"@, 0);
    lemma_seq_differs_at("DE"@, "VN"@, 0);
    lemma_seq_differs_at("DEU"@, "VNM"@, 0);
    lemma_seq_differs_at("DE"@, "ID"@, 0);
    lemma_seq_differs_at("DEU"@, "IDN"@, 0);
    lemma_seq_differs_at("DE"@, "TH"@, 0);
    lemma_seq_differs_at("DEU"@, "THA"@, 0);
    lemma_seq_differs_at("DE"@, "MY"@, 0);
    lemma_seq_differs_at("DEU"@, "MYS"@, 0);
    lemma_seq_differs_at("DE"@, "AR"@, 0);
    lemma_seq_differs_at("DEU"@, "ARG"@, 0);
    lemma_seq_differs_at("DE"@, "ZA"@, 0);
    lemma_seq_differs_at("DEU"@, "ZAF"@, 0);
    lemma_seq_differs_at("DE"@, "EG"@, 0);
    lemma_seq_differs_at("DEU"@, "EGY"@, 0);
    lemma_seq_differs_at("DE"@, "AE"@, 0);
    lemma_seq_differs_at("DEU"@, "ARE"@, 0);
    lemma_seq_differs_at("DE"@, "SA"@, 0);
    lemma_seq_differs_at("DEU"@, "SAU"@, 0);
    lemma_seq_differs_at("DE"@, "TR"@, 0);
    lemma_seq_differs_at("DEU"@, "TUR"@, 0);
    lemma_seq_differs_at("DE"@, "IR"@, 0);
    lemma_seq_differs_at("DEU"@, "IRN"@, 0);
    lemma_seq_differs_at("DE"@, "BT"@, 0);
    lemma_seq_differs_at("DEU"@, "BTN"@, 0);
    lemma_seq_differs_at("DE"@, "IN"@, 0);
    lemma_seq_differs_at("DEU"@, "IND"@, 0);
    lemma_seq_differs_at("DE"@, "PW"@, 0);
    lemma_seq_differs_at("DEU"@, "PLW"@, 0);
    lemma_seq_differs_at("DE"@, "MO"@, 0);
    lemma_seq_differs_at("DEU"@, "MAC"@, 0);
    lemma_seq_differs_at("DE"@, "NZ"@, 0);
    lemma_seq_differs_at("DEU"@, "NZL"@, 0);
    lemma_seq_differs_at("DE"@, "AU"@, 0);
    lemma_seq_differs_at("DEU"@, "AUS"@, 0);
    lemma_seq_differs_at("DE"@, "IT"@, 0);
    lemma_seq_differs_at("DEU"@, "ITA"@, 0);
    lemma_seq_differs_at("DE"@, "RU"@, 0);
    lemma_seq_differs_at("DEU"@, "RUS"@, 0);
    lemma_seq_differs_at("DE"@, "BR"@, 0);
    lemma_seq_differs_at("DEU"@, "BRA"@, 0);
    lemma_seq_differs_at("FR"@, "PH"@, 0);
    lemma_seq_differs_at("FRA"@, "PHL"@, 0);
    lemma_seq_differs_at("FR"@, "VN"@, 0);
    lemma_seq_differs_at("FRA"@, "VNM"@, 0);
    lemma_seq_differs_at("FR"@, "ID"@, 0);
    lemma_seq_differs_at("FRA"@, "IDN"@, 0);
    lemma_seq_differs_at("FR"@, "TH"@, 0);
    lemma_seq_differs_at("FRA"@, "THA"@, 0);
    lemma_seq_differs_at("FR"@, "MY"@, 0);
    lemma_seq_differs_at("FRA"@, "MYS"@, 0);
    lemma_seq_differs_at("FR"@, "AR"@, 0);
    lemma_seq_differs_at("FRA"@, "ARG"@, 0);
    lemma_seq_differs_at("FR"@, "ZA"@, 0);
    lemma_seq_differs_at("FRA"@, "ZAF"@, 0);
    lemma_seq_differs_at("FR"@, "EG"@, 0);
    lemma_seq_differs_at("FRA"@, "EGY"@, 0);
    lemma_seq_differs_at("FR"@, "AE"@, 0);
    lemma_seq_differs_at("FRA"@, "ARE"@, 0);
    lemma_seq_differs_at("FR"@, "SA"@, 0);
    lemma_seq_differs_at("FRA"@, "SAU"@, 0);
    lemma_seq_differs_at("FR"@, "TR"@, 0);
    lemma_seq_differs_at("FRA"@, "TUR"@, 0);
    lemma_seq_differs_at("FR"@, "IR"@, 0);
    lemma_seq_differs_at("FRA"@, "IRN"@, 0);
    lemma_seq_differs_at("FR"@, "BT"@, 0);
    lemma_seq_differs_at("FRA"@, "BTN"@, 0);
    lemma_seq_differs_at("FR"@, "IN"@, 0);
    lemma_seq_differs_at("FRA"@, "IND"@, 0);
    lemma_seq_differs_at("FR"@, "PW"@, 0);
    lemma_seq_differs_at("FRA"@, "PLW"@, 0);
    lemma_seq_differs_at("FR"@, "MO"@, 0);
    lemma_seq_differs_at("FRA"@, "MAC"@, 0);
    lemma_seq_differs_at("FR"@, "NZ"@, 0);
    lemma_seq_differs_at("FRA"@, "NZL"@, 0);
    lemma_seq_differs_at("FR"@, "AU"@, 0);
    lemma_seq_differs_at("FRA"@, "AUS"@, 0);
    lemma_seq_differs_at("FR"@, "IT"@, 0);
    lemma_seq_differs_at("FRA"@, "ITA"@, 0);
    lemma_seq_differs_at("FR"@, "RU"@, 0);
    lemma_seq_differs_at("FRA"@, "RUS"@, 0);
    lemma_seq_differs_at("FR"@, "BR"@, 0);
    lemma_seq_differs_at("FRA"@, "BRA"@, 0);
    lemma_seq_differs_at("PH"@, "VN"@, 0);
    lemma_seq_differs_at("PHL"@, "VNM"@, 0);
    lemma_seq_differs_at("PH"@, "ID"@, 0);
    lemma_seq_differs_at("PHL"@, "IDN"@, 0);
    lemma_seq_differs_at("PH"@, "TH"@, 0);
    lemma_seq_differs_at("PHL"@, "THA"@, 0);
    lemma_seq_differs_at("PH"@, "MY"@, 0);
    lemma_seq_differs_at("PHL"@, "MYS"@, 0);
    lemma_seq_differs_at("PH"@, "AR"@, 0);
    lemma_seq_differs_at("PHL"@, "ARG"@, 0);
    lemma_seq_differs_at("PH"@, "ZA"@, 0);
    lemma_seq_differs_at("PHL"@, "ZAF"@, 0);
    lemma_seq_differs_at("PH"@, "EG"@, 0);
    lemma_seq_differs_at("PHL"@, "EGY"@, 0);
    lemma_seq_differs_at("PH"@, "AE"@, 0);
    lemma_seq_differs_at("PHL"@, "ARE"@, 0);
    lemma_seq_differs_at("PH"@, "SA"@, 0);
    lemma_seq_differs_at("PHL"@, "SAU"@, 0);
    lemma_seq_differs_at("PH"@, "TR"@, 0);
    lemma_seq_differs_at("PHL"@, "TUR"@, 0);
    lemma_seq_differs_at("PH"@, "IR"@, 0);
    lemma_seq_differs_at("PHL"@, "IRN"@, 0);
    lemma_seq_differs_at("PH"@, "BT"@, 0);
    lemma_seq_differs_at("PHL"@, "BTN"@, 0);
    lemma_seq_differs_at("PH"@, "IN"@, 0);
    lemma_seq_differs_at("PHL"@, "IND"@, 0);
    lemma_seq_differs_at("PH"@, "PW"@, 1);
    lemma_seq_differs_at("PHL"@, "PLW"@, 1);
    lemma_seq_differs_at("PH"@, "MO"@, 0);
    lemma_seq_differs_at("PHL"@, "MAC"@, 0);
    lemma_seq_differs_at("PH"@, "NZ"@, 0);
    lemma_seq_differs_at("PHL"@, "NZL"@, 0);
    lemma_seq_differs_at("PH"@, "AU"@, 0);
    lemma_seq_differs_at("PHL"@, "AUS"@, 0);
    lemma_seq_differs_at("PH"@, "IT"@, 0);
    lemma_seq_differs_at("PHL"@, "ITA"@, 0);
    lemma_seq_differs_at("PH"@, "RU"@, 0);
    lemma_seq_differs_at("PHL"@, "RUS"@, 0);
    lemma_seq_differs_at("PH"@, "BR"@, 0);
    lemma_seq_differs_at("PHL"@, "BRA"@, 0);
    lemma_seq_differs_at("VN"@, "ID"@, 0);
    lemma_seq_differs_at("VNM"@, "IDN"@, 0);
    lemma_seq_differs_at("VN"@, "TH"@, 0);
    lemma_seq_differs_at("VNM"@, "THA"@, 0);
    lemma_seq_differs_at("VN"@, "MY"@, 0);
    lemma_seq_differs_at("VNM"@, "MYS"@, 0);
    lemma_seq_differs_at("VN"@, "AR"@, 0);
    lemma_seq_differs_at("VNM"@, "ARG"@, 0);
    lemma_seq_differs_at("VN"@, "ZA"@, 0);
    lemma_seq_differs_at("VNM"@, "ZAF"@, 0);
    lemma_seq_differs_at("VN"@, "EG"@, 0);
    lemma_seq_differs_at("VNM"@, "EGY"@, 0);
    lemma_seq_differs_at("VN"@, "AE"@, 0);
    lemma_seq_differs_at("VNM"@, "ARE"@, 0);
    lemma_seq_differs_at("VN"@, "SA"@, 0);
    lemma_seq_differs_at("VNM"@, "SAU"@, 0);
    lemma_seq_differs_at("VN"@, "TR"@, 0);
    lemma_seq_differs_at("VNM"@, "TUR"@, 0);
    lemma_seq_differs_at("VN"@, "IR"@, 0);
    lemma_seq_differs_at("VNM"@, "IRN"@, 0);
    lemma_seq_differs_at("VN"@, "BT"@, 0);
    lemma_seq_differs_at("VNM"@, "BTN"@, 0);
    lemma_seq_differs_at("VN"@, "IN"@, 0);
    lemma_seq_differs_at("VNM"@, "IND"@, 0);
    lemma_seq_differs_at("VN"@, "PW"@, 0);
    lemma_seq_differs_at("VNM"@, "PLW"@, 0);
    lemma_seq_differs_at("VN"@, "MO"@, 0);
    lemma_seq_differs_at("VNM"@, "MAC"@, 0);
    lemma_seq_differs_at("VN"@, "NZ"@, 0);
    lemma_seq_differs_at("VNM"@, "NZL"@, 0);
    lemma_seq_differs_at("VN"@, "AU"@, 0);
    lemma_seq_differs_at("VNM"@, "AUS"@, 0);
    lemma_seq_differs_at("VN"@, "IT"@, 0);
    lemma_seq_differs_at("VNM"@, "ITA"@, 0);
    lemma_seq_differs_at("VN"@, "RU"@, 0);
    lemma_seq_differs_at("VNM"@, "RUS"@, 0);
    lemma_seq_differs_at("VN"@, "BR"@, 0);
    lemma_seq_differs_at("VNM"@, "BRA"@, 0);
    lemma_seq_differs_at("ID"@, "TH"@, 0);
    lemma_seq_differs_at("IDN"@, "THA"@, 0);
    lemma_seq_differs_at("ID"@, "MY"@, 0);
    lemma_seq_differs_at("IDN"@, "MYS"@, 0);
    lemma_seq_differs_at("ID"@, "AR"@, 0);
    lemma_seq_differs_at("IDN"@, "ARG"@, 0);
    lemma_seq_differs_at("ID"@, "ZA"@, 0);
    lemma_seq_differs_at("IDN"@, "ZAF"@, 0);
    lemma_seq_differs_at("ID"@, "EG"@, 0);
    lemma_seq_differs_at("IDN"@, "EGY"@, 0);
    lemma_seq_differs_at("ID"@, "AE"@, 0);
    lemma_seq_differs_at("IDN"@, "ARE"@, 0);
    lemma_seq_differs_at("ID"@, "SA"@, 0);
    lemma_seq_differs_at("IDN"@, "SAU"@, 0);
    lemma_seq_differs_at("ID"@, "TR"@, 0);
    lemma_seq_differs_at("IDN"@, "TUR"@, 0);
    lemma_seq_differs_at("ID"@, "IR"@, 1);
    lemma_seq_differs_at("IDN"@, "IRN"@, 1);
    lemma_seq_differs_at("ID"@, "BT"@, 0);
    lemma_seq_differs_at("IDN"@, "BTN"@, 0);
    lemma_seq_differs_at("ID"@, "IN"@, 1);
    lemma_seq_differs_at("IDN"@, "IND"@, 1);
    lemma_seq_differs_at("ID"@, "PW"@, 0);
    lemma_seq_differs_at("IDN"@, "PLW"@, 0);
    lemma_seq_differs_at("ID"@, "MO"@, 0);
    lemma_seq_differs_at("IDN"@, "MAC"@, 0);
    lemma_seq_differs_at("ID"@, "NZ"@, 0);
    lemma_seq_differs_at("IDN"@, "NZL"@, 0);
    lemma_seq_differs_at("ID"@, "AU"@, 0);
    lemma_seq_differs_at("IDN"@, "AUS"@, 0);
    lemma_seq_differs_at("ID"@, "IT"@, 1);
    lemma_seq_differs_at("IDN"@, "ITA"@, 1);
    lemma_seq_differs_at("ID"@, "RU"@, 0);
    lemma_seq_differs_at("IDN"@, "RUS"@, 0);
    lemma_seq_differs_at("ID"@, "BR"@, 0);
    lemma_seq_differs_at("IDN"@, "BRA"@, 0);
    lemma_seq_differs_at("TH"@, "MY"@, 0);
    lemma_seq_differs_at("THA"@, "MYS"@, 0);
    lemma_seq_differs_at("TH"@, "AR"@, 0);
    lemma_seq_differs_at("THA"@, "ARG"@, 0);
    lemma_seq_differs_at("TH"@, "ZA"@, 0);
    lemma_seq_differs_at("THA"@, "ZAF"@, 0);
    lemma_seq_differs_at("TH"@, "EG"@, 0);
    lemma_seq_differs_at("THA"@, "EGY"@, 0);
    lemma_seq_differs_at("TH"@, "AE"@, 0);
    lemma_seq_differs_at("THA"@, "ARE"@, 0);
    lemma_seq_differs_at("TH"@, "SA"@, 0);
    lemma_seq_differs_at("THA"@, "SAU"@, 0);
    lemma_seq_differs_at("TH"@, "TR"@, 1);
    lemma_seq_differs_at("THA"@, "TUR"@, 1);
    lemma_seq_differs_at("TH"@, "IR"@, 0);
    lemma_seq_differs_at("THA"@, "IRN"@, 0);
    lemma_seq_differs_at("TH"@, "BT"@, 0);
    lemma_seq_differs_at("THA"@, "BTN"@, 0);
    lemma_seq_differs_at("TH"@, "IN"@, 0);
    lemma_seq_differs_at("THA"@, "IND"@, 0);
    lemma_seq_differs_at("TH"@, "PW"@, 0);
    lemma_seq_differs_at("THA"@, "PLW"@, 0);
    lemma_seq_differs_at("TH"@, "MO"@, 0);
    lemma_seq_differs_at("THA"@, "MAC"@, 0);
    lemma_seq_differs_at("TH"@, "NZ"@, 0);
    lemma_seq_differs_at("THA"@, "NZL"@, 0);
    lemma_seq_differs_at("TH"@, "AU"@, 0);
    lemma_seq_differs_at("THA"@, "AUS"@, 0);
    lemma_seq_differs_at("TH"@, "IT"@, 0);
    lemma_seq_differs_at("THA"@, "ITA"@, 0);
    lemma_seq_differs_at("TH"@, "RU"@, 0);
    lemma_seq_differs_at("THA"@, "RUS"@, 0);
    lemma_seq_differs_at("TH"@, "BR"@, 0);
    lemma_seq_differs_at("THA"@, "BRA"@, 0);
    lemma_seq_differs_at("MY"@, "AR"@, 0);
    lemma_seq_differs_at("MYS"@, "ARG"@, 0);
    lemma_seq_differs_at("MY"@, "ZA"@, 0);
    lemma_seq_differs_at("MYS"@, "ZAF"@, 0);
    lemma_seq_differs_at("MY"@, "EG"@, 0);
    lemma_seq_differs_at("MYS"@, "EGY"@, 0);
    lemma_seq_differs_at("MY"@, "AE"@, 0);
    lemma_seq_differs_at("MYS"@, "ARE"@, 0);
    lemma_seq_differs_at("MY"@, "SA"@, 0);
    lemma_seq_differs_at("MYS"@, "SAU"@, 0);
    lemma_seq_differs_at("MY"@, "TR"@, 0);
    lemma_seq_differs_at("MYS"@, "TUR"@, 0);
    lemma_seq_differs_at("MY"@, "IR"@, 0);
    lemma_seq_differs_at("MYS"@, "IRN"@, 0);
    lemma_seq_differs_at("MY"@, "BT"@, 0);
    lemma_seq_differs_at("MYS"@, "BTN"@, 0);
    lemma_seq_differs_at("MY"@, "IN"@, 0);
    lemma_seq_differs_at("MYS"@, "IND"@, 0);
    lemma_seq_differs_at("MY"@, "PW"@, 0);
    lemma_seq_differs_at("MYS"@, "PLW"@, 0);
    lemma_seq_differs_at("MY"@, "MO"@, 1);
    lemma_seq_differs_at("MYS"@, "MAC"@, 1);
    lemma_seq_differs_at("MY"@, "NZ"@, 0);
    lemma_seq_differs_at("MYS"@, "NZL"@, 0);
    lemma_seq_differs_at("MY"@, "AU"@, 0);
    lemma_seq_differs_at("MYS"@, "AUS"@, 0);
    lemma_seq_differs_at("MY"@, "IT"@, 0);
    lemma_seq_differs_at("MYS"@, "ITA"@, 0);
    lemma_seq_differs_at("MY"@, "RU"@, 0);
    lemma_seq_differs_at("MYS"@, "RUS"@, 0);
    lemma_seq_differs_at("MY"@, "BR"@, 0);
    lemma_seq_differs_at("MYS"@, "BRA"@, 0);
    lemma_seq_differs_at("AR"@, "ZA"@, 0);
    lemma_seq_differs_at("ARG"@, "ZAF"@, 0);
    lemma_seq_differs_at("AR"@, "EG"@, 0);
    lemma_seq_differs_at("ARG"@, "EGY"@, 0);
    lemma_seq_differs_at("AR"@, "AE"@, 1);
    lemma_seq_differs_at("ARG"@, "ARE"@, 2);
    lemma_seq_differs_at("AR"@, "SA"@, 0);
    lemma_seq_differs_at("ARG"@, "SAU"@, 0);
    lemma_seq_differs_at("AR"@, "TR"@, 0);
    lemma_seq_differs_at("ARG"@, "TUR"@, 0);
    lemma_seq_differs_at("AR"@, "IR"@, 0);
    lemma_seq_differs_at("ARG"@, "IRN"@, 0);
    lemma_seq_differs_at("AR"@, "BT"@, 0);
    lemma_seq_differs_at("ARG"@, "BTN"@, 0);
    lemma_seq_differs_at("AR"@, "IN"@, 0);
    lemma_seq_differs_at("ARG"@, "IND"@, 0);
    lemma_seq_differs_at("AR"@, "PW"@, 0);
    lemma_seq_differs_at("ARG"@, "PLW"@, 0);
    lemma_seq_differs_at("AR"@, "MO"@, 0);
    lemma_seq_differs_at("ARG"@, "MAC"@, 0);
    lemma_seq_differs_at("AR"@, "NZ"@, 0);
    lemma_seq_differs_at("ARG"@, "NZL"@, 0);
    lemma_seq_differs_at("AR"@, "AU"@, 1);
    lemma_seq_differs_at("ARG"@, "AUS"@, 1);
    lemma_seq_differs_at("AR"@, "IT"@, 0);
    lemma_seq_differs_at("ARG"@, "ITA"@, 0);
    lemma_seq_differs_at("AR"@, "RU"@, 0);
    lemma_seq_differs_at("ARG"@, "RUS"@, 0);
    lemma_seq_differs_at("AR"@, "BR"@, 0);
    lemma_seq_differs_at("ARG"@, "BRA"@, 0);
}

proof fn lemma_builtin_codes_distinct_c()
    ensures
        forall|k1: int, k2: int|
            #![trigger builtin_registry()[k1], builtin_registry()[k2]]
            16 <= k1 < 24 && k1 < k2 < builtin_registry().len()
                ==> builtin_registry()[k1].alpha2 != builtin_registry()[k2].alpha2
                    && builtin_registry()[k1].alpha3 != builtin_registry()[k2].alpha3,
{
    reveal_strlit("ZA");
    reveal_strlit("ZAF");
    reveal_strlit("EG");
    reveal_strlit("EGY");
    reveal_strlit("AE");
    reveal_strlit("ARE");
    reveal_strlit("SA");
    reveal_strlit("SAU");
    reveal_strlit("TR");
    reveal_strlit("TUR");
    reveal_strlit("IR");
    reveal_strlit("IRN");
    reveal_strlit("BT");
    reveal_strlit("BTN");
    reveal_strlit("IN");
    reveal_strlit("IND");
    reveal_strlit("PW");
    reveal_strlit("PLW");
    reveal_strlit("MO");
    reveal_strlit("MAC");
    reveal_strlit("NZ");
    reveal_strlit("NZL");
    reveal_strlit("AU");
    reveal_strlit("AUS");
    reveal_strlit("IT");
    reveal_strlit("ITA");
    reveal_strlit("RU");
    reveal_strlit("RUS");
    reveal_strlit("BR");
    reveal_strlit("BRA");
    let rs = builtin_registry();
    lemma_seq_differs_at("ZA"@, "EG"@, 0);
    lemma_seq_differs_at("ZAF"@, "EGY"@, 0);
    lemma_seq_differs_at("ZA"@, "AE"@, 0);
    lemma_seq_differs_at("ZAF"@, "ARE"@, 0);
    lemma_seq_differs_at("ZA"@, "SA"@, 0);
    lemma_seq_differs_at("ZAF"@, "SAU"@, 0);
    lemma_seq_differs_at("ZA"@, "TR"@, 0);
    lemma_seq_differs_at("ZAF"@, "TUR"@, 0);
    lemma_seq_differs_at("ZA"@, "IR"@, 0);
    lemma_seq_differs_at("ZAF"@, "IRN"@, 0);
    lemma_seq_differs_at("ZA"@, "BT"@, 0);
    lemma_seq_differs_at("ZAF"@, "BTN"@, 0);
    lemma_seq_differs_at("ZA"@, "IN"@, 0);
    lemma_seq_differs_at("ZAF"@, "IND"@, 0);
    lemma_seq_differs_at("ZA"@, "PW"@, 0);
    lemma_seq_differs_at("ZAF"@, "PLW"@, 0);
    lemma_seq_differs_at("ZA"@, "MO"@, 0);
    lemma_seq_differs_at("ZAF"@, "MAC"@, 0);
    lemma_seq_differs_at("ZA"@, "NZ"@, 0);
    lemma_seq_differs_at("ZAF"@, "NZL"@, 0);
    lemma_seq_differs_at("ZA"@, "AU"@, 0);
    lemma_seq_differs_at("ZAF"@, "AUS"@, 0);
    lemma_seq_differs_at("ZA"@, "IT"@, 0);
    lemma_seq_differs_at("ZAF"@, "ITA"@, 0);
    lemma_seq_differs_at("ZA"@, "RU"@, 0);
    lemma_seq_differs_at("ZAF"@, "RUS"@, 0);
    lemma_seq_differs_at("ZA"@, "BR"@, 0);
    lemma_seq_differs_at("ZAF"@, "BRA"@, 0);
    lemma_seq_differs_at("EG"@, "AE"@, 0);
    lemma_seq_differs_at("EGY"@, "ARE"@, 0);
    lemma_seq_differs_at("EG"@, "SA"@, 0);
    lemma_seq_differs_at("EGY"@, "SAU"@, 0);
    lemma_seq_differs_at("EG"@, "TR"@, 0);
    lemma_seq_differs_at("EGY"@, "TUR"@, 0);
    lemma_seq_differs_at("EG"@, "IR"@, 0);
    lemma_seq_differs_at("EGY"@, "IRN"@, 0);
    lemma_seq_differs_at("EG"@, "BT"@, 0);
    lemma_seq_differs_at("EGY"@, "BTN"@, 0);
    lemma_seq_differs_at("EG"@, "IN"@, 0);
    lemma_seq_differs_at("EGY"@, "IND"@, 0);
    lemma_seq_differs_at("EG"@, "PW"@, 0);
    lemma_seq_differs_at("EGY"@, "PLW"@, 0);
    lemma_seq_differs_at("EG"@, "MO"@, 0);
    lemma_seq_differs_at("EGY"@, "MAC"@, 0);
    lemma_seq_differs_at("EG"@, "NZ"@, 0);
    lemma_seq_differs_at("EGY"@, "NZL"@, 0);
    lemma_seq_differs_at("EG"@, "AU"@, 0);
    lemma_seq_differs_at("EGY"@, "AUS"@, 0);
    lemma_seq_differs_at("EG"@, "IT"@, 0);
    lemma_seq_differs_at("EGY"@, "ITA"@, 0);
    lemma_seq_differs_at("EG"@, "RU"@, 0);
    lemma_seq_differs_at("EGY"@, "RUS"@, 0);
    lemma_seq_differs_at("EG"@, "BR"@, 0);
    lemma_seq_differs_at("EGY"@, "BRA"@, 0);
    lemma_seq_differs_at("AE"@, "SA"@, 0);
    lemma_seq_differs_at("ARE"@, "SAU"@, 0);
    lemma_seq_differs_at("AE"@, "TR"@, 0);
    lemma_seq_differs_at("ARE"@, "TUR"@, 0);
    lemma_seq_differs_at("AE"@, "IR"@, 0);
    lemma_seq_differs_at("ARE"@, "IRN"@, 0);
    lemma_seq_differs_at("AE"@, "BT"@, 0);
    lemma_seq_differs_at("ARE"@, "BTN"@, 0);
    lemma_seq_differs_at("AE"@, "IN"@, 0);
    lemma_seq_differs_at("ARE"@, "IND"@, 0);
    lemma_seq_differs_at("AE"@, "PW"@, 0);
    lemma_seq_differs_at("ARE"@, "PLW"@, 0);
    lemma_seq_differs_at("AE"@, "MO"@, 0);
    lemma_seq_differs_at("ARE"@, "MAC"@, 0);
    lemma_seq_differs_at("AE"@, "NZ"@, 0);
    lemma_seq_differs_at("ARE"@, "NZL"@, 0);
    lemma_seq_differs_at("AE"@, "AU"@, 1);
    lemma_seq_differs_at("ARE"@, "AUS"@, 1);
    lemma_seq_differs_at("AE"@, "IT"@, 0);
    lemma_seq_differs_at("ARE"@, "ITA"@, 0);
    lemma_seq_differs_at("AE"@, "RU"@, 0);
    lemma_seq_differs_at("ARE"@, "RUS"@, 0);
    lemma_seq_differs_at("AE"@, "BR"@, 0);
    lemma_seq_differs_at("ARE"@, "BRA"@, 0);
    lemma_seq_differs_at("SA"@, "TR"@, 0);
    lemma_seq_differs_at("SAU"@, "TUR"@, 0);
    lemma_seq_differs_at("SA"@, "IR"@, 0);
    lemma_seq_differs_at("SAU"@, "IRN"@, 0);
    lemma_seq_differs_at("SA"@, "BT"@, 0);
    lemma_seq_differs_at("SAU"@, "BTN"@, 0);
    lemma_seq_differs_at("SA"@, "IN"@, 0);
    lemma_seq_differs_at("SAU"@, "IND"@, 0);
    lemma_seq_differs_at("SA"@, "PW"@, 0);
    lemma_seq_differs_at("SAU"@, "PLW"@, 0);
    lemma_seq_differs_at("SA"@, "MO"@, 0);
    lemma_seq_differs_at("SAU"@, "MAC"@, 0);
    lemma_seq_differs_at("SA"@, "NZ"@, 0);
    lemma_seq_differs_at("SAU"@, "NZL"@, 0);
    lemma_seq_differs_at("SA"@, "AU"@, 0);
    lemma_seq_differs_at("SAU"@, "AUS"@, 0);
    lemma_seq_differs_at("SA"@, "IT"@, 0);
    lemma_seq_differs_at("SAU"@, "ITA"@, 0);
    lemma_seq_differs_at("SA"@, "RU"@, 0);
    lemma_seq_differs_at("SAU"@, "RUS"@, 0);
    lemma_seq_differs_at("SA"@, "BR"@, 0);
    lemma_seq_differs_at("SAU"@, "BRA"@, 0);
    lemma_seq_differs_at("TR"@, "IR"@, 0);
    lemma_seq_differs_at("TUR"@, "IRN"@, 0);
    lemma_seq_differs_at("TR"@, "BT"@, 0);
    lemma_seq_differs_at("TUR"@, "BTN"@, 0);
    lemma_seq_differs_at("TR"@, "IN"@, 0);
    lemma_seq_differs_at("TUR"@, "IND"@, 0);
    lemma_seq_differs_at("TR"@, "PW"@, 0);
    lemma_seq_differs_at("TUR"@, "PLW"@, 0);
    lemma_seq_differs_at("TR"@, "MO"@, 0);
    lemma_seq_differs_at("TUR"@, "MAC"@, 0);
    lemma_seq_differs_at("TR"@, "NZ"@, 0);
    lemma_seq_differs_at("TUR"@, "NZL"@, 0);
    lemma_seq_differs_at("TR"@, "AU"@, 0);
    lemma_seq_differs_at("TUR"@, "AUS"@, 0);
    lemma_seq_differs_at("TR"@, "IT"@, 0);
    lemma_seq_differs_at("TUR"@, "ITA"@, 0);
    lemma_seq_differs_at("TR"@, "RU"@, 0);
    lemma_seq_differs_at("TUR"@, "RUS"@, 0);
    lemma_seq_differs_at("TR"@, "BR"@, 0);
    lemma_seq_differs_at("TUR"@, "BRA"@, 0);
    lemma_seq_differs_at("IR"@, "BT"@, 0);
    lemma_seq_differs_at("IRN"@, "BTN"@, 0);
    lemma_seq_differs_at("IR"@, "IN"@, 1);
    lemma_seq_differs_at("IRN"@, "IND"@, 1);
    lemma_seq_differs_at("IR"@, "PW"@, 0);
    lemma_seq_differs_at("IRN"@, "PLW"@, 0);
    lemma_seq_differs_at("IR"@, "MO"@, 0);
    lemma_seq_differs_at("IRN"@, "MAC"@, 0);
    lemma_seq_differs_at("IR"@, "NZ"@, 0);
    lemma_seq_differs_at("IRN"@, "NZL"@, 0);
    lemma_seq_differs_at("IR"@, "AU"@, 0);
    lemma_seq_differs_at("IRN"@, "AUS"@, 0);
    lemma_seq_differs_at("IR"@, "IT"@, 1);
    lemma_seq_differs_at("IRN"@, "ITA"@, 1);
    lemma_seq_differs_at("IR"@, "RU"@, 0);
    lemma_seq_differs_at("IRN"@, "RUS"@, 0);
    lemma_seq_differs_at("IR"@, "BR"@, 0);
    lemma_seq_differs_at("IRN"@, "BRA"@, 0);
    lemma_seq_differs_at("BT"@, "IN"@, 0);
    lemma_seq_differs_at("BTN"@, "IND"@, 0);
    lemma_seq_differs_at("BT"@, "PW"@, 0);
    lemma_seq_differs_at("BTN"@, "PLW"@, 0);
    lemma_seq_differs_at("BT"@, "MO"@, 0);
    lemma_seq_differs_at("BTN"@, "MAC"@, 0);
    lemma_seq_differs_at("BT"@, "NZ"@, 0);
    lemma_seq_differs_at("BTN"@, "NZL"@, 0);
    lemma_seq_differs_at("BT"@, "AU"@, 0);
    lemma_seq_differs_at("BTN"@, "AUS"@, 0);
    lemma_seq_differs_at("BT"@, "IT"@, 0);
    lemma_seq_differs_at("BTN"@, "ITA"@, 0);
    lemma_seq_differs_at("BT"@, "RU"@, 0);
    lemma_seq_differs_at("BTN"@, "RUS"@, 0);
    lemma_seq_differs_at("BT"@, "BR"@, 1);
    lemma_seq_differs_at("BTN"@, "BRA"@, 1);
    lemma_seq_differs_at("IN"@, "PW"@, 0);
    lemma_seq_differs_at("IND"@, "PLW"@, 0);
    lemma_seq_differs_at("IN"@, "MO"@, 0);
    lemma_seq_differs_at("IND"@, "MAC"@, 0);
    lemma_seq_differs_at("IN"@, "NZ"@, 0);
    lemma_seq_differs_at("IND"@, "NZL"@, 0);
    lemma_seq_differs_at("IN"@, "AU"@, 0);
    lemma_seq_differs_at("IND"@, "AUS"@, 0);
    lemma_seq_differs_at("IN"@, "IT"@, 1);
    lemma_seq_differs_at("IND"@, "ITA"@, 1);
    lemma_seq_differs_at("IN"@, "RU"@, 0);
    lemma_seq_differs_at("IND"@, "RUS"@, 0);
    lemma_seq_differs_at("IN"@, "BR"@, 0);
    lemma_seq_differs_at("IND"@, "BRA"@, 0);
}

proof fn lemma_builtin_codes_distinct_d()
    ensures
        forall|k1: int, k2: int|
            #![trigger builtin_registry()[k1], builtin_registry()[k2]]
            24 <= k1 < 31 && k1 < k2 < builtin_registry().len()
                ==> builtin_registry()[k1].alpha2 != builtin_registry()[k2].alpha2
                    && builtin_registry()[k1].alpha3 != builtin_registry()[k2].alpha3,
{
    reveal_strlit("PW");
    reveal_strlit("PLW");
    reveal_strlit("MO");
    reveal_strlit("MAC");
    reveal_strlit("NZ");
    reveal_strlit("NZL");
    reveal_strlit("AU");
    reveal_strlit("AUS");
    reveal_strlit("IT");
    reveal_strlit("ITA");
    reveal_strlit("RU");
    reveal_strlit("RUS");
    reveal_strlit("BR");
    reveal_strlit("BRA");
    let rs = builtin_registry();
    lemma_seq_differs_at("PW"@, "MO"@, 0);
    lemma_seq_differs_at("PLW"@, "MAC"@, 0);
    lemma_seq_differs_at("PW"@, "NZ"@, 0);
    lemma_seq_differs_at("PLW"@, "NZL"@, 0);
    lemma_seq_differs_at("PW"@, "AU"@, 0);
    lemma_seq_differs_at("PLW"@, "AUS"@, 0);
    lemma_seq_differs_at("PW"@, "IT"@, 0);
    lemma_seq_differs_at("PLW"@, "ITA"@, 0);
    lemma_seq_differs_at("PW"@, "RU"@, 0);
    lemma_seq_differs_at("PLW"@, "RUS"@, 0);
    lemma_seq_differs_at("PW"@, "BR"@, 0);
    lemma_seq_differs_at("PLW"@, "BRA"@, 0);
    lemma_seq_differs_at("MO"@, "NZ"@, 0);
    lemma_seq_differs_at("MAC"@, "NZL"@, 0);
    lemma_seq_differs_at("MO"@, "AU"@, 0);
    lemma_seq_differs_at("MAC"@, "AUS"@, 0);
    lemma_seq_differs_at("MO"@, "IT"@, 0);
    lemma_seq_differs_at("MAC"@, "ITA"@, 0);
    lemma_seq_differs_at("MO"@, "RU"@, 0);
    lemma_seq_differs_at("MAC"@, "RUS"@, 0);
    lemma_seq_differs_at("MO"@, "BR"@, 0);
    lemma_seq_differs_at("MAC"@, "BRA"@, 0);
    lemma_seq_differs_at("NZ"@, "AU"@, 0);
    lemma_seq_differs_at("NZL"@, "AUS"@, 0);
    lemma_seq_differs_at("NZ"@, "IT"@, 0);
    lemma_seq_differs_at("NZL"@, "ITA"@, 0);
    lemma_seq_differs_at("NZ"@, "RU"@, 0);
    lemma_seq_differs_at("NZL"@, "RUS"@, 0);
    lemma_seq_differs_at("NZ"@, "BR"@, 0);
    lemma_seq_differs_at("NZL"@, "BRA"@, 0);
    lemma_seq_differs_at("AU"@, "IT"@, 0);
    lemma_seq_differs_at("AUS"@, "ITA"@, 0);
    lemma_seq_differs_at("AU"@, "RU"@, 0);
    lemma_seq_differs_at("AUS"@, "RUS"@, 0);
    lemma_seq_differs_at("AU"@, "BR"@, 0);
    lemma_seq_differs_at("AUS"@, "BRA"@, 0);
    lemma_seq_differs_at("IT"@, "RU"@, 0);
    lemma_seq_differs_at("ITA"@, "RUS"@, 0);
    lemma_seq_differs_at("IT"@, "BR"@, 0);
    lemma_seq_differs_at("ITA"@, "BRA"@, 0);
    lemma_seq_differs_at("RU"@, "BR"@, 0);
    lemma_seq_differs_at("RUS"@, "BRA"@, 0);
}

/// The built-in reference table satisfies the registry invariant:
/// every record is well-formed and no two records share a code.
pub proof fn lemma_builtin_registry_wf()
    ensures
        wf_registry(builtin_registry()),
{
    lemma_builtin_records_wf_a();
    lemma_builtin_records_wf_b();
    lemma_builtin_records_wf_c();
    lemma_builtin_codes_distinct_a();
    lemma_builtin_codes_distinct_b();
    lemma_builtin_codes_distinct_c();
    lemma_builtin_codes_distinct_d();
    assert(records_wf(builtin_registry()));
    assert(codes_unique(builtin_registry()));
}

} // verus!
