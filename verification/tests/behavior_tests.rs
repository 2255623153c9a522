use location_rs::parser::{
    budget_exceeded, is_boundary_char, parse_abbreviations, parse_country_code_with_config,
    parse_english_names, parse_simplified_chinese_names, parse_traditional_chinese_names,
};
use location_rs::{
    parse_country_code, Configuration, CountriesConfig, CountryInfo, ParseError, Parser,
    ParserConfig, ParserSettings, PatternConfig,
};

fn sample_record(alpha2: &str, alpha3: &str, en: &str, cn: &str, tw: &str) -> CountryInfo {
    CountryInfo {
        alpha2: alpha2.to_string(),
        alpha3: alpha3.to_string(),
        name_en: en.to_string(),
        name_zh_cn: cn.to_string(),
        name_zh_tw: tw.to_string(),
        abbreviations: Vec::new(),
    }
}

#[test]
fn test_load_builds_validated_registry() {
    let cfg = Configuration::load().unwrap();
    assert_eq!(cfg.get_version(), "1.0");
    assert_eq!(cfg.get_countries().len(), 31);
    assert!(!cfg.get_settings().case_sensitive);
    assert!(cfg.get_settings().fuzzy_match);
    assert_eq!(cfg.get_settings().timeout_ms, 100);
    assert!(cfg.get_patterns().prefix_patterns.is_empty());
    assert!(cfg.get_patterns().suffix_patterns.is_empty());
    assert_eq!(cfg.get_countries()[0].alpha2, "US");
    assert_eq!(cfg.get_countries()[0].name_en, "United States");
}

#[test]
fn test_from_parts_rejects_duplicate_codes() {
    let countries = vec![
        sample_record("US", "USA", "United States", "美国", "美國"),
        sample_record("US", "USB", "Utopia", "乌托邦", "烏托邦"),
    ];
    let parts = CountriesConfig { version: "t".to_string(), countries };
    let patterns = PatternConfig { prefix_patterns: Vec::new(), suffix_patterns: Vec::new() };
    let settings = ParserSettings { case_sensitive: false, fuzzy_match: true, timeout_ms: 100 };
    let r = Configuration::from_parts(parts, patterns, settings);
    assert!(matches!(r, Err(ParseError::ConfigError { .. })));
}

#[test]
fn test_from_parts_rejects_blank_field() {
    let mut rec = sample_record("US", "USA", "United States", "美国", "美國");
    rec.name_en = "   ".to_string();
    let parts = CountriesConfig { version: "t".to_string(), countries: vec![rec] };
    let patterns = PatternConfig { prefix_patterns: Vec::new(), suffix_patterns: Vec::new() };
    let settings = ParserSettings { case_sensitive: false, fuzzy_match: true, timeout_ms: 100 };
    let r = Configuration::from_parts(parts, patterns, settings);
    assert!(matches!(r, Err(ParseError::ConfigError { .. })));
}

#[test]
fn test_from_parts_rejects_malformed_code() {
    let rec = sample_record("usa", "USA", "United States", "美国", "美國");
    let parts = CountriesConfig { version: "t".to_string(), countries: vec![rec] };
    let patterns = PatternConfig { prefix_patterns: Vec::new(), suffix_patterns: Vec::new() };
    let settings = ParserSettings { case_sensitive: false, fuzzy_match: true, timeout_ms: 100 };
    let r = Configuration::from_parts(parts, patterns, settings);
    assert!(matches!(r, Err(ParseError::ConfigError { .. })));
}

#[test]
fn test_from_parts_accepts_valid_table() {
    let countries = vec![
        sample_record("US", "USA", "United States", "美国", "美國"),
        sample_record("CN", "CHN", "China", "中国", "中國"),
    ];
    let parts = CountriesConfig { version: "t".to_string(), countries };
    let patterns = PatternConfig { prefix_patterns: Vec::new(), suffix_patterns: Vec::new() };
    let settings = ParserSettings { case_sensitive: true, fuzzy_match: false, timeout_ms: 7 };
    let cfg = Configuration::from_parts(parts, patterns, settings).unwrap();
    assert_eq!(cfg.get_countries().len(), 2);
    assert!(cfg.get_settings().case_sensitive);
    assert!(!cfg.get_settings().fuzzy_match);
    assert_eq!(cfg.get_settings().timeout_ms, 7);
}

#[test]
fn test_create_country_mapping_contents() {
    let cfg = Configuration::load().unwrap();
    let mapping = cfg.create_country_mapping();
    // 31 records with five named variants each, plus the three aliases
    assert_eq!(mapping.len(), 31 * 5 + 3);
    assert!(mapping.iter().any(|p| p.0 == "US" && p.1.alpha3 == "USA"));
    assert!(mapping.iter().any(|p| p.0 == "HKG" && p.1.alpha2 == "HK"));
    assert!(mapping.iter().any(|p| p.0 == "美国" && p.1.alpha2 == "US"));
    assert!(mapping.iter().any(|p| p.0 == "UK" && p.1.alpha2 == "GB"));
    assert!(mapping.iter().any(|p| p.0 == "沙特" && p.1.alpha2 == "SA"));
    assert!(mapping.iter().any(|p| p.0 == "印尼" && p.1.alpha2 == "ID"));
    assert!(!mapping.iter().any(|p| p.0 == "XX"));
}

#[test]
fn test_lookup_exact_probes_index() {
    let cfg = Configuration::load().unwrap();
    assert_eq!(cfg.lookup_exact("USA").unwrap().alpha2, "US");
    assert_eq!(cfg.lookup_exact("美国").unwrap().alpha3, "USA");
    assert_eq!(cfg.lookup_exact("UK").unwrap().alpha3, "GBR");
    assert_eq!(cfg.lookup_exact("United Kingdom").unwrap().alpha2, "GB");
    assert!(cfg.lookup_exact("usa").is_none());
    assert!(cfg.lookup_exact("XX").is_none());
    assert!(cfg.lookup_exact("").is_none());
}

#[test]
fn test_error_constructors() {
    assert!(matches!(ParseError::not_found("x"), ParseError::NotFound { text } if text == "x"));
    assert!(matches!(
        ParseError::invalid_input("y"),
        ParseError::InvalidInput { text } if text == "y"
    ));
    assert!(matches!(
        ParseError::timeout(5),
        ParseError::Timeout { timeout_ms: 5 }
    ));
    assert!(matches!(
        ParseError::config_error("bad"),
        ParseError::ConfigError { message } if message == "bad"
    ));
    let amb = ParseError::ambiguous("t", vec!["US".to_string(), "CN".to_string()]);
    match amb {
        ParseError::Ambiguous { text, candidates } => {
            assert_eq!(text, "t");
            assert_eq!(candidates, vec!["US".to_string(), "CN".to_string()]);
        }
        _ => panic!("expected an ambiguous error"),
    }
}

#[test]
fn test_invalid_input_cases() {
    assert!(matches!(parse_country_code(""), Err(ParseError::InvalidInput { .. })));
    assert!(matches!(parse_country_code("   "), Err(ParseError::InvalidInput { .. })));
    assert!(matches!(parse_country_code("\t\n"), Err(ParseError::InvalidInput { .. })));
    let long_text = "a".repeat(1025);
    assert!(matches!(parse_country_code(&long_text), Err(ParseError::InvalidInput { .. })));
    let edge_text = "b".repeat(1024);
    let roomy = ParserConfig { case_sensitive: false, fuzzy_match: true, timeout_ms: 60000 };
    assert!(matches!(
        parse_country_code_with_config(&edge_text, &roomy),
        Err(ParseError::NotFound { .. })
    ));
}

#[test]
fn test_not_found_cases() {
    assert!(matches!(parse_country_code("XYZ"), Err(ParseError::NotFound { text }) if text == "XYZ"));
    assert!(matches!(parse_country_code("普通标题"), Err(ParseError::NotFound { .. })));
    assert!(matches!(parse_country_code("12345"), Err(ParseError::NotFound { .. })));
}

#[test]
fn test_ambiguous_fuzzy_tie() {
    // no boundary-legal window, two codes contained: a tie at alpha-2 priority
    let r = parse_country_code("USCN");
    match r {
        Err(ParseError::Ambiguous { text, candidates }) => {
            assert_eq!(text, "USCN");
            assert_eq!(candidates, vec!["US".to_string(), "CN".to_string()]);
        }
        other => panic!("expected an ambiguous error, got {:?}", other),
    }
}

#[test]
fn test_fuzzy_unique_survivor_wins() {
    // "useful" embeds US without boundaries: the code stages reject it, the
    // fuzzy fallback finds US as the only candidate
    assert_eq!(parse_country_code("useful").unwrap().alpha2, "US");
}

#[test]
fn test_boundary_rule_without_fuzzy() {
    // with the fuzzy fallback disabled, a code embedded in a word never matches
    let cfg = ParserConfig { case_sensitive: false, fuzzy_match: false, timeout_ms: 1000 };
    assert!(matches!(
        parse_country_code_with_config("useful", &cfg),
        Err(ParseError::NotFound { .. })
    ));
    assert!(matches!(
        parse_country_code_with_config("USCN", &cfg),
        Err(ParseError::NotFound { .. })
    ));
    // a boundary-legal code still resolves
    assert_eq!(parse_country_code_with_config("US Node", &cfg).unwrap().alpha2, "US");
}

#[test]
fn test_digit_adjacency_matches_bare_code() {
    assert_eq!(
        parse_country_code("US1").unwrap().alpha3,
        parse_country_code("US").unwrap().alpha3
    );
    assert_eq!(
        parse_country_code("CN2").unwrap().alpha3,
        parse_country_code("CN").unwrap().alpha3
    );
    assert_eq!(
        parse_country_code("USA1").unwrap().alpha3,
        parse_country_code("USA").unwrap().alpha3
    );
}

#[test]
fn test_case_insensitive_pairs() {
    assert_eq!(
        parse_country_code("us").unwrap().alpha3,
        parse_country_code("US").unwrap().alpha3
    );
    assert_eq!(
        parse_country_code("hkg vip").unwrap().alpha3,
        parse_country_code("HKG VIP").unwrap().alpha3
    );
}

#[test]
fn test_boundary_legal_embeddings_resolve() {
    // boundary-legal embeddings of codes inside larger strings
    assert_eq!(parse_country_code("@@PW##").unwrap().alpha3, "PLW");
    assert_eq!(parse_country_code("xx BTN yy").unwrap().alpha3, "BTN");
    assert_eq!(parse_country_code("列表【NZ】结尾").unwrap().alpha3, "NZL");
}

#[test]
fn test_multi_mention_first_window_wins() {
    // two valid mentions: the left-to-right scan decides, consistently
    assert_eq!(parse_country_code("US转CN节点").unwrap().alpha2, "US");
    assert_eq!(parse_country_code("US转CN节点").unwrap().alpha2, "US");
    assert_eq!(parse_country_code("CN到JP服务器").unwrap().alpha2, "CN");
    assert_eq!(parse_country_code("从HK到US的VIP").unwrap().alpha2, "HK");
}

#[test]
fn test_longest_chinese_name_wins() {
    // both 印度 and 印度尼西亞 are contained; the longer name decides
    assert_eq!(parse_country_code("印度尼西亞節點").unwrap().alpha3, "IDN");
    // the shorter name alone still resolves to India
    assert_eq!(parse_country_code("印度專線").unwrap().alpha3, "IND");
}

#[test]
fn test_alias_beats_later_stages() {
    // the alias stage runs first: UK resolves via the alias even though GB
    // would also be found by the code stage
    assert_eq!(parse_country_code("uk").unwrap().alpha3, "GBR");
    assert_eq!(parse_country_code("沙特线路").unwrap().alpha3, "SAU");
}

#[test]
fn test_case_sensitive_setting() {
    let cfg = ParserConfig { case_sensitive: true, fuzzy_match: true, timeout_ms: 1000 };
    // names must match exactly when case-sensitive
    assert_eq!(parse_country_code_with_config("United States", &cfg).unwrap().alpha2, "US");
    // codes stay case-insensitive by convention
    assert_eq!(parse_country_code_with_config("us node", &cfg).unwrap().alpha2, "US");
}

#[test]
fn test_parser_instance() {
    let parser = Parser::new();
    assert_eq!(parser.parse("@HK Vip1").unwrap().alpha3, "HKG");
    let strict = Parser::with_config(ParserConfig {
        case_sensitive: false,
        fuzzy_match: false,
        timeout_ms: 1000,
    });
    assert!(strict.parse("useful").is_err());
    let by_default = Parser::default();
    assert_eq!(by_default.parse("美国").unwrap().alpha2, "US");
    let default_config = ParserConfig::default();
    assert!(!default_config.case_sensitive);
    assert!(default_config.fuzzy_match);
    assert_eq!(default_config.timeout_ms, 100);
}

#[test]
fn test_stage_functions_in_isolation() {
    let cfg = Configuration::load().unwrap();
    assert_eq!(parse_abbreviations("uk-1", &cfg).unwrap().alpha3, "GBR");
    assert!(matches!(
        parse_abbreviations("美国", &cfg),
        Err(ParseError::NotFound { .. })
    ));
    assert_eq!(parse_traditional_chinese_names("中國專線", &cfg).unwrap().alpha2, "CN");
    assert!(matches!(
        parse_traditional_chinese_names("中国", &cfg),
        Err(ParseError::NotFound { .. })
    ));
    assert_eq!(parse_simplified_chinese_names("中国专线", &cfg).unwrap().alpha2, "CN");
    assert!(matches!(
        parse_simplified_chinese_names("US Node", &cfg),
        Err(ParseError::NotFound { .. })
    ));
    assert_eq!(parse_english_names("big germany box", &cfg).unwrap().alpha2, "DE");
    assert!(matches!(
        parse_english_names("美国", &cfg),
        Err(ParseError::NotFound { .. })
    ));
}

#[test]
fn test_boundary_char_classification() {
    assert!(is_boundary_char('@'));
    assert!(is_boundary_char('['));
    assert!(is_boundary_char(']'));
    assert!(is_boundary_char('#'));
    assert!(is_boundary_char('【'));
    assert!(is_boundary_char('】'));
    assert!(is_boundary_char(' '));
    assert!(is_boundary_char('\t'));
    assert!(is_boundary_char('\n'));
    assert!(is_boundary_char('-'));
    assert!(is_boundary_char('，'));
    assert!(is_boundary_char('中'));
    assert!(!is_boundary_char('a'));
    assert!(!is_boundary_char('Z'));
    assert!(!is_boundary_char('5'));
}

#[test]
fn test_budget_exceeded_decision() {
    assert!(budget_exceeded(10, 120, 100));
    assert!(budget_exceeded(0, 1, 0));
    // exactly at the budget is not over it
    assert!(!budget_exceeded(10, 110, 100));
    // a clock that stood still or moved backwards never charges the budget
    assert!(!budget_exceeded(10, 10, 0));
    assert!(!budget_exceeded(120, 10, 100));
}
