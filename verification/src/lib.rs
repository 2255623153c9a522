//! Country/region resolver for short, noisy text labels.
//!
//! A label such as `"@HK Vip1"` or `"【游戏加速】US-纽约-01节点"` is matched
//! against an immutable registry of country records by an ordered cascade of
//! strategies (aliases, traditional and simplified Chinese names, English
//! names, alpha-3 and alpha-2 codes, and an optional fuzzy fallback), with
//! boundary validation around code windows so that a code embedded in a
//! longer word does not count.

pub mod config;
pub mod error;
pub mod laws;
pub mod model;
pub mod parser;
pub mod text;

pub use config::{Configuration, CountriesConfig, CountryInfo, ParserSettings, PatternConfig};
pub use error::ParseError;

use vstd::prelude::*;

verus! {

/// Caller-facing parser settings, carried by a [`Parser`].
#[derive(Debug, Clone, Copy)]
pub struct ParserConfig {
    /// Disables case folding in the alias and name stages.
    pub case_sensitive: bool,
    /// Enables the fuzzy fallback stage.
    pub fuzzy_match: bool,
    /// Latency budget in milliseconds, checked after the cascade has run.
    pub timeout_ms: u64,
}

impl Default for ParserConfig {
    /// The default settings: case-insensitive matching, fuzzy fallback
    /// enabled, a 100 ms latency budget.
    fn default() -> (r: Self)
        ensures
            r == (ParserConfig { case_sensitive: false, fuzzy_match: true, timeout_ms: 100 }),
    {
        ParserConfig { case_sensitive: false, fuzzy_match: true, timeout_ms: 100 }
    }
}

/// Resolves `text` against the built-in registry with the default settings.
pub fn parse_country_code(text: &str) -> (r: Result<CountryInfo, ParseError>)
    ensures
        parser::parse_post(r, text@, false, true, 100),
{
    parser::parse_country_code(text)
}

/// A parser instance holding its settings.
pub struct Parser {
    config: ParserConfig,
}

impl Parser {
    /// The settings this parser runs with.
    pub closed spec fn cfg(&self) -> ParserConfig {
        self.config
    }

    /// Builds a parser with the default settings.
    pub fn new() -> (r: Self)
        ensures
            r.cfg() == (ParserConfig { case_sensitive: false, fuzzy_match: true, timeout_ms: 100 }),
    {
        Parser { config: ParserConfig { case_sensitive: false, fuzzy_match: true, timeout_ms: 100 } }
    }

    /// Builds a parser with the given settings.
    pub fn with_config(config: ParserConfig) -> (r: Self)
        ensures
            r.cfg() == config,
    {
        Parser { config }
    }

    /// Resolves `text` with this parser's settings.
    pub fn parse(&self, text: &str) -> (r: Result<CountryInfo, ParseError>)
        ensures
            parser::parse_post(
                r,
                text@,
                self.cfg().case_sensitive,
                self.cfg().fuzzy_match,
                self.cfg().timeout_ms,
            ),
    {
        parser::parse_country_code_with_config(text, &self.config)
    }
}

impl Default for Parser {
    /// A parser with the default settings.
    fn default() -> (r: Self)
        ensures
            r.cfg() == (ParserConfig { case_sensitive: false, fuzzy_match: true, timeout_ms: 100 }),
    {
        Parser::new()
    }
}

} // verus!
