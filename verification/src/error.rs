//! Error type returned by registry construction and by the parsing entry
//! points.

use vstd::prelude::*;

verus! {

/// Everything that can go wrong while resolving a country from a text label.
///
/// `NotFound` and `Ambiguous` come out of the matching cascade, `InvalidInput`
/// out of the input pre-checks, `Timeout` out of the latency ceiling, and
/// `ConfigError` out of registry construction.
#[derive(Debug)]
pub enum ParseError {
    /// No cascade stage produced a candidate for `text`.
    NotFound { text: String },
    /// The fuzzy fallback found several candidates tied at the best priority;
    /// `candidates` lists their alpha-2 codes in registry order.
    Ambiguous { text: String, candidates: Vec<String> },
    /// The input was blank after trimming, or longer than the accepted bound.
    InvalidInput { text: String },
    /// The cascade finished after the latency budget of `timeout_ms`
    /// milliseconds had already elapsed.
    Timeout { timeout_ms: u64 },
    /// The reference table handed to registry construction was structurally
    /// invalid (duplicate code or malformed field).
    ConfigError { message: String },
}

impl ParseError {
    /// Builds a `NotFound` error for the given input text.
    pub fn not_found(text: &str) -> (r: Self)
        ensures
            r matches ParseError::NotFound { text: t } && t@ == text@,
    {
        ParseError::NotFound { text: String::from_str(text) }
    }

    /// Builds an `Ambiguous` error for the given input text and tied
    /// candidate codes.
    pub fn ambiguous(text: &str, candidates: Vec<String>) -> (r: Self)
        ensures
            r matches ParseError::Ambiguous { text: t, candidates: c }
                && t@ == text@ && c == candidates,
    {
        ParseError::Ambiguous { text: String::from_str(text), candidates }
    }

    /// Builds an `InvalidInput` error for the given input text.
    pub fn invalid_input(text: &str) -> (r: Self)
        ensures
            r matches ParseError::InvalidInput { text: t } && t@ == text@,
    {
        ParseError::InvalidInput { text: String::from_str(text) }
    }

    /// Builds a `Timeout` error carrying the exceeded budget.
    pub fn timeout(timeout_ms: u64) -> (r: Self)
        ensures
            r matches ParseError::Timeout { timeout_ms: t } && t == timeout_ms,
    {
        ParseError::Timeout { timeout_ms }
    }

    /// Builds a `ConfigError` with the given description.
    pub fn config_error(message: &str) -> (r: Self)
        ensures
            r matches ParseError::ConfigError { message: m } && m@ == message@,
    {
        ParseError::ConfigError { message: String::from_str(message) }
    }
}

} // verus!
