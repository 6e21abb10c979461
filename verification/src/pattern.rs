//! Selector patterns, compiled and matched by the regex crate, and the
//! lowercase folding applied to session paths before matching.

use vstd::prelude::*;

verus! {

#[verifier::external_type_specification]
#[verifier::external_body]
pub struct ExRegex(regex::Regex);

#[verifier::external_type_specification]
#[verifier::external_body]
pub struct ExRegexError(regex::Error);

/// Whether the regular expression `pattern` matches anywhere in `text`, as
/// the regex crate decides it. Compiling a pattern is deterministic, so the
/// result is a function of the two strings alone.
pub uninterp spec fn spec_regex_match(pattern: Seq<char>, text: Seq<char>) -> bool;

/// The lowercase folding of `s`, as `str::to_lowercase` computes it: a
/// function of the characters alone.
pub uninterp spec fn spec_lowercase(s: Seq<char>) -> Seq<char>;

/// A selector pattern together with the matcher compiled from it. A value is
/// only ever built by compiling its own `pattern` text, so what its matcher
/// decides is a function of that text and the haystack.
pub struct CompiledPattern {
    pattern: String,
    compiled: regex::Regex,
}

impl CompiledPattern {
    /// The pattern text this matcher was compiled from.
    pub closed spec fn pattern_view(&self) -> Seq<char> {
        self.pattern@
    }

    /// Relies on `regex::Regex::new`: it compiles a matcher from the pattern
    /// text alone, and rejects only malformed or oversized patterns.
    #[verifier::external_body]
    fn compile(pattern: &str) -> (r: Result<CompiledPattern, regex::Error>)
        ensures
            r matches Ok(cp) ==> cp.pattern_view() == pattern@,
    {
        match regex::Regex::new(pattern) {
            Ok(compiled) => Ok(CompiledPattern { pattern: pattern.to_owned(), compiled }),
            Err(e) => Err(e),
        }
    }

    /// Compiles a selector pattern, mapping a rejected pattern to the
    /// library's own configuration error.
    pub fn new(pattern: &str) -> (r: Result<CompiledPattern, crate::config::ConfigError>)
        ensures
            r matches Ok(cp) ==> cp.pattern_view() == pattern@,
            r matches Err(e) ==> e is InvalidPattern,
    {
        match Self::compile(pattern) {
            Ok(cp) => Ok(cp),
            Err(_) => Err(crate::config::ConfigError::InvalidPattern),
        }
    }

    /// The pattern text, for reporting.
    pub fn pattern_str(&self) -> (r: &str)
        ensures
            r@ == self.pattern_view(),
    {
        self.pattern.as_str()
    }

    /// Relies on `regex::Regex::is_match`: true if and only if the pattern
    /// matches anywhere in `text`, unanchored.
    #[verifier::external_body]
    pub(crate) fn is_match(&self, text: &str) -> (r: bool)
        ensures
            r == spec_regex_match(self.pattern_view(), text@),
    {
        self.compiled.is_match(text)
    }
}

/// Relies on `str::to_lowercase`: the result depends on the characters alone.
#[verifier::external_body]
pub(crate) fn lowercase(s: &str) -> (r: String)
    ensures
        r@ == spec_lowercase(s@),
{
    s.to_lowercase()
}

} // verus!
