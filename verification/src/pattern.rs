//! Regular-expression checks, made by the `regex` crate.

use vstd::prelude::*;

verus! {

/// `regex::Regex`, declared so that a compiled expression can be held.
#[verifier::external_type_specification]
#[verifier::external_body]
pub struct ExRegex(regex::Regex);

/// Whether `regex::Regex::new` accepts the pattern (it refuses invalid syntax
/// and patterns that would exceed its default size limit).
pub uninterp spec fn regex_compiles(pattern: Seq<char>) -> bool;

/// Whether the compiled pattern matches somewhere in the haystack
/// (`regex::Regex::is_match`).
pub uninterp spec fn regex_finds(pattern: Seq<char>, haystack: Seq<char>) -> bool;

/// A compiled regular expression together with the pattern it was compiled from.
pub(crate) struct Pattern {
    compiled: regex::Regex,
    source: Ghost<Seq<char>>,
}

impl Pattern {
    /// The pattern this expression was compiled from.
    pub closed spec fn source(&self) -> Seq<char> {
        self.source@
    }
}

/// Compiles `pattern` with `regex::Regex::new`. Trusted: the result is present
/// exactly when the crate accepts the pattern, and it remembers the pattern.
#[verifier::external_body]
pub(crate) fn compile_pattern(pattern: &str) -> (compiled: Option<Pattern>)
    ensures
        compiled is Some <==> regex_compiles(pattern@),
        compiled matches Some(p) ==> p.source() == pattern@,
{
    match regex::Regex::new(pattern) {
        Ok(re) => Some(Pattern { compiled: re, source: Ghost(pattern@) }),
        Err(_) => None,
    }
}

/// Searches `haystack` with `regex::Regex::is_match`. Trusted: the answer is
/// the named match relation of the pattern the expression was compiled from.
#[verifier::external_body]
pub(crate) fn pattern_finds(pattern: &Pattern, haystack: &str) -> (found: bool)
    ensures
        found == regex_finds(pattern.source(), haystack@),
{
    pattern.compiled.is_match(haystack)
}

} // verus!
