//! Case-insensitive regular expressions (the `regex` crate) for `--regex`.
use vstd::prelude::*;

verus! {

#[verifier::external_type_specification]
#[verifier::external_body]
pub struct ExRegex(regex::Regex);

#[verifier::external_type_specification]
#[verifier::external_body]
pub struct ExRegexError(regex::Error);

/// Whether `regex::RegexBuilder` with case-insensitive matching accepts
/// `pattern` (as named by `build_case_insensitive`).
pub uninterp spec fn regex_compiles(pattern: Seq<char>) -> bool;

/// Whether the case-insensitive regex `pattern` matches somewhere in `text`
/// (as named by `matches_text`).
pub uninterp spec fn regex_matches(pattern: Seq<char>, text: Seq<char>) -> bool;

/// A compiled case-insensitive regex together with its source pattern.
/// Only `QueryRegex::new` builds one, from the pattern it records.
pub struct QueryRegex {
    re: regex::Regex,
    pattern: String,
}

/// Calls `regex::RegexBuilder::new(pattern).case_insensitive(true).build()`.
/// Whether it succeeds is named by `regex_compiles`, a function of the
/// pattern alone; the compiled value itself is opaque.
#[verifier::external_body]
fn build_case_insensitive(pattern: &str) -> (r: Result<regex::Regex, regex::Error>)
    ensures
        r is Ok <==> regex_compiles(pattern@),
{
    regex::RegexBuilder::new(pattern).case_insensitive(true).build()
}

/// Calls `regex::Regex::is_match` on the regex compiled from `r`'s pattern.
/// The answer is named by `regex_matches` over that pattern and `text`; this
/// relies on `QueryRegex::new` being the only constructor, which compiles the
/// very pattern it stores.
#[verifier::external_body]
fn matches_text(r: &QueryRegex, text: &str) -> (b: bool)
    ensures
        b == regex_matches(r.pattern@, text@),
{
    r.re.is_match(text)
}

impl QueryRegex {
    pub closed spec fn source(&self) -> Seq<char> {
        self.pattern@
    }

    /// Compiles `pattern` case-insensitively.
    pub fn new(pattern: &str) -> (r: Result<QueryRegex, regex::Error>)
        ensures
            r is Ok <==> regex_compiles(pattern@),
            r matches Ok(q) ==> q.source() == pattern@,
    {
        match build_case_insensitive(pattern) {
            Ok(re) => Ok(QueryRegex { re, pattern: pattern.to_owned() }),
            Err(e) => Err(e),
        }
    }

    /// Whether the pattern matches somewhere in `text`.
    pub fn is_match(&self, text: &str) -> (b: bool)
        ensures
            b == regex_matches(self.source(), text@),
    {
        matches_text(self, text)
    }
}

} // verus!
