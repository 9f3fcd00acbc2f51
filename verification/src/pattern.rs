//! Compiled host+path match patterns, backed by the regex crate.
//!
//! A pattern is compiled once at startup; a request is routed to the first
//! service whose pattern matches anywhere in its host+path string (an
//! unanchored search, as is usual for path-based reverse-proxy routing).
use vstd::prelude::*;

verus! {

#[verifier::external_type_specification]
#[verifier::external_body]
pub struct ExRegex(regex::Regex);

/// Whether the regex crate accepts `pattern` as a valid expression.
/// Compilation success depends on the pattern text alone.
pub uninterp spec fn regex_accepts(pattern: Seq<char>) -> bool;

/// Whether the expression `pattern` matches anywhere inside `text`.
/// The outcome depends on the pattern and the text alone.
pub uninterp spec fn regex_match(pattern: Seq<char>, text: Seq<char>) -> bool;

/// A match pattern: the source expression together with its compiled form.
/// The only constructor is `compile`, so the compiled form always belongs to
/// the stored source, and a pattern's view is that source.
pub struct Pattern {
    source: String,
    compiled: regex::Regex,
}

impl View for Pattern {
    type V = Seq<char>;

    closed spec fn view(&self) -> Seq<char> {
        self.source@
    }
}

impl Pattern {
    /// Relies on `regex::Regex::new`: compiles the expression, succeeding
    /// exactly when it is valid; the compiled value matches as the source
    /// expression prescribes.
    #[verifier::external_body]
    pub fn compile(source: &str) -> (r: Result<Pattern, String>)
        ensures
            r is Ok <==> regex_accepts(source@),
            r matches Ok(p) ==> p@ == source@,
    {
        match regex::Regex::new(source) {
            Ok(compiled) => Ok(Pattern { source: source.to_string(), compiled }),
            Err(e) => Err(format!("{}", e)),
        }
    }

    /// Relies on `regex::Regex::is_match`: true if and only if the pattern
    /// matches anywhere in `text` (an unanchored search).
    #[verifier::external_body]
    pub fn is_match(&self, text: &str) -> (r: bool)
        ensures
            r == regex_match(self@, text@),
    {
        self.compiled.is_match(text)
    }
}

} // verus!
