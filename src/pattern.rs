//! Regular expressions, compiled once when a processor is loaded.

use vstd::prelude::*;

verus! {

#[verifier::external_type_specification]
#[verifier::external_body]
pub struct ExRegex(regex::Regex);

/// Whether `regex` compiles `pattern`.
pub uninterp spec fn regex_accepts(pattern: Seq<char>) -> bool;

/// Whether `pattern`, as `regex` reads it, matches somewhere in `text`.
pub uninterp spec fn regex_finds(pattern: Seq<char>, text: Seq<char>) -> bool;

/// A compiled regular expression and the text it was compiled from. Only
/// `Pattern::new` builds one, so the two always agree.
#[derive(Debug)]
pub struct Pattern {
    source: String,
    regex: regex::Regex,
}

impl Pattern {
    /// The text the expression was compiled from.
    pub closed spec fn source_view(&self) -> Seq<char> {
        self.source@
    }

    /// Relies on `Regex::new`: it compiles exactly the patterns that
    /// `regex_accepts` names, and otherwise says why.
    #[verifier::external_body]
    pub(crate) fn new(source: &str) -> (r: Result<Pattern, String>)
        ensures
            r is Ok <==> regex_accepts(source@),
            r is Ok ==> r->Ok_0.source_view() == source@,
    {
        regex::Regex::new(source).map(|regex| Pattern { source: source.to_string(), regex }).map_err(|e| e.to_string())
    }

    /// Relies on `Regex::is_match`: whether the expression matches
    /// somewhere in `text`.
    #[verifier::external_body]
    pub(crate) fn is_match(&self, text: &str) -> (r: bool)
        ensures
            r == regex_finds(self.source_view(), text@),
    {
        self.regex.is_match(text)
    }

    pub fn as_str(&self) -> (r: &str)
        ensures
            r@ == self.source_view(),
    {
        self.source.as_str()
    }
}

} // verus!
