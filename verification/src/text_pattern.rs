//! Regular expressions, compiled and applied by the `regex` crate.
//!
//! A `TextPattern` is only ever built by `TextPattern::compile`, which keeps
//! the source text beside the compiled expression, so what a search or a
//! replacement yields can be named over the source text.

use vstd::prelude::*;

verus! {

#[verifier::external_type_specification]
#[verifier::external_body]
pub struct ExRegex(regex::Regex);

/// Whether `regex::Regex::new` accepts a pattern.
pub uninterp spec fn regex_compiles(pattern: Seq<char>) -> bool;

/// What `Regex::replace_all` returns for a pattern, a text and a
/// replacement template (in which `$1` stands for the first group).
pub uninterp spec fn regex_replace_all(pattern: Seq<char>, text: Seq<char>, replacement: Seq<char>) -> Seq<char>;

/// What `Regex::is_match` returns for a pattern and a text.
pub uninterp spec fn regex_is_match(pattern: Seq<char>, text: Seq<char>) -> bool;

/// A compiled regular expression together with its source text.
pub struct TextPattern {
    source: String,
    compiled: regex::Regex,
}

impl TextPattern {
    pub closed spec fn source(&self) -> Seq<char> {
        self.source@
    }

    /// `regex::Regex::new`: `Some` exactly when the crate accepts the
    /// pattern.
    #[verifier::external_body]
    pub fn compile(pattern: &str) -> (r: Option<TextPattern>)
        ensures
            r is Some <==> regex_compiles(pattern@),
            r matches Some(p) ==> p.source() == pattern@,
    {
        regex::Regex::new(pattern).ok().map(|compiled| TextPattern { source: pattern.to_string(), compiled })
    }

    /// `Regex::replace_all`. The crate documents that a text without a
    /// match comes back unchanged.
    #[verifier::external_body]
    pub fn replace_all(&self, text: &str, replacement: &str) -> (r: String)
        ensures
            r@ == regex_replace_all(self.source(), text@, replacement@),
            !regex_is_match(self.source(), text@) ==> r@ == text@,
    {
        self.compiled.replace_all(text, replacement).into_owned()
    }

    /// `Regex::is_match`.
    #[verifier::external_body]
    pub fn is_match(&self, text: &str) -> (r: bool)
        ensures
            r == regex_is_match(self.source(), text@),
    {
        self.compiled.is_match(text)
    }
}

} // verus!
