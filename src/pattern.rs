//! Regular-expression search over text, on the `regex` crate's engine.

use vstd::prelude::*;

verus! {

#[verifier::external_type_specification]
#[verifier::external_body]
pub struct ExRegex(regex::Regex);

#[verifier::external_type_specification]
#[verifier::external_body]
pub struct ExRegexError(regex::Error);

/// Whether the engine builds a regex from `source`: the syntax is valid and
/// the compiled form fits the engine's default size limit.
pub uninterp spec fn regex_builds(source: Seq<char>) -> bool;

/// Whether the regex built from `source` matches anywhere in `text`.
pub uninterp spec fn regex_finds(source: Seq<char>, text: Seq<char>) -> bool;

/// The successive non-overlapping matches of the regex built from `source`
/// in `text`, leftmost first.
pub uninterp spec fn regex_all_matches(source: Seq<char>, text: Seq<char>) -> Seq<Seq<char>>;

/// Why a pattern could not be turned into a regex.
#[derive(Debug)]
pub enum PatternError {
    /// The engine refused the pattern, for its syntax or its compiled size.
    Rejected(regex::Error),
}

/// A compiled regular expression together with the text it was built from.
pub struct TextPattern {
    source: String,
    compiled: regex::Regex,
}

/// Relies on `regex::Regex::new`: `Ok` exactly when the engine accepts the
/// pattern.
#[verifier::external_body]
fn build_regex(source: &str) -> (r: Result<regex::Regex, regex::Error>)
    ensures
        r is Ok <==> regex_builds(source@),
{
    regex::Regex::new(source)
}

/// Relies on `regex::Regex::is_match`: whether there is a match anywhere in
/// the text. `compiled` is built from `source` by `TextPattern::new` only.
#[verifier::external_body]
fn search(p: &TextPattern, text: &str) -> (r: bool)
    ensures
        r == regex_finds(p.source@, text@),
{
    p.compiled.is_match(text)
}

/// Relies on `regex::Regex::find_iter`: the successive non-overlapping
/// matches, each taken as its matched text. `compiled` is built from
/// `source` by `TextPattern::new` only.
#[verifier::external_body]
fn collect_matches(p: &TextPattern, text: &str) -> (r: Vec<String>)
    ensures
        r@.map_values(|s: String| s@) == regex_all_matches(p.source@, text@),
{
    p.compiled.find_iter(text).map(|m| m.as_str().to_string()).collect()
}

impl View for TextPattern {
    type V = Seq<char>;

    /// The text the pattern was built from.
    closed spec fn view(&self) -> Seq<char> {
        self.source@
    }
}

impl TextPattern {
    /// Builds the regex for `source`, or says why the engine refused it.
    pub fn new(source: &str) -> (r: Result<TextPattern, PatternError>)
        ensures
            r is Ok <==> regex_builds(source@),
            r matches Ok(p) ==> p@ == source@,
    {
        match build_regex(source) {
            Ok(compiled) => Ok(TextPattern { source: source.to_string(), compiled }),
            Err(e) => Err(PatternError::Rejected(e)),
        }
    }

    /// The text the pattern was built from.
    pub fn as_str(&self) -> (r: &str)
        ensures
            r@ == self@,
    {
        self.source.as_str()
    }

    /// Whether the pattern matches anywhere in `text`.
    pub fn is_match(&self, text: &str) -> (r: bool)
        ensures
            r == regex_finds(self@, text@),
    {
        search(self, text)
    }

    /// The matched texts of the successive non-overlapping matches in `text`.
    pub fn find_all(&self, text: &str) -> (r: Vec<String>)
        ensures
            r@.map_values(|s: String| s@) == regex_all_matches(self@, text@),
    {
        collect_matches(self, text)
    }
}

} // verus!
