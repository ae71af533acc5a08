//! Regular expressions, as the `regex` crate compiles and matches them.
//!
//! What a pattern matches is not stated in this library: the spec functions
//! below only give the crate's answers a name, so that the contracts built
//! on them can say which answer decides what.

use vstd::prelude::*;

verus! {

/// A compiled regular expression of the `regex` crate. Nothing is known of
/// what is inside.
#[verifier::external_type_specification]
#[verifier::external_body]
pub struct ExRegex(regex::Regex);

/// The error with which the `regex` crate refuses a pattern. Nothing is
/// known of what is inside.
#[verifier::external_type_specification]
#[verifier::external_body]
pub struct ExRegexError(regex::Error);

/// Whether `regex::Regex::new` compiles the pattern `pattern`.
pub uninterp spec fn regex_compiles(pattern: Seq<char>) -> bool;

/// Whether the pattern `pattern`, once compiled, matches somewhere in
/// `haystack`, as `regex::Regex::is_match` answers.
pub uninterp spec fn regex_is_match(pattern: Seq<char>, haystack: Seq<char>) -> bool;

/// The text that capture group `group` takes in the leftmost match of the
/// compiled pattern `pattern` in `haystack`, as `regex::Regex::captures`
/// finds it; `None` for a haystack without a match and for a group that
/// takes no part in the match.
pub uninterp spec fn regex_capture(pattern: Seq<char>, haystack: Seq<char>, group: int) -> Option<
    Seq<char>,
>;

/// A pattern together with what it was compiled to.
pub(crate) struct Pattern {
    text: String,
    compiled: regex::Regex,
}

impl View for Pattern {
    type V = Seq<char>;

    /// The text that the pattern was compiled from.
    closed spec fn view(&self) -> Seq<char> {
        self.text@
    }
}

impl Pattern {
    /// Compiles `text` with `regex::Regex::new`.
    ///
    /// The contract claims that whether a text compiles depends on the text
    /// alone, and that the pattern keeps the text it was compiled from.
    #[verifier::external_body]
    pub(crate) fn compile(text: &str) -> (r: Result<Pattern, regex::Error>)
        ensures
            r is Ok <==> regex_compiles(text@),
            r is Ok ==> r->Ok_0@ == text@,
    {
        regex::Regex::new(text).map(|compiled| Pattern { text: text.to_string(), compiled })
    }

    /// Asks `regex::Regex::is_match` whether the pattern matches anywhere
    /// in `haystack`.
    ///
    /// The contract claims only that the answer depends on the text of the
    /// pattern and on the haystack, and on nothing else.
    #[verifier::external_body]
    pub(crate) fn is_match(&self, haystack: &str) -> (r: bool)
        ensures
            r == regex_is_match(self@, haystack@),
    {
        self.compiled.is_match(haystack)
    }

    /// Searches `haystack` with `regex::Regex::captures` and copies the
    /// text of capture group `group` out of the match with
    /// `regex::Captures::get` and `regex::Match::as_str`.
    ///
    /// The contract claims only that the answer depends on the text of the
    /// pattern, the haystack and the group's number, and on nothing else.
    #[verifier::external_body]
    pub(crate) fn capture(&self, haystack: &str, group: usize) -> (r: Option<String>)
        ensures
            crate::text::opt_text(r) == regex_capture(self@, haystack@, group as int),
    {
        self.compiled.captures(haystack).and_then(|c| c.get(group)).map(|m| m.as_str().to_string())
    }
}

} // verus!
