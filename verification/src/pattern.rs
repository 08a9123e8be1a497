//! The regular-expression engine, as far as the library relies on it.

use regex::Regex;
use vstd::prelude::*;

verus! {

/// A compiled regular expression of the engine, held unread.
#[verifier::external_type_specification]
#[verifier::external_body]
pub struct ExRegex(regex::Regex);

/// The error of `regex::Regex::new`, carried through unread.
#[verifier::external_type_specification]
#[verifier::external_body]
pub struct ExRegexError(regex::Error);

/// Whether `regex::Regex::captures`, called on the regex that
/// `regex::Regex::new` built from `pattern`, finds a match in `haystack`.
pub uninterp spec fn regex_matches(pattern: Seq<char>, haystack: Seq<char>) -> bool;

/// What `regex::Captures::name` gives for `group` in the first match of
/// `pattern` in `haystack`: the text of the group, or `None` where the
/// pattern has no group of that name or the group took no part in the match.
pub uninterp spec fn regex_group(pattern: Seq<char>, haystack: Seq<char>, group: Seq<char>) -> Option<Seq<char>>;

/// The text of an optional string.
pub open spec fn text_of(s: Option<String>) -> Option<Seq<char>> {
    match s {
        Some(s) => Some(s@),
        None => None,
    }
}

/// A pattern that the engine accepted, together with the regex compiled
/// from it. Its view is the text of the pattern.
///
/// The fields are private and `compile` alone makes a value, so the regex is
/// always the one that `regex::Regex::new` built from the text beside it.
pub struct Pattern {
    source: String,
    regex: Regex,
}

impl View for Pattern {
    type V = Seq<char>;

    closed spec fn view(&self) -> Seq<char> {
        self.source@
    }
}

/// Compiles `pattern` with `regex::Regex::new` and keeps the regex with a
/// copy of the text.
///
/// Whether a pattern is accepted is not stated: the engine refuses a
/// program above a size limit that it measures in bytes on the machine at
/// hand. The contract says only which text an accepted pattern holds.
#[verifier::external_body]
pub(crate) fn compile(pattern: &str) -> (r: Result<Pattern, regex::Error>)
    ensures
        r matches Ok(compiled) ==> compiled@ == pattern@,
{
    Regex::new(pattern).map(|regex| Pattern { source: pattern.to_owned(), regex })
}

/// Searches `haystack` with `regex::Regex::captures` and, where there is a
/// match, looks up the groups `first` and `second` with
/// `regex::Captures::name`, copying the text of each
/// (`regex::Match::as_str`).
///
/// A `Pattern` always holds the regex built from its own text, so what the
/// call finds is what that text finds.
#[verifier::external_body]
pub(crate) fn capture_pair(pattern: &Pattern, haystack: &str, first: &str, second: &str) -> (r:
    Option<(Option<String>, Option<String>)>)
    ensures
        r is Some <==> regex_matches(pattern@, haystack@),
        r matches Some(pair) ==> text_of(pair.0) == regex_group(pattern@, haystack@, first@)
            && text_of(pair.1) == regex_group(pattern@, haystack@, second@),
{
    pattern.regex.captures(haystack).map(
        |caps|
            (
                caps.name(first).map(|m| m.as_str().to_owned()),
                caps.name(second).map(|m| m.as_str().to_owned()),
            ),
    )
}

} // verus!
