//! Regular expressions, from plain text to plain text.

use vstd::prelude::*;

verus! {

/// The text of the error with which `regex_lite::Regex::new` refuses a pattern,
/// if it does.
pub uninterp spec fn pattern_error(pattern: Seq<char>) -> Option<Seq<char>>;

/// Whether `regex_lite::Regex::is_match` finds a compiled pattern in a text.
pub uninterp spec fn pattern_matches(pattern: Seq<char>, text: Seq<char>) -> bool;

/// The groups of the first match of a compiled pattern in a text, as
/// `regex_lite::Regex::captures` gives them: the whole match first, and for each
/// group that took no part in the match nothing.
pub uninterp spec fn pattern_groups(pattern: Seq<char>, text: Seq<char>) -> Option<
    Seq<Option<Seq<char>>>,
>;

/// A text with every match of a compiled pattern replaced, as
/// `regex_lite::Regex::replace_all` does.
pub uninterp spec fn pattern_replaced(
    pattern: Seq<char>,
    text: Seq<char>,
    replacement: Seq<char>,
) -> Seq<char>;

/// `regex_lite::Regex::new`. Claims that whether a pattern compiles, and with
/// which error it does not, is a function of the pattern.
#[verifier::external_body]
pub(crate) fn compile(pattern: &str) -> (r: Result<(), String>)
    ensures
        (match r {
            Ok(_) => None,
            Err(e) => Some(e@),
        }) == pattern_error(pattern@),
{
    match regex_lite::Regex::new(pattern) {
        Ok(_) => Ok(()),
        Err(e) => Err(e.to_string()),
    }
}

/// `regex_lite::Regex::is_match`, on a pattern that compiles. Claims that the
/// outcome is a function of the pattern and the text.
#[verifier::external_body]
pub(crate) fn is_match(pattern: &str, text: &str) -> (r: bool)
    requires
        pattern_error(pattern@) is None,
    ensures
        r == pattern_matches(pattern@, text@),
{
    match regex_lite::Regex::new(pattern) {
        Ok(re) => re.is_match(text),
        Err(_) => false,
    }
}

/// `regex_lite::Regex::captures`, on a pattern that compiles. Claims that the
/// groups are a function of the pattern and the text.
#[verifier::external_body]
pub(crate) fn captures(pattern: &str, text: &str) -> (r: Option<Vec<Option<String>>>)
    requires
        pattern_error(pattern@) is None,
    ensures
        r.deep_view() == pattern_groups(pattern@, text@),
{
    match regex_lite::Regex::new(pattern) {
        Ok(re) => re.captures(text).map(
            |c| c.iter().map(|g| g.map(|m| m.as_str().to_string())).collect(),
        ),
        Err(_) => None,
    }
}

/// `regex_lite::Regex::replace_all`, on a pattern that compiles. Claims that the
/// outcome is a function of the pattern, the text and the replacement.
#[verifier::external_body]
pub(crate) fn replace_all(pattern: &str, text: &str, replacement: &str) -> (r: String)
    requires
        pattern_error(pattern@) is None,
    ensures
        r@ == pattern_replaced(pattern@, text@, replacement@),
{
    match regex_lite::Regex::new(pattern) {
        Ok(re) => re.replace_all(text, replacement).to_string(),
        Err(_) => text.to_string(),
    }
}

} // verus!
