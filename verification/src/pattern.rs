//! Regular-expression matching, done by the `regex` crate.
//!
//! Nothing in this module is proved. The contract below is what the rest of
//! the crate assumes of the matcher.

use regex::Regex;
use vstd::prelude::*;

verus! {

/// What the `regex` crate finds when the regular expression `pattern` is
/// searched for in `text`: `None` when `pattern` is no valid regular
/// expression or matches nowhere in `text`; otherwise the capture groups of
/// the first match, in the order of their opening parentheses, with the whole
/// match as group 0 and `None` for a group that took no part in the match.
pub uninterp spec fn captured_groups(pattern: Seq<char>, text: Seq<char>) -> Option<
    Seq<Option<Seq<char>>>,
>;

/// Compiles `pattern` with `regex::Regex::new`, searches `text` for its first
/// match with `Regex::captures`, and copies the text of every capture group
/// out of the match.
///
/// Assumed: the outcome is a function of `pattern` and `text` alone, which
/// [`captured_groups`] names. A pattern that does not compile gives `None`,
/// as does a text without a match.
#[verifier::external_body]
pub(crate) fn captures(pattern: &str, text: &str) -> (groups: Option<Vec<Option<String>>>)
    ensures
        groups.deep_view() == captured_groups(pattern@, text@),
{
    let regex = match Regex::new(pattern) {
        Ok(regex) => regex,
        Err(_) => return None,
    };
    match regex.captures(text) {
        Some(found) => Some(found.iter().map(|g| g.map(|m| m.as_str().to_string())).collect()),
        None => None,
    }
}

} // verus!
