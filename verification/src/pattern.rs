//! Regular-expression searches, done by the `regex` crate.
//!
//! Nothing here is proved: the two functions below hand a pattern and a text
//! to the engine, and their contracts give names to what it answers.

use vstd::prelude::*;

verus! {

/// What `regex::Regex::is_match` answers for a pattern and a text: `None`
/// where `regex::Regex::new` refuses the pattern, else whether the pattern
/// matches anywhere in the text.
pub uninterp spec fn regex_search(pattern: Seq<char>, text: Seq<char>) -> Option<bool>;

/// What `regex::Regex::captures` answers for a pattern, a text and the number
/// of a group: `None` where `regex::Regex::new` refuses the pattern;
/// `Some(None)` where nothing matches or the group took no part in the
/// leftmost match; else the part of the text that the group matched there.
pub uninterp spec fn regex_capture(pattern: Seq<char>, text: Seq<char>, group: nat) -> Option<
    Option<Seq<char>>,
>;

/// The characters of an answer of [`capture`].
pub open spec fn capture_view(answer: Option<Option<String>>) -> Option<Option<Seq<char>>> {
    match answer {
        None => None,
        Some(None) => Some(None),
        Some(Some(part)) => Some(Some(part@)),
    }
}

/// Compiles `pattern` with `regex::Regex::new` and asks `Regex::is_match`
/// whether it matches anywhere in `text`. The contract claims only that the
/// answer is the one named by [`regex_search`]: it depends on the pattern and
/// the text alone.
#[verifier::external_body]
pub(crate) fn search(pattern: &str, text: &str) -> (answer: Option<bool>)
    ensures
        answer == regex_search(pattern@, text@),
{
    match regex::Regex::new(pattern) {
        Ok(re) => Some(re.is_match(text)),
        Err(_) => None,
    }
}

/// Compiles `pattern` with `regex::Regex::new`, asks `Regex::captures` for the
/// leftmost match in `text` and copies what group `group` matched
/// (`Captures::get`, `Match::as_str`). The contract claims only that the answer
/// is the one named by [`regex_capture`]: it depends on the pattern, the text
/// and the group's number alone.
#[verifier::external_body]
pub(crate) fn capture(pattern: &str, text: &str, group: usize) -> (answer: Option<Option<String>>)
    ensures
        capture_view(answer) == regex_capture(pattern@, text@, group as nat),
{
    match regex::Regex::new(pattern) {
        Ok(re) => Some(re.captures(text).and_then(|c| c.get(group)).map(|m| m.as_str().to_string())),
        Err(_) => None,
    }
}

} // verus!
