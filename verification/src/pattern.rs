//! Text patterns, matched by the `regex` crate.

use vstd::prelude::*;

verus! {

/// What matching `text` against the regular expression `pattern` gives:
/// `None` where `pattern` is no valid expression, else whether the
/// expression matches somewhere in `text`.
pub uninterp spec fn pattern_match(pattern: Seq<char>, text: Seq<char>) -> Option<bool>;

/// Compiles `pattern` with `regex::Regex::new` and searches `text` with
/// `Regex::is_match`. The contract claims only that the outcome is a function
/// of the two texts, which it names [`pattern_match`]; an expression that
/// does not compile gives `None` in place of a panic.
#[verifier::external_body]
fn match_pattern(pattern: &str, text: &str) -> (r: Option<bool>)
    ensures
        r == pattern_match(pattern@, text@),
{
    match regex::Regex::new(pattern) {
        Ok(re) => Some(re.is_match(text)),
        Err(_) => None,
    }
}

/// Whether `pattern` is a valid expression that matches somewhere in `text`.
pub open spec fn pattern_matches(pattern: Seq<char>, text: Seq<char>) -> bool {
    pattern_match(pattern, text) == Some(true)
}

/// Whether `pattern` is a valid expression that matches somewhere in `text`.
pub fn is_match(pattern: &str, text: &str) -> (r: bool)
    ensures
        r == pattern_matches(pattern@, text@),
{
    match match_pattern(pattern, text) {
        Some(found) => found,
        None => false,
    }
}

} // verus!
