//! Searching text with regular expressions.
//!
//! The matching itself is the work of the `regex` crate. What it finds is
//! given a name here, and the rest of the library states its results over
//! those names.

use vstd::prelude::*;
use regex::Regex;
use crate::text::occurs_in;

verus! {

/// The text that capture group `group` of `pattern` took in the leftmost
/// match in `text`. `None` where `pattern` is no regular expression, where
/// nothing matches, or where that group took no part in the match.
pub uninterp spec fn first_capture(pattern: Seq<char>, text: Seq<char>, group: nat) -> Option<
    Seq<char>,
>;

/// The successive non-overlapping matches of `pattern` in `text`, in the
/// order in which they stand in `text`. Each match lists its capture
/// groups by number, group 0 being the whole match; a group that took no
/// part is `None`. Empty where `pattern` is no regular expression.
pub uninterp spec fn all_captures(pattern: Seq<char>, text: Seq<char>) -> Seq<
    Seq<Option<Seq<char>>>,
>;

/// The characters of an optional string.
pub open spec fn text_of(o: Option<String>) -> Option<Seq<char>> {
    match o {
        Some(s) => Some(s@),
        None => None,
    }
}

/// The capture groups of one match, as characters.
pub open spec fn groups_of(groups: Seq<Option<String>>) -> Seq<Option<Seq<char>>> {
    Seq::new(groups.len(), |i: int| text_of(groups[i]))
}

/// A list of matches, as characters.
pub open spec fn matches_of(found: Seq<Vec<Option<String>>>) -> Seq<Seq<Option<Seq<char>>>> {
    Seq::new(found.len(), |i: int| groups_of(found[i]@))
}

/// Compiles `pattern` with `Regex::new`, searches `text` with
/// `Regex::captures` and copies out group `group` with `Captures::get`
/// and `Match::as_str`. The result is what `first_capture` names. The one
/// thing claimed of it beyond the name: a group's text is a slice of the
/// text that was searched.
#[verifier::external_body]
pub(crate) fn capture_first(pattern: &str, text: &str, group: usize) -> (r: Option<String>)
    ensures
        text_of(r) == first_capture(pattern@, text@, group as nat),
        r matches Some(s) ==> occurs_in(text@, s@),
{
    match Regex::new(pattern) {
        Ok(re) => re.captures(text).and_then(|c| c.get(group)).map(|m| m.as_str().to_owned()),
        Err(_) => None,
    }
}

/// Compiles `pattern` with `Regex::new`, walks `Regex::captures_iter` over
/// `text` and copies out the groups of every match with `Captures::iter`.
/// The result is what `all_captures` names; nothing more is claimed.
#[verifier::external_body]
pub(crate) fn capture_all(pattern: &str, text: &str) -> (r: Vec<Vec<Option<String>>>)
    ensures
        matches_of(r@) == all_captures(pattern@, text@),
{
    match Regex::new(pattern) {
        Ok(re) => re.captures_iter(text).map(
            |c| c.iter().map(|g| g.map(|m| m.as_str().to_owned())).collect(),
        ).collect(),
        Err(_) => Vec::new(),
    }
}

} // verus!
