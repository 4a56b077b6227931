//! Regular expressions, matched by the `regex` crate. What an expression
//! matches is not defined here: each result has a name, and the functions
//! that search a text state what they return over those names.

use regex::Regex;
use vstd::prelude::*;
use vstd::string::*;

verus! {

/// Whether the regular expression `pattern` matches somewhere in `text`, as
/// `Regex::is_match` finds it; false also where `pattern` is not a valid
/// expression.
pub uninterp spec fn regex_matches(pattern: Seq<char>, text: Seq<char>) -> bool;

/// The capture groups of the first match of `pattern` in `text`, as
/// `Regex::captures` gives them: the whole match first, then each group in
/// the order of its opening parenthesis, `None` for a group that took no
/// part in the match. `None` where nothing matches or `pattern` is not a
/// valid expression.
pub uninterp spec fn regex_first_captures(pattern: Seq<char>, text: Seq<char>) -> Option<
    Seq<Option<Seq<char>>>,
>;

/// The capture groups of every match of `pattern` in `text`, match after
/// match from left to right without overlap, as `Regex::captures_iter` gives
/// them; empty also where `pattern` is not a valid expression.
pub uninterp spec fn regex_all_captures(pattern: Seq<char>, text: Seq<char>) -> Seq<
    Seq<Option<Seq<char>>>,
>;

/// Compiles `pattern` with `Regex::new` and asks `Regex::is_match` whether
/// it matches anywhere in `text`. A pattern that does not compile matches
/// nothing.
#[verifier::external_body]
pub(crate) fn regex_is_match(pattern: &str, text: &str) -> (matched: bool)
    ensures
        matched == regex_matches(pattern@, text@),
{
    match Regex::new(pattern) {
        Ok(expression) => expression.is_match(text),
        Err(_) => false,
    }
}

/// Compiles `pattern` with `Regex::new` and takes the first match in `text`
/// from `Regex::captures`, each group copied out as text (`Captures::iter`,
/// `Match::as_str`). A pattern that does not compile matches nothing.
#[verifier::external_body]
pub(crate) fn regex_captures(pattern: &str, text: &str) -> (captures: Option<Vec<Option<String>>>)
    ensures
        captures.deep_view() == regex_first_captures(pattern@, text@),
{
    match Regex::new(pattern) {
        Ok(expression) => expression.captures(text).map(
            |found| found.iter().map(|group| group.map(|part| part.as_str().to_string())).collect(),
        ),
        Err(_) => None,
    }
}

/// Compiles `pattern` with `Regex::new` and takes every match in `text`
/// from `Regex::captures_iter`, each group copied out as text. A pattern
/// that does not compile matches nothing.
#[verifier::external_body]
pub(crate) fn regex_captures_iter(pattern: &str, text: &str) -> (all: Vec<Vec<Option<String>>>)
    ensures
        all.deep_view() == regex_all_captures(pattern@, text@),
{
    match Regex::new(pattern) {
        Ok(expression) => expression.captures_iter(text).map(
            |found| found.iter().map(|group| group.map(|part| part.as_str().to_string())).collect(),
        ).collect(),
        Err(_) => Vec::new(),
    }
}

/// One group of a match, where the match has it and it took part.
pub open spec fn capture_group(groups: Seq<Option<Seq<char>>>, group: int) -> Option<Seq<char>> {
    if 0 <= group < groups.len() {
        groups[group]
    } else {
        None
    }
}

/// One group of the first match, where there is a match.
pub open spec fn first_capture(captures: Option<Seq<Option<Seq<char>>>>, group: int) -> Option<
    Seq<char>,
> {
    match captures {
        Some(groups) => capture_group(groups, group),
        None => None,
    }
}

/// Copies one group of a match out.
pub fn group_text(groups: &Vec<Option<String>>, group: usize) -> (text: Option<String>)
    ensures
        text.deep_view() == capture_group(groups.deep_view(), group as int),
{
    if group < groups.len() {
        groups[group].clone()
    } else {
        None
    }
}

/// The text of one group of the first match of `pattern` in `text`.
pub fn find_group(pattern: &str, text: &str, group: usize) -> (found: Option<String>)
    ensures
        found.deep_view() == first_capture(regex_first_captures(pattern@, text@), group as int),
{
    match regex_captures(pattern, text) {
        Some(groups) => group_text(&groups, group),
        None => None,
    }
}

} // verus!
