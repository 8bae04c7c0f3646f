//! Regular expressions, matched by the `regex` crate.

use regex::Regex;
use vstd::prelude::*;

verus! {

/// What the `regex` crate captures: the text of capture group `group` in the
/// leftmost match of `pattern` in `haystack`. It is `None` where `pattern` does
/// not compile, where it matches nowhere in `haystack`, and where the group does
/// not exist or took no part in the match. Group 0 is the whole match.
pub uninterp spec fn regex_capture(pattern: Seq<char>, haystack: Seq<char>, group: nat) -> Option<
    Seq<char>,
>;

/// Compiles `pattern` with `Regex::new`, searches `haystack` with
/// `Regex::captures` and reads group `group` with `Captures::get`. Nothing of
/// this is proved: the contract only gives the result its name. A pattern that
/// the crate refuses gives `None`.
#[verifier::external_body]
pub(crate) fn capture(pattern: &str, haystack: &str, group: usize) -> (r: Option<String>)
    ensures
        r.deep_view() == regex_capture(pattern@, haystack@, group as nat),
{
    match Regex::new(pattern) {
        Ok(expression) => match expression.captures(haystack) {
            Some(captures) => match captures.get(group) {
                Some(found) => Some(found.as_str().to_owned()),
                None => None,
            },
            None => None,
        },
        Err(_) => None,
    }
}

/// `pattern` matches somewhere in `haystack`.
pub open spec fn regex_matches(pattern: Seq<char>, haystack: Seq<char>) -> bool {
    regex_capture(pattern, haystack, 0) is Some
}

/// The first of two captures that came out, the earlier pattern first.
pub open spec fn first_of(a: Option<Seq<char>>, b: Option<Seq<char>>) -> Option<Seq<char>> {
    match a {
        Some(_) => a,
        None => b,
    }
}

/// Whether `pattern` matches somewhere in `haystack`.
pub(crate) fn is_match(pattern: &str, haystack: &str) -> (r: bool)
    ensures
        r == regex_matches(pattern@, haystack@),
{
    capture(pattern, haystack, 0).is_some()
}

/// The first capture group of the leftmost match of `pattern` in `haystack`.
pub(crate) fn first_group(pattern: &str, haystack: &str) -> (r: Option<String>)
    ensures
        r.deep_view() == regex_capture(pattern@, haystack@, 1),
{
    capture(pattern, haystack, 1)
}

} // verus!
