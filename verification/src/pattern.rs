//! Regular expressions, as far as the library needs them: the capture groups
//! of the first match, those of all matches, and replacing the first match.
//!
//! The matching is done by the `regex` crate. What it finds is not spelled
//! out here; it is known by name, as a function of pattern and text.

use vstd::prelude::*;

verus! {

/// The capture groups of the leftmost match of a pattern in a text, group 0
/// first; a group that took no part is `None`. The whole is `None` where
/// nothing matches or the pattern does not compile.
pub uninterp spec fn regex_captures(pattern: Seq<char>, text: Seq<char>) -> Option<
    Seq<Option<Seq<char>>>,
>;

/// The capture groups of the successive matches of a pattern in a text, in
/// order; `None` where the pattern does not compile.
pub uninterp spec fn regex_all_captures(pattern: Seq<char>, text: Seq<char>) -> Option<
    Seq<Seq<Option<Seq<char>>>>,
>;

/// The text with the leftmost match of the pattern replaced; `None` where
/// the pattern does not compile.
pub uninterp spec fn regex_replaced(
    pattern: Seq<char>,
    text: Seq<char>,
    replacement: Seq<char>,
) -> Option<Seq<char>>;

/// The values of the capture groups of one match.
pub open spec fn groups_view(groups: Seq<Option<String>>) -> Seq<Option<Seq<char>>> {
    groups.map_values(
        |g: Option<String>|
            match g {
                Some(s) => Some(s@),
                None => None,
            },
    )
}

/// The values of the capture groups of several matches.
pub open spec fn matches_view(found: Seq<Vec<Option<String>>>) -> Seq<Seq<Option<Seq<char>>>> {
    found.map_values(|groups: Vec<Option<String>>| groups_view(groups@))
}

/// Calls `Regex::new` and `Regex::captures` and copies the groups out. The
/// result is known as `regex_captures` of pattern and text.
#[verifier::external_body]
pub(crate) fn captures(pattern: &str, text: &str) -> (groups: Option<Vec<Option<String>>>)
    ensures
        groups is Some <==> regex_captures(pattern@, text@) is Some,
        groups is Some ==> groups_view(groups->0@) == regex_captures(pattern@, text@)->0,
{
    let compiled = regex::Regex::new(pattern).ok()?;
    let found = compiled.captures(text)?;
    Some(found.iter().map(|group| group.map(|m| m.as_str().to_string())).collect())
}

/// Calls `Regex::new` and `Regex::captures_iter` and copies the groups of
/// each match out. The result is known as `regex_all_captures` of pattern
/// and text.
#[verifier::external_body]
pub(crate) fn all_captures(pattern: &str, text: &str) -> (found: Option<
    Vec<Vec<Option<String>>>,
>)
    ensures
        found is Some <==> regex_all_captures(pattern@, text@) is Some,
        found is Some ==> matches_view(found->0@) == regex_all_captures(pattern@, text@)->0,
{
    let compiled = regex::Regex::new(pattern).ok()?;
    Some(
        compiled.captures_iter(text).map(
            |found| found.iter().map(|group| group.map(|m| m.as_str().to_string())).collect(),
        ).collect(),
    )
}

/// Calls `Regex::new` and `Regex::replace`. The result is known as
/// `regex_replaced` of pattern, text and replacement.
#[verifier::external_body]
pub(crate) fn replace_first(pattern: &str, text: &str, replacement: &str) -> (replaced: Option<
    String,
>)
    ensures
        replaced is Some <==> regex_replaced(pattern@, text@, replacement@) is Some,
        replaced is Some ==> replaced->0@ == regex_replaced(pattern@, text@, replacement@)->0,
{
    let compiled = regex::Regex::new(pattern).ok()?;
    Some(compiled.replace(text, replacement).into_owned())
}

} // verus!
