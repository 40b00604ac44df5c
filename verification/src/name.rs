//! Cleaning a file name of the prefixes and markers that earlier runs and
//! cameras put around it.

use vstd::prelude::*;
use crate::pattern::{captures, regex_captures, regex_replaced, replace_first};

verus! {

/// The pattern of an image name: known prefixes, the name proper, trailing
/// separators and an extension.
pub open spec fn image_name_pattern() -> Seq<char> {
    "^((MOV|VID|mov|vid|IMG|img|NO_?DATE|no_?date)?[-_]*)*(.*?)[-_]*?\\.([A-Za-z0-9]+)$"@
}

/// The pattern of a file extension made of letters.
pub open spec fn extension_pattern() -> Seq<char> {
    "\\.[A-Za-z]+$"@
}

/// The pattern of the marker that stands for a missing date.
pub open spec fn nodate_pattern() -> Seq<char> {
    "(NO_?DATE|no_?date)"@
}

/// A text with the first match of a pattern removed; the text itself where
/// the pattern does not compile.
pub open spec fn without_first(pattern: Seq<char>, text: Seq<char>) -> Seq<char> {
    match regex_replaced(pattern, text, Seq::empty()) {
        Some(replaced) => replaced,
        None => text,
    }
}

/// The name proper that the image name pattern found: its third group,
/// where the third and the fourth group took part in the match.
pub open spec fn name_group(found: Option<Seq<Option<Seq<char>>>>) -> Option<Seq<char>> {
    match found {
        Some(groups) => if groups.len() > 4 && groups[3] is Some && groups[4] is Some {
            groups[3]
        } else {
            None
        },
        None => None,
    }
}

/// The cleaned form of a file name: the name proper that the image name
/// pattern finds, or else the name without its extension; in either case
/// without the first no-date marker.
pub open spec fn cleaned_image_name(name: Seq<char>) -> Seq<char> {
    match name_group(regex_captures(image_name_pattern(), name)) {
        Some(proper) => without_first(nodate_pattern(), proper),
        None => without_first(nodate_pattern(), without_first(extension_pattern(), name)),
    }
}

/// Picks the name proper out of the capture groups of the image name
/// pattern.
pub fn name_from_captures(found: &Option<Vec<Option<String>>>) -> (proper: Option<String>)
    ensures
        proper is Some <==> (found is Some && found->0@.len() > 4 && found->0@[3] is Some
            && found->0@[4] is Some),
        proper is Some ==> proper->0@ == found->0@[3]->0@,
{
    match found {
        Some(groups) => {
            if groups.len() > 4 {
                match (&groups[3], &groups[4]) {
                    (Some(proper), Some(_)) => Some(proper.clone()),
                    _ => None,
                }
            } else {
                None
            }
        },
        None => None,
    }
}

fn remove_first(pattern: &str, text: &str) -> (cleaned: String)
    ensures
        cleaned@ == without_first(pattern@, text@),
{
    proof {
        reveal_strlit("");
        assert(""@ == Seq::<char>::empty());
    }
    match replace_first(pattern, text, "") {
        Some(replaced) => replaced,
        None => text.to_owned(),
    }
}

/// Cleans an image name by removing known prefixes, the no-date marker and
/// the file extension.
pub fn clean_image_name(name: &str) -> (cleaned: String)
    ensures
        cleaned@ == cleaned_image_name(name@),
{
    let found = captures(
        "^((MOV|VID|mov|vid|IMG|img|NO_?DATE|no_?date)?[-_]*)*(.*?)[-_]*?\\.([A-Za-z0-9]+)$",
        name,
    );
    match name_from_captures(&found) {
        Some(proper) => remove_first("(NO_?DATE|no_?date)", proper.as_str()),
        None => {
            let stem = remove_first("\\.[A-Za-z]+$", name);
            remove_first("(NO_?DATE|no_?date)", stem.as_str())
        },
    }
}

} // verus!
