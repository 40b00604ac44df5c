//! Finding out what a file is and when it was taken.

use vstd::prelude::*;
use crate::analysis::filename2date::{name_date, FileNameToDateTransformer};
use crate::datetime::DateTime;

pub mod bracketed;
pub mod exif2date;
pub mod filename2date;
pub mod name_formatters;
pub mod video2date;

verus! {

/// The date and the remaining name that the first transformer from `from`
/// on reads out of a file name. A transformer that fails is passed over.
pub open spec fn name_time_from<T: FileNameToDateTransformer>(
    name: Seq<char>,
    parsers: Seq<T>,
    from: int,
) -> Option<(DateTime, Seq<char>)>
    decreases parsers.len() - from,
{
    if from < 0 || from >= parsers.len() {
        None
    } else {
        match name_date(&parsers[from], name) {
            Ok(Some(found)) => Some(found),
            _ => name_time_from(name, parsers, from + 1),
        }
    }
}

/// The date and the remaining name that a list of transformers reads out
/// of a file name.
pub open spec fn name_time<T: FileNameToDateTransformer>(name: Seq<char>, parsers: Seq<T>)
    -> Option<(DateTime, Seq<char>)> {
    name_time_from(name, parsers, 0)
}

/// Tries to read a date from a file name. The transformers are tried in
/// order and the first that finds a date wins. The result is the date and
/// the file name without the text that held it.
pub fn get_name_time<T: FileNameToDateTransformer>(name: &str, parsers: &Vec<T>) -> (found:
    Option<(DateTime, String)>)
    ensures
        match found {
            Some((date, rest)) => name_time(name@, parsers@) == Some((date, rest@)),
            None => name_time(name@, parsers@) is None,
        },
{
    let mut i: usize = 0;
    while i < parsers.len()
        invariant
            i <= parsers.len(),
            name_time(name@, parsers@) == name_time_from(name@, parsers@, i as int),
        decreases parsers.len() - i,
    {
        let r = parsers[i].try_transform_name(name);
        match r {
            Ok(Some((date, rest))) => {
                return Some((date, rest));
            },
            _ => {},
        }
        i += 1;
    }
    None
}

} // verus!
