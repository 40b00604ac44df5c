//! The date that a photo's metadata holds.

use vstd::prelude::*;
use crate::datetime::{parsed_datetime, DateTime};
use crate::text::{is_word, to_chars};

verus! {

/// Which of the dates in a photo's metadata is asked for.
#[derive(Debug, Clone, Copy, PartialEq, Eq, Hash, Structural)]
pub enum ExifDateType {
    /// The date of the last change to the file.
    Modify,
    /// The date the picture was taken.
    Creation,
    /// The date the picture was digitized.
    Digitized,
}

/// Why the metadata of a file gave no answer.
#[derive(Debug, Clone, Copy, PartialEq, Eq, Structural)]
pub enum MetadataError {
    /// The text names no kind of date.
    InvalidDateType,
    /// The extension is listed both as a photo's and as a video's.
    AmbiguousExtension,
    /// The extension is listed neither as a photo's nor as a video's.
    NoSource,
    /// The metadata could not be read.
    Unreadable,
    /// The metadata holds a date that cannot be read as one.
    InvalidDate,
}

/// The kind of date that a word names.
pub open spec fn date_type_named(word: Seq<char>) -> Option<ExifDateType> {
    if word == "modify"@ || word == "m"@ || word == "modified"@ {
        Some(ExifDateType::Modify)
    } else if word == "creation"@ || word == "c"@ || word == "create"@ || word == "created"@ {
        Some(ExifDateType::Creation)
    } else if word == "digitized"@ || word == "digitize"@ || word == "d"@ || word == "digital"@
        || word == "digitalize"@ {
        Some(ExifDateType::Digitized)
    } else {
        None
    }
}

impl ExifDateType {
    /// Reads the kind of date from its name.
    pub fn from_str(s: &str) -> (kind: Result<ExifDateType, MetadataError>)
        ensures
            kind == match date_type_named(s@) {
                Some(k) => Ok::<ExifDateType, MetadataError>(k),
                None => Err(MetadataError::InvalidDateType),
            },
    {
        let w = to_chars(s);
        let w = w.as_slice();
        if is_word(w, "modify") || is_word(w, "m") || is_word(w, "modified") {
            Ok(ExifDateType::Modify)
        } else if is_word(w, "creation") || is_word(w, "c") || is_word(w, "create") || is_word(
            w,
            "created",
        ) {
            Ok(ExifDateType::Creation)
        } else if is_word(w, "digitized") || is_word(w, "digitize") || is_word(w, "d")
            || is_word(w, "digital") || is_word(w, "digitalize") {
            Ok(ExifDateType::Digitized)
        } else {
            Err(MetadataError::InvalidDateType)
        }
    }
}

/// The date that a photo's date field spells. A photo without the field has
/// no date; a field that does not read as `year-month-day hour:minute:second`
/// is an error.
pub open spec fn exif_time(text: Option<Seq<char>>) -> Result<Option<DateTime>, MetadataError> {
    match text {
        None => Ok(None),
        Some(t) => match parsed_datetime(t, "%Y-%m-%d %H:%M:%S"@) {
            Some(date) => Ok(Some(date)),
            None => Err(MetadataError::InvalidDate),
        },
    }
}

/// Reads the date out of the text of a photo's date field.
pub fn get_exif_time(text: Option<&str>) -> (date: Result<Option<DateTime>, MetadataError>)
    ensures
        date == exif_time(
            match text {
                Some(t) => Some(t@),
                None => None,
            },
        ),
{
    match text {
        None => Ok(None),
        Some(t) => match DateTime::parse(t, "%Y-%m-%d %H:%M:%S") {
            Some(date) => Ok(Some(date)),
            None => Err(MetadataError::InvalidDate),
        },
    }
}

} // verus!
