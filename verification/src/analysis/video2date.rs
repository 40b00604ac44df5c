//! The date that a video's metadata holds.

use vstd::prelude::*;
use crate::analysis::exif2date::MetadataError;
use crate::datetime::{parsed_datetime, DateTime};

verus! {

/// The date that a video's creation time spells. A video without the entry
/// has no date; an entry that does not read as
/// `year-month-dayThour:minute:second` with a time zone is an error.
pub open spec fn video_time(text: Option<Seq<char>>) -> Result<Option<DateTime>, MetadataError> {
    match text {
        None => Ok(None),
        Some(t) => match parsed_datetime(t, "%Y-%m-%dT%H:%M:%S%Z"@) {
            Some(date) => Ok(Some(date)),
            None => Err(MetadataError::InvalidDate),
        },
    }
}

/// Reads the date out of the text of a video's creation time.
pub fn get_video_time(text: Option<&str>) -> (date: Result<Option<DateTime>, MetadataError>)
    ensures
        date == video_time(
            match text {
                Some(t) => Some(t@),
                None => None,
            },
        ),
{
    match text {
        None => Ok(None),
        Some(t) => match DateTime::parse(t, "%Y-%m-%dT%H:%M:%S%Z") {
            Some(date) => Ok(Some(date)),
            None => Err(MetadataError::InvalidDate),
        },
    }
}

} // verus!
