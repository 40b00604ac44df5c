//! Finding out whether a photo is part of a bracket sequence. Cameras say
//! so in the maker note, each make in its own way.

use vstd::prelude::*;
use crate::exifutils::ExifError;
use crate::grouper::BracketEXIFInformation;

pub mod sony;

verus! {

/// What the maker note of a photo says about bracketing; nothing for a
/// photo without a maker note.
pub open spec fn bracketing_info(maker_note: Option<Seq<u8>>) -> Result<
    Option<BracketEXIFInformation>,
    ExifError,
> {
    match maker_note {
        None => Ok(None),
        Some(data) => sony::sony_bracketing(data),
    }
}

/// Looks into the maker note of a photo for its place in a bracket
/// sequence.
pub fn get_bracketing_info(maker_note: Option<&[u8]>) -> (info: Result<
    Option<BracketEXIFInformation>,
    ExifError,
>)
    ensures
        info == bracketing_info(
            match maker_note {
                Some(data) => Some(data@),
                None => None,
            },
        ),
{
    match maker_note {
        None => Ok(None),
        Some(data) => sony::get_bracketing_info(data),
    }
}

} // verus!
