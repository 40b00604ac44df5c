//! Bracketing in the maker notes of Sony cameras.

use vstd::prelude::*;
use crate::exifutils::{ifd, parse_ifd, Context, ExifError, LittleEndian, Value, ValueView};
use crate::grouper::BracketEXIFInformation;

verus! {

broadcast use vstd::std_specs::hash::group_hash_axioms;

/// The bytes `SONY DSC ` followed by three zero bytes.
pub open spec fn dsc_header() -> Seq<u8> {
    seq![0x53u8, 0x4f, 0x4e, 0x59, 0x20, 0x44, 0x53, 0x43, 0x20, 0, 0, 0]
}

/// The bytes `SONY CAM ` followed by three zero bytes.
pub open spec fn cam_header() -> Seq<u8> {
    seq![0x53u8, 0x4f, 0x4e, 0x59, 0x20, 0x43, 0x41, 0x4d, 0x20, 0, 0, 0]
}

/// Whether the maker note starts as those of Sony cameras do.
pub open spec fn is_sony_note(data: Seq<u8>) -> bool {
    data.len() >= 12 && (data.subrange(0, 12) == dsc_header() || data.subrange(0, 12)
        == cam_header())
}

/// The tag under which the maker note holds the place in the sequence.
pub const SEQUENCE_NUMBER_TAG: u16 = 0xb04a;

/// The first number of a value of unsigned numbers; nothing where the
/// value is empty, an error where it is of another type.
pub open spec fn first_uint(value: ValueView) -> Result<Option<u32>, ExifError> {
    match value {
        ValueView::Byte(v) => Ok(
            if v.len() > 0 {
                Some(v[0] as u32)
            } else {
                None
            },
        ),
        ValueView::Short(v) => Ok(
            if v.len() > 0 {
                Some(v[0] as u32)
            } else {
                None
            },
        ),
        ValueView::Long(v) => Ok(
            if v.len() > 0 {
                Some(v[0])
            } else {
                None
            },
        ),
        _ => Err(ExifError::NotUnsignedInteger),
    }
}

/// What a maker note says about bracketing. A note of another make, a
/// note without the sequence number and a sequence number of 0 all say
/// that the photo is not bracketed.
pub open spec fn sony_bracketing(data: Seq<u8>) -> Result<
    Option<BracketEXIFInformation>,
    ExifError,
> {
    if !is_sony_note(data) {
        Ok(None)
    } else {
        match ifd::<LittleEndian>(data, 12, Context::Exif, 0) {
            Err(e) => Err(e),
            Ok(fields) => if !fields.contains_key(SEQUENCE_NUMBER_TAG) {
                Ok(None)
            } else {
                match first_uint(fields[SEQUENCE_NUMBER_TAG].value) {
                    Err(e) => Err(e),
                    Ok(None) => Ok(None),
                    Ok(Some(index)) => if index > 0 {
                        Ok(Some(BracketEXIFInformation { index }))
                    } else {
                        Ok(None)
                    },
                }
            },
        }
    }
}

fn starts_with(data: &[u8], header: &[u8]) -> (found: bool)
    requires
        header.len() == 12,
    ensures
        found == (data@.len() >= 12 && data@.subrange(0, 12) == header@),
{
    if data.len() < 12 {
        return false;
    }
    let mut i: usize = 0;
    while i < 12
        invariant
            i <= 12,
            header.len() == 12,
            data.len() >= 12,
            data@.subrange(0, i as int) == header@.subrange(0, i as int),
        decreases 12 - i,
    {
        if data[i] != header[i] {
            return false;
        }
        i += 1;
    }
    assert(header@.subrange(0, 12) == header@);
    true
}

fn get_uint(value: &Value) -> (first: Result<Option<u32>, ExifError>)
    ensures
        first == first_uint(value@),
{
    match value {
        Value::Byte(v) => Ok(
            if v.len() > 0 {
                Some(v[0] as u32)
            } else {
                None
            },
        ),
        Value::Short(v) => Ok(
            if v.len() > 0 {
                Some(v[0] as u32)
            } else {
                None
            },
        ),
        Value::Long(v) => Ok(
            if v.len() > 0 {
                Some(v[0])
            } else {
                None
            },
        ),
        _ => Err(ExifError::NotUnsignedInteger),
    }
}

/// Reads the place in a bracket sequence out of a maker note.
pub fn get_bracketing_info(maker_note_data: &[u8]) -> (info: Result<
    Option<BracketEXIFInformation>,
    ExifError,
>)
    ensures
        info == sony_bracketing(maker_note_data@),
{
    let dsc: [u8; 12] = [0x53, 0x4f, 0x4e, 0x59, 0x20, 0x44, 0x53, 0x43, 0x20, 0, 0, 0];
    let cam: [u8; 12] = [0x53, 0x4f, 0x4e, 0x59, 0x20, 0x43, 0x41, 0x4d, 0x20, 0, 0, 0];
    if !(starts_with(maker_note_data, dsc.as_slice()) || starts_with(
        maker_note_data,
        cam.as_slice(),
    )) {
        return Ok(None);
    }
    let maker_note = parse_ifd::<LittleEndian>(maker_note_data, 12, Context::Exif, 0)?;
    let tag: u16 = SEQUENCE_NUMBER_TAG;
    match maker_note.get(&tag) {
        None => Ok(None),
        Some(field) => {
            match get_uint(&field.value)? {
                None => Ok(None),
                Some(index) => {
                    if index > 0 {
                        Ok(Some(BracketEXIFInformation { index }))
                    } else {
                        Ok(None)
                    }
                },
            }
        },
    }
}

} // verus!
