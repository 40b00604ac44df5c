use vstd::prelude::*;
use crate::analysis::name_formatters::{
    command_argument, command_word, split_command_text, FileType, FormatterFailure,
    InvocationView, NameFormatter, NameFormatterInvocationInfo,
};
use crate::text::{
    contains_char, find_char, from_chars, has_char, index_of_from, is_word, sub_chars,
};

verus! {

/// Answers `ftype`, `type` and `t` with a label for the kind of file: `IMG`
/// for an image, `MOV` for a video, nothing for a file of neither kind. An
/// argument `image,video` or `image` gives labels of the caller's own.
#[derive(Debug, Default, Clone, Copy)]
pub struct FormatFileType {}

/// The image label and the video label that an argument holds: the text
/// before the first comma, and the text after it where there is a comma.
pub open spec fn type_names(argument: Seq<char>) -> (Seq<char>, Option<Seq<char>>) {
    let comma = index_of_from(argument, ',', 0);
    if comma < argument.len() {
        (argument.subrange(0, comma), Some(argument.subrange(comma + 1, argument.len() as int)))
    } else {
        (argument, None)
    }
}

fn split_type_names(argument: &[char]) -> (names: (Vec<char>, Option<Vec<char>>))
    ensures
        names.0@ == type_names(argument@).0,
        names.1 is Some <==> type_names(argument@).1 is Some,
        names.1 is Some ==> names.1->0@ == type_names(argument@).1->0,
{
    let comma = find_char(argument, ',', 0);
    if comma < argument.len() {
        (sub_chars(argument, 0, comma), Some(sub_chars(argument, comma + 1, argument.len())))
    } else {
        (sub_chars(argument, 0, argument.len()), None)
    }
}

impl NameFormatter for FormatFileType {
    open spec fn accepts(&self, command: Seq<char>) -> bool {
        let word = command_word(command);
        &&& word == "ftype"@ || word == "type"@ || word == "t"@
        &&& match command_argument(command) {
            Some(argument) => !has_char(argument, '\n') && match type_names(argument).1 {
                Some(video) => !has_char(video, ','),
                None => true,
            },
            None => true,
        }
    }

    open spec fn replacement(&self, command: Seq<char>, info: InvocationView) -> Result<
        Seq<char>,
        FormatterFailure,
    > {
        let argument = command_argument(command);
        match info.file_type {
            FileType::Image => match argument {
                Some(argument) => Ok(type_names(argument).0),
                None => Ok("IMG"@),
            },
            FileType::Video => match argument {
                Some(argument) => match type_names(argument).1 {
                    Some(video) => Ok(video),
                    None => Ok("MOV"@),
                },
                None => Ok("MOV"@),
            },
            FileType::Other => Ok(Seq::empty()),
        }
    }

    fn matches(&self, command: &str) -> (answer: bool) {
        let (word, argument) = split_command_text(command);
        if !(is_word(word.as_slice(), "ftype") || is_word(word.as_slice(), "type") || is_word(
            word.as_slice(),
            "t",
        )) {
            return false;
        }
        match argument {
            Some(argument) => {
                if contains_char(argument.as_slice(), '\n') {
                    return false;
                }
                let (_image, video) = split_type_names(argument.as_slice());
                match video {
                    Some(video) => !contains_char(video.as_slice(), ','),
                    None => true,
                }
            },
            None => true,
        }
    }

    fn replacement_text(&self, command: &str, info: &NameFormatterInvocationInfo) -> (text:
        Result<String, FormatterFailure>) {
        let (_word, argument) = split_command_text(command);
        match info.file_type {
            FileType::Image => match argument {
                Some(argument) => {
                    let (image, _video) = split_type_names(argument.as_slice());
                    Ok(from_chars(image.as_slice()))
                },
                None => Ok("IMG".to_owned()),
            },
            FileType::Video => match argument {
                Some(argument) => {
                    let (_image, video) = split_type_names(argument.as_slice());
                    match video {
                        Some(video) => Ok(from_chars(video.as_slice())),
                        None => Ok("MOV".to_owned()),
                    }
                },
                None => Ok("MOV".to_owned()),
            },
            FileType::Other => Ok(String::new()),
        }
    }
}

} // verus!
