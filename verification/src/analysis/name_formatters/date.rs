use vstd::prelude::*;
use crate::analysis::name_formatters::{
    command_argument, command_word, split_command_text, FormatterFailure, InvocationView,
    NameFormatter, NameFormatterInvocationInfo,
};
use crate::text::{contains_char, from_chars, has_char, is_word};

verus! {

/// Answers `date` and `d`, with or without a format string as argument, with
/// the file's date. The argument must not be empty and holds no line break.
/// Without a date the text is `NODATE`.
#[derive(Debug, Default, Clone, Copy)]
pub struct FormatDate {}

impl NameFormatter for FormatDate {
    open spec fn accepts(&self, command: Seq<char>) -> bool {
        let word = command_word(command);
        &&& word == "date"@ || word == "d"@
        &&& match command_argument(command) {
            Some(argument) => argument.len() > 0 && !has_char(argument, '\n'),
            None => true,
        }
    }

    open spec fn replacement(&self, command: Seq<char>, info: InvocationView) -> Result<
        Seq<char>,
        FormatterFailure,
    > {
        let format = match command_argument(command) {
            Some(argument) => argument,
            None => info.date_default_format,
        };
        match info.date {
            None => Ok("NODATE"@),
            Some(date) => match date.formatted(format) {
                Some(text) => Ok(text),
                None => Err(FormatterFailure::InvalidDateFormat),
            },
        }
    }

    fn matches(&self, command: &str) -> (answer: bool) {
        let (word, argument) = split_command_text(command);
        if !(is_word(word.as_slice(), "date") || is_word(word.as_slice(), "d")) {
            return false;
        }
        match argument {
            Some(argument) => argument.len() > 0 && !contains_char(argument.as_slice(), '\n'),
            None => true,
        }
    }

    fn replacement_text(&self, command: &str, info: &NameFormatterInvocationInfo) -> (text:
        Result<String, FormatterFailure>) {
        let (_word, argument) = split_command_text(command);
        match info.date {
            None => Ok("NODATE".to_owned()),
            Some(date) => {
                let written = match argument {
                    Some(argument) => {
                        let format = from_chars(argument.as_slice());
                        date.format(format.as_str())
                    },
                    None => date.format(info.date_default_format.as_str()),
                };
                match written {
                    Some(text) => Ok(text),
                    None => Err(FormatterFailure::InvalidDateFormat),
                }
            },
        }
    }
}

} // verus!
