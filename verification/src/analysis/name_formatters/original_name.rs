use vstd::prelude::*;
use crate::analysis::name_formatters::{
    FormatterFailure, InvocationView, NameFormatter, NameFormatterInvocationInfo,
};
use crate::text::{is_word, to_chars};

verus! {

/// Answers `original_name` and `on` with the file name as it was found,
/// without its extension.
#[derive(Debug, Default, Clone, Copy)]
pub struct FormatOriginalName {}

impl NameFormatter for FormatOriginalName {
    open spec fn accepts(&self, command: Seq<char>) -> bool {
        command == "original_name"@ || command == "on"@
    }

    open spec fn replacement(&self, command: Seq<char>, info: InvocationView) -> Result<
        Seq<char>,
        FormatterFailure,
    > {
        Ok(info.original_name)
    }

    fn matches(&self, command: &str) -> (answer: bool) {
        let chars = to_chars(command);
        is_word(chars.as_slice(), "original_name") || is_word(chars.as_slice(), "on")
    }

    fn replacement_text(&self, command: &str, info: &NameFormatterInvocationInfo) -> (text:
        Result<String, FormatterFailure>) {
        Ok(info.original_name.clone())
    }
}

/// Answers `original_filename` and `ofn` with the file name as it was found,
/// extension included.
#[derive(Debug, Default, Clone, Copy)]
pub struct FormatOriginalFileName {}

impl NameFormatter for FormatOriginalFileName {
    open spec fn accepts(&self, command: Seq<char>) -> bool {
        command == "original_filename"@ || command == "ofn"@
    }

    open spec fn replacement(&self, command: Seq<char>, info: InvocationView) -> Result<
        Seq<char>,
        FormatterFailure,
    > {
        Ok(info.original_filename)
    }

    fn matches(&self, command: &str) -> (answer: bool) {
        let chars = to_chars(command);
        is_word(chars.as_slice(), "original_filename") || is_word(chars.as_slice(), "ofn")
    }

    fn replacement_text(&self, command: &str, info: &NameFormatterInvocationInfo) -> (text:
        Result<String, FormatterFailure>) {
        Ok(info.original_filename.clone())
    }
}

} // verus!
