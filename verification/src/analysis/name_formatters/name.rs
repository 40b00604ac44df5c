use vstd::prelude::*;
use crate::analysis::name_formatters::{
    FormatterFailure, InvocationView, NameFormatter, NameFormatterInvocationInfo,
};
use crate::text::{is_word, to_chars};

verus! {

/// Answers `name` and `n` with the cleaned file name.
#[derive(Debug, Default, Clone, Copy)]
pub struct FormatName {}

impl NameFormatter for FormatName {
    open spec fn accepts(&self, command: Seq<char>) -> bool {
        command == "name"@ || command == "n"@
    }

    open spec fn replacement(&self, command: Seq<char>, info: InvocationView) -> Result<
        Seq<char>,
        FormatterFailure,
    > {
        Ok(info.cleaned_name)
    }

    fn matches(&self, command: &str) -> (answer: bool) {
        let chars = to_chars(command);
        is_word(chars.as_slice(), "name") || is_word(chars.as_slice(), "n")
    }

    fn replacement_text(&self, command: &str, info: &NameFormatterInvocationInfo) -> (text:
        Result<String, FormatterFailure>) {
        Ok(info.cleaned_name.clone())
    }
}

} // verus!
