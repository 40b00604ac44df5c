use vstd::prelude::*;
use crate::analysis::name_formatters::{
    FormatterFailure, InvocationView, NameFormatter, NameFormatterInvocationInfo,
};
use crate::text::{decimal, decimal_text, is_word, to_chars};

verus! {

/// Answers `dup` and `duplicate` with the duplicate counter in decimal, or
/// with nothing while no counter is set.
#[derive(Debug, Default, Clone, Copy)]
pub struct FormatDuplicate {}

impl NameFormatter for FormatDuplicate {
    open spec fn accepts(&self, command: Seq<char>) -> bool {
        command == "dup"@ || command == "duplicate"@
    }

    open spec fn replacement(&self, command: Seq<char>, info: InvocationView) -> Result<
        Seq<char>,
        FormatterFailure,
    > {
        match info.duplicate_counter {
            Some(counter) => Ok(decimal_text(counter as nat)),
            None => Ok(Seq::empty()),
        }
    }

    fn matches(&self, command: &str) -> (answer: bool) {
        let chars = to_chars(command);
        is_word(chars.as_slice(), "dup") || is_word(chars.as_slice(), "duplicate")
    }

    fn replacement_text(&self, command: &str, info: &NameFormatterInvocationInfo) -> (text:
        Result<String, FormatterFailure>) {
        match info.duplicate_counter {
            Some(counter) => Ok(decimal(counter as u64)),
            None => Ok(String::new()),
        }
    }
}

} // verus!
