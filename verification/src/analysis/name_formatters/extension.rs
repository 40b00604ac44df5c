use vstd::prelude::*;
use crate::analysis::name_formatters::{
    command_argument, command_word, split_command_text, FormatterFailure, InvocationView,
    NameFormatter, NameFormatterInvocationInfo,
};
use crate::text::{
    contains_char, has_char, is_word, lowercase_text, to_lowercase, to_uppercase, uppercase_text,
};

verus! {

/// Answers `ext` and `extension` with the file extension: in lower case, in
/// upper case, or as it is, after the argument. Without an argument the
/// extension is copied.
#[derive(Debug, Default, Clone, Copy)]
pub struct FormatExtension {}

/// The options that ask for lower case.
pub open spec fn is_lower_option(option: Seq<char>) -> bool {
    option == "lower"@ || option == "low"@ || option == "lowercase"@ || option == "l"@
}

/// The options that ask for upper case.
pub open spec fn is_upper_option(option: Seq<char>) -> bool {
    option == "upper"@ || option == "up"@ || option == "uppercase"@ || option == "u"@
}

/// The options that ask for the extension as it is.
pub open spec fn is_copy_option(option: Seq<char>) -> bool {
    option == "copy"@ || option == "normal"@ || option == "standard"@ || option == "pass"@
        || option == "p"@
}

impl NameFormatter for FormatExtension {
    open spec fn accepts(&self, command: Seq<char>) -> bool {
        let word = command_word(command);
        &&& word == "ext"@ || word == "extension"@
        &&& match command_argument(command) {
            Some(argument) => argument.len() > 0 && !has_char(argument, '\n'),
            None => true,
        }
    }

    open spec fn replacement(&self, command: Seq<char>, info: InvocationView) -> Result<
        Seq<char>,
        FormatterFailure,
    > {
        match command_argument(command) {
            None => Ok(info.extension),
            Some(option) => if is_lower_option(option) {
                Ok(lowercase_text(info.extension))
            } else if is_upper_option(option) {
                Ok(uppercase_text(info.extension))
            } else if is_copy_option(option) {
                Ok(info.extension)
            } else {
                Err(FormatterFailure::UnknownExtensionFormat)
            },
        }
    }

    fn matches(&self, command: &str) -> (answer: bool) {
        let (word, argument) = split_command_text(command);
        if !(is_word(word.as_slice(), "ext") || is_word(word.as_slice(), "extension")) {
            return false;
        }
        match argument {
            Some(argument) => argument.len() > 0 && !contains_char(argument.as_slice(), '\n'),
            None => true,
        }
    }

    fn replacement_text(&self, command: &str, info: &NameFormatterInvocationInfo) -> (text:
        Result<String, FormatterFailure>) {
        let (_word, argument) = split_command_text(command);
        match argument {
            None => Ok(info.extension.clone()),
            Some(option) => {
                let option = option.as_slice();
                if is_word(option, "lower") || is_word(option, "low") || is_word(
                    option,
                    "lowercase",
                ) || is_word(option, "l") {
                    Ok(to_lowercase(info.extension.as_str()))
                } else if is_word(option, "upper") || is_word(option, "up") || is_word(
                    option,
                    "uppercase",
                ) || is_word(option, "u") {
                    Ok(to_uppercase(info.extension.as_str()))
                } else if is_word(option, "copy") || is_word(option, "normal") || is_word(
                    option,
                    "standard",
                ) || is_word(option, "pass") || is_word(option, "p") {
                    Ok(info.extension.clone())
                } else {
                    Err(FormatterFailure::UnknownExtensionFormat)
                }
            },
        }
    }
}

} // verus!
