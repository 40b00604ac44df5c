use vstd::prelude::*;
use crate::analysis::name_formatters::{
    command_argument, command_word, split_command_text, BracketInfoView, FormatterFailure,
    InvocationView, NameFormatter, NameFormatterInvocationInfo,
};
use crate::text::{contains_char, decimal, decimal_text, has_char, is_word};

verus! {

/// Answers `bracket`, `bracketed` and `b` with one field of the file's
/// bracket group, named by the argument. A file outside any group gets the
/// empty text. A missing or unknown argument is an error.
#[derive(Debug, Default, Clone, Copy)]
pub struct BracketedFormat {}

/// The field of a bracket group that an argument names, as text.
pub open spec fn bracket_field(argument: Seq<char>, bracket: BracketInfoView) -> Option<
    Seq<char>,
> {
    if argument == "seq"@ || argument == "index"@ {
        Some(decimal_text(bracket.sequence_number as nat))
    } else if argument == "name"@ || argument == "name_first"@ || argument == "first"@ {
        Some(bracket.first_name)
    } else if argument == "name_last"@ || argument == "last"@ {
        Some(bracket.last_name)
    } else if argument == "len"@ || argument == "length"@ {
        Some(decimal_text(bracket.sequence_length as nat))
    } else if argument == "group"@ || argument == "grp"@ || argument == "num"@ {
        Some(decimal_text(bracket.group_index as nat))
    } else {
        None
    }
}

/// Whether an argument names a field of a bracket group.
pub open spec fn is_bracket_field(argument: Seq<char>) -> bool {
    ||| argument == "seq"@ || argument == "index"@
    ||| argument == "name"@ || argument == "name_first"@ || argument == "first"@
    ||| argument == "name_last"@ || argument == "last"@
    ||| argument == "len"@ || argument == "length"@
    ||| argument == "group"@ || argument == "grp"@ || argument == "num"@
}

impl NameFormatter for BracketedFormat {
    open spec fn accepts(&self, command: Seq<char>) -> bool {
        let word = command_word(command);
        &&& word == "bracket"@ || word == "bracketed"@ || word == "b"@
        &&& match command_argument(command) {
            Some(argument) => !has_char(argument, '\n'),
            None => true,
        }
    }

    open spec fn replacement(&self, command: Seq<char>, info: InvocationView) -> Result<
        Seq<char>,
        FormatterFailure,
    > {
        match command_argument(command) {
            None => Err(FormatterFailure::MissingBracketArgument),
            Some(argument) => if !is_bracket_field(argument) {
                Err(FormatterFailure::UnknownBracketArgument)
            } else {
                match info.bracket_info {
                    Some(bracket) => Ok(bracket_field(argument, bracket)->0),
                    None => Ok(Seq::empty()),
                }
            },
        }
    }

    fn matches(&self, command: &str) -> (answer: bool) {
        let (word, argument) = split_command_text(command);
        if !(is_word(word.as_slice(), "bracket") || is_word(word.as_slice(), "bracketed")
            || is_word(word.as_slice(), "b")) {
            return false;
        }
        match argument {
            Some(argument) => !contains_char(argument.as_slice(), '\n'),
            None => true,
        }
    }

    fn replacement_text(&self, command: &str, info: &NameFormatterInvocationInfo) -> (text:
        Result<String, FormatterFailure>)
        ensures
            info@.bracket_info is None && command_argument(command@) is Some && is_bracket_field(
                command_argument(command@)->0,
            ) ==> text is Ok && text->Ok_0@.len() == 0,
    {
        let (_word, argument) = split_command_text(command);
        let argument = match argument {
            Some(argument) => argument,
            None => {
                return Err(FormatterFailure::MissingBracketArgument);
            },
        };
        let a = argument.as_slice();
        let number = is_word(a, "seq") || is_word(a, "index");
        let first = is_word(a, "name") || is_word(a, "name_first") || is_word(a, "first");
        let last = is_word(a, "name_last") || is_word(a, "last");
        let length = is_word(a, "len") || is_word(a, "length");
        let group = is_word(a, "group") || is_word(a, "grp") || is_word(a, "num");
        if !(number || first || last || length || group) {
            return Err(FormatterFailure::UnknownBracketArgument);
        }
        match &info.bracket_info {
            None => Ok(String::new()),
            Some(bracket) => {
                if number {
                    Ok(decimal(bracket.sequence_number as u64))
                } else if first {
                    Ok(bracket.first_name.clone())
                } else if last {
                    Ok(bracket.last_name.clone())
                } else if length {
                    Ok(decimal(bracket.sequence_length as u64))
                } else {
                    Ok(decimal(bracket.group_index as u64))
                }
            },
        }
    }
}

} // verus!
