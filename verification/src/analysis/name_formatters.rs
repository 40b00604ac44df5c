//! The formatters that turn a format command into replacement text, and the
//! registry that picks one.
//!
//! A command is a word, optionally followed by `?` and an argument. Each
//! formatter answers to a few words and to the arguments it understands.

use vstd::prelude::*;
use crate::datetime::DateTime;
use crate::text::{find_char, index_of_from, lemma_index_of_from, sub_chars, to_chars};

mod bracketed;
mod date;
mod duplicate;
mod extension;
mod file_type;
mod name;
mod original_name;
mod registry;

pub use bracketed::{bracket_field, is_bracket_field, BracketedFormat};
pub use date::FormatDate;
pub use duplicate::FormatDuplicate;
pub use extension::{is_copy_option, is_lower_option, is_upper_option, FormatExtension};
pub use file_type::{type_names, FormatFileType};
pub use name::FormatName;
pub use original_name::{FormatOriginalFileName, FormatOriginalName};
pub use registry::{
    lemma_bracket_outside_group_is_empty, lemma_name_gives_cleaned_name,
    lemma_only_name_answers_name, lemma_unanswered_command_is_unknown, rendering, resolve,
    resolved, FormatError, FormatErrorView, Formatter,
};

verus! {

/// What kind of media a file holds, judged by its extension.
#[derive(Debug, Copy, Clone, PartialEq, Eq, Structural)]
pub enum FileType {
    Image,
    Video,
    /// Neither an image nor a video.
    Other,
}

/// The place of a file in a group of bracketed exposures.
#[derive(Debug, Clone, PartialEq, Eq)]
pub struct BracketInfo {
    /// The index that the camera gave this file within the group.
    pub sequence_number: u32,
    /// Path of the first file of the group.
    pub first: String,
    /// Path of the last file of the group.
    pub last: String,
    /// File name of the first file, without its extension.
    pub first_name: String,
    /// File name of the last file, without its extension.
    pub last_name: String,
    /// Number of files in the group.
    pub sequence_length: usize,
    /// Number of the group, counted from 0 in the order the groups end.
    pub group_index: usize,
}

/// The mathematical value of a `BracketInfo`.
pub struct BracketInfoView {
    pub sequence_number: u32,
    pub first: Seq<char>,
    pub last: Seq<char>,
    pub first_name: Seq<char>,
    pub last_name: Seq<char>,
    pub sequence_length: usize,
    pub group_index: usize,
}

impl View for BracketInfo {
    type V = BracketInfoView;

    open spec fn view(&self) -> BracketInfoView {
        BracketInfoView {
            sequence_number: self.sequence_number,
            first: self.first@,
            last: self.last@,
            first_name: self.first_name@,
            last_name: self.last_name@,
            sequence_length: self.sequence_length,
            group_index: self.group_index,
        }
    }
}

/// What a formatter is told about the file whose name is being made.
#[derive(Debug, Clone, PartialEq, Eq)]
pub struct NameFormatterInvocationInfo {
    /// The date that was found for the file, if any.
    pub date: Option<DateTime>,
    /// The date under the default format, `NODATE` without a date.
    pub date_string: String,
    /// The format used by a date command without an argument.
    pub date_default_format: String,
    pub file_type: FileType,
    /// The file name without date, known prefixes and extension.
    pub cleaned_name: String,
    /// The file name as found, without its extension.
    pub original_name: String,
    /// The file name as found, with its extension.
    pub original_filename: String,
    /// Set once the plain target name turned out to be taken.
    pub duplicate_counter: Option<u32>,
    pub extension: String,
    pub bracket_info: Option<BracketInfo>,
}

/// The mathematical value of a `NameFormatterInvocationInfo`.
pub struct InvocationView {
    pub date: Option<DateTime>,
    pub date_string: Seq<char>,
    pub date_default_format: Seq<char>,
    pub file_type: FileType,
    pub cleaned_name: Seq<char>,
    pub original_name: Seq<char>,
    pub original_filename: Seq<char>,
    pub duplicate_counter: Option<u32>,
    pub extension: Seq<char>,
    pub bracket_info: Option<BracketInfoView>,
}

impl View for NameFormatterInvocationInfo {
    type V = InvocationView;

    open spec fn view(&self) -> InvocationView {
        InvocationView {
            date: self.date,
            date_string: self.date_string@,
            date_default_format: self.date_default_format@,
            file_type: self.file_type,
            cleaned_name: self.cleaned_name@,
            original_name: self.original_name@,
            original_filename: self.original_filename@,
            duplicate_counter: self.duplicate_counter,
            extension: self.extension@,
            bracket_info: match self.bracket_info {
                Some(b) => Some(b@),
                None => None,
            },
        }
    }
}

/// Why a formatter that answers to a command could not give its text.
#[derive(Debug, Copy, Clone, PartialEq, Eq, Structural)]
pub enum FormatterFailure {
    /// The extension command's argument names no known case option.
    UnknownExtensionFormat,
    /// The bracket command's argument names no field.
    UnknownBracketArgument,
    /// The bracket command has no argument.
    MissingBracketArgument,
    /// The date could not be written under the format string.
    InvalidDateFormat,
}

/// The word of a command: the text before the first `?`.
pub open spec fn command_word(command: Seq<char>) -> Seq<char> {
    command.subrange(0, index_of_from(command, '?', 0))
}

/// The argument of a command: the text after the first `?`, if there is one.
pub open spec fn command_argument(command: Seq<char>) -> Option<Seq<char>> {
    let mark = index_of_from(command, '?', 0);
    if mark < command.len() {
        Some(command.subrange(mark + 1, command.len() as int))
    } else {
        None
    }
}

/// The text of a result, with the error left as it is.
pub open spec fn text_result<E>(r: Result<String, E>) -> Result<Seq<char>, E> {
    match r {
        Ok(t) => Ok(t@),
        Err(e) => Err(e),
    }
}

/// Splits a command into its word and its argument.
pub fn split_argument(command: &[char]) -> (parts: (Vec<char>, Option<Vec<char>>))
    ensures
        parts.0@ == command_word(command@),
        parts.1 is Some <==> command_argument(command@) is Some,
        parts.1 is Some ==> parts.1->0@ == command_argument(command@)->0,
{
    let mark = find_char(command, '?', 0);
    let word = sub_chars(command, 0, mark);
    if mark < command.len() {
        let argument = sub_chars(command, mark + 1, command.len());
        (word, Some(argument))
    } else {
        (word, None)
    }
}

/// A command without `?` is its own word and has no argument.
pub proof fn lemma_plain_command(command: Seq<char>)
    requires
        forall|i: int| 0 <= i < command.len() ==> command[i] != '?',
    ensures
        command_word(command) == command,
        command_argument(command) is None,
{
    lemma_index_of_from(command, '?', 0);
}

/// A strategy that turns one kind of format command into replacement text.
pub trait NameFormatter {
    /// Whether the formatter answers to the command.
    spec fn accepts(&self, command: Seq<char>) -> bool;

    /// The text that the formatter puts in place of the command.
    spec fn replacement(&self, command: Seq<char>, info: InvocationView) -> Result<
        Seq<char>,
        FormatterFailure,
    >;

    /// Tests whether the formatter answers to the command.
    fn matches(&self, command: &str) -> (answer: bool)
        ensures
            answer == self.accepts(command@),
    ;

    /// Computes the text that stands in place of the command.
    fn replacement_text(&self, command: &str, info: &NameFormatterInvocationInfo) -> (text:
        Result<String, FormatterFailure>)
        ensures
            text_result(text) == self.replacement(command@, info@),
    ;
}

/// The command of a string, split into word and argument.
pub(crate) fn split_command_text(command: &str) -> (parts: (Vec<char>, Option<Vec<char>>))
    ensures
        parts.0@ == command_word(command@),
        parts.1 is Some <==> command_argument(command@) is Some,
        parts.1 is Some ==> parts.1->0@ == command_argument(command@)->0,
{
    let chars = to_chars(command);
    split_argument(chars.as_slice())
}

} // verus!
