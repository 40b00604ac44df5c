use vstd::prelude::*;
use crate::analysis::name_formatters::{
    command_argument, is_bracket_field, lemma_plain_command, BracketedFormat, FormatDate,
    FormatDuplicate, FormatExtension, FormatFileType, FormatName, FormatOriginalFileName,
    FormatOriginalName, FormatterFailure, InvocationView, NameFormatter,
    NameFormatterInvocationInfo,
};

verus! {

/// One of the built-in formatters, as an entry of a registry.
#[derive(Debug, Clone, Copy)]
pub enum Formatter {
    Name(FormatName),
    OriginalName(FormatOriginalName),
    OriginalFileName(FormatOriginalFileName),
    Date(FormatDate),
    Duplicate(FormatDuplicate),
    Extension(FormatExtension),
    FileType(FormatFileType),
    Bracketed(BracketedFormat),
}

impl NameFormatter for Formatter {
    open spec fn accepts(&self, command: Seq<char>) -> bool {
        match self {
            Formatter::Name(f) => f.accepts(command),
            Formatter::OriginalName(f) => f.accepts(command),
            Formatter::OriginalFileName(f) => f.accepts(command),
            Formatter::Date(f) => f.accepts(command),
            Formatter::Duplicate(f) => f.accepts(command),
            Formatter::Extension(f) => f.accepts(command),
            Formatter::FileType(f) => f.accepts(command),
            Formatter::Bracketed(f) => f.accepts(command),
        }
    }

    open spec fn replacement(&self, command: Seq<char>, info: InvocationView) -> Result<
        Seq<char>,
        FormatterFailure,
    > {
        match self {
            Formatter::Name(f) => f.replacement(command, info),
            Formatter::OriginalName(f) => f.replacement(command, info),
            Formatter::OriginalFileName(f) => f.replacement(command, info),
            Formatter::Date(f) => f.replacement(command, info),
            Formatter::Duplicate(f) => f.replacement(command, info),
            Formatter::Extension(f) => f.replacement(command, info),
            Formatter::FileType(f) => f.replacement(command, info),
            Formatter::Bracketed(f) => f.replacement(command, info),
        }
    }

    fn matches(&self, command: &str) -> (answer: bool) {
        match self {
            Formatter::Name(f) => f.matches(command),
            Formatter::OriginalName(f) => f.matches(command),
            Formatter::OriginalFileName(f) => f.matches(command),
            Formatter::Date(f) => f.matches(command),
            Formatter::Duplicate(f) => f.matches(command),
            Formatter::Extension(f) => f.matches(command),
            Formatter::FileType(f) => f.matches(command),
            Formatter::Bracketed(f) => f.matches(command),
        }
    }

    fn replacement_text(&self, command: &str, info: &NameFormatterInvocationInfo) -> (text:
        Result<String, FormatterFailure>) {
        match self {
            Formatter::Name(f) => f.replacement_text(command, info),
            Formatter::OriginalName(f) => f.replacement_text(command, info),
            Formatter::OriginalFileName(f) => f.replacement_text(command, info),
            Formatter::Date(f) => f.replacement_text(command, info),
            Formatter::Duplicate(f) => f.replacement_text(command, info),
            Formatter::Extension(f) => f.replacement_text(command, info),
            Formatter::FileType(f) => f.replacement_text(command, info),
            Formatter::Bracketed(f) => f.replacement_text(command, info),
        }
    }
}

/// Why a template could not be rendered.
#[derive(Debug, Clone, PartialEq, Eq)]
pub enum FormatError {
    /// No registered formatter answers to the command.
    UnknownCommand(String),
    /// The formatter that answers to the command failed.
    Failed(String, FormatterFailure),
}

/// The mathematical value of a `FormatError`.
pub enum FormatErrorView {
    UnknownCommand(Seq<char>),
    Failed(Seq<char>, FormatterFailure),
}

impl View for FormatError {
    type V = FormatErrorView;

    open spec fn view(&self) -> FormatErrorView {
        match self {
            FormatError::UnknownCommand(command) => FormatErrorView::UnknownCommand(command@),
            FormatError::Failed(command, failure) => FormatErrorView::Failed(command@, *failure),
        }
    }
}

/// The value of a rendering: the text, or the error's value.
pub open spec fn rendering(r: Result<String, FormatError>) -> Result<Seq<char>, FormatErrorView> {
    match r {
        Ok(t) => Ok(t@),
        Err(e) => Err(e@),
    }
}

/// What a registry makes of a command: the text of the first formatter that
/// answers to it, that formatter's failure, or the complaint that none
/// answers.
pub open spec fn resolved(formatters: Seq<Formatter>, command: Seq<char>, info: InvocationView)
    -> Result<Seq<char>, FormatErrorView>
    decreases formatters.len(),
{
    if formatters.len() == 0 {
        Err(FormatErrorView::UnknownCommand(command))
    } else if formatters[0].accepts(command) {
        match formatters[0].replacement(command, info) {
            Ok(text) => Ok(text),
            Err(failure) => Err(FormatErrorView::Failed(command, failure)),
        }
    } else {
        resolved(formatters.drop_first(), command, info)
    }
}

/// A command that no registered formatter answers to is an unknown command.
pub proof fn lemma_unanswered_command_is_unknown(
    formatters: Seq<Formatter>,
    command: Seq<char>,
    info: InvocationView,
)
    requires
        forall|i: int| 0 <= i < formatters.len() ==> !(#[trigger] formatters[i]).accepts(command),
    ensures
        resolved(formatters, command, info) == Err::<Seq<char>, FormatErrorView>(
            FormatErrorView::UnknownCommand(command),
        ),
    decreases formatters.len(),
{
    if formatters.len() > 0 {
        lemma_unanswered_command_is_unknown(formatters.drop_first(), command, info);
    }
}

/// Of the built-in formatters only the name formatter answers to `name` and
/// to `n`.
pub proof fn lemma_only_name_answers_name(formatter: Formatter, command: Seq<char>)
    requires
        command == "name"@ || command == "n"@,
    ensures
        formatter.accepts(command) <==> formatter is Name,
{
    reveal_strlit("name");
    reveal_strlit("n");
    reveal_strlit("original_name");
    reveal_strlit("on");
    reveal_strlit("original_filename");
    reveal_strlit("ofn");
    reveal_strlit("date");
    reveal_strlit("d");
    reveal_strlit("dup");
    reveal_strlit("duplicate");
    reveal_strlit("ext");
    reveal_strlit("extension");
    reveal_strlit("ftype");
    reveal_strlit("type");
    reveal_strlit("t");
    reveal_strlit("bracket");
    reveal_strlit("bracketed");
    reveal_strlit("b");
    lemma_plain_command(command);
}

/// Whatever else is registered, and in whatever order: where the name
/// formatter is registered, `name` and `n` resolve to the cleaned name.
pub proof fn lemma_name_gives_cleaned_name(
    formatters: Seq<Formatter>,
    command: Seq<char>,
    info: InvocationView,
)
    requires
        command == "name"@ || command == "n"@,
        exists|i: int| 0 <= i < formatters.len() && (#[trigger] formatters[i]) is Name,
    ensures
        resolved(formatters, command, info) == Ok::<Seq<char>, FormatErrorView>(
            info.cleaned_name,
        ),
    decreases formatters.len(),
{
    let at = choose|i: int| 0 <= i < formatters.len() && (#[trigger] formatters[i]) is Name;
    lemma_only_name_answers_name(formatters[0], command);
    if !(formatters[0] is Name) {
        let rest = formatters.drop_first();
        assert(rest[at - 1] == formatters[at]);
        lemma_name_gives_cleaned_name(rest, command, info);
    }
}

/// Resolves a command against the formatters, in the order they were
/// registered. The first formatter that answers decides, also where it fails.
pub fn resolve(formatters: &Vec<Formatter>, command: &str, info: &NameFormatterInvocationInfo)
    -> (text: Result<String, FormatError>)
    ensures
        rendering(text) == resolved(formatters@, command@, info@),
        (forall|i: int| 0 <= i < formatters@.len() ==> !(#[trigger] formatters@[i]).accepts(command@))
            ==> rendering(text) == Err::<Seq<char>, FormatErrorView>(
            FormatErrorView::UnknownCommand(command@),
        ),
        (command@ == "name"@ || command@ == "n"@) && (exists|i: int|
            0 <= i < formatters@.len() && (#[trigger] formatters@[i]) is Name) ==> rendering(text)
            == Ok::<Seq<char>, FormatErrorView>(info@.cleaned_name),
{
    proof {
        if forall|i: int|
            0 <= i < formatters@.len() ==> !(#[trigger] formatters@[i]).accepts(command@) {
            lemma_unanswered_command_is_unknown(formatters@, command@, info@);
        }
        if (command@ == "name"@ || command@ == "n"@) && (exists|i: int|
            0 <= i < formatters@.len() && (#[trigger] formatters@[i]) is Name) {
            lemma_name_gives_cleaned_name(formatters@, command@, info@);
        }
    }
    let mut i: usize = 0;
    assert(formatters@.subrange(0, formatters@.len() as int) == formatters@);
    while i < formatters.len()
        invariant
            i <= formatters.len(),
            (command@ == "name"@ || command@ == "n"@) && (exists|i: int|
                0 <= i < formatters@.len() && (#[trigger] formatters@[i]) is Name) ==> resolved(
                formatters@,
                command@,
                info@,
            ) == Ok::<Seq<char>, FormatErrorView>(info@.cleaned_name),
            resolved(formatters@, command@, info@) == resolved(
                formatters@.subrange(i as int, formatters@.len() as int),
                command@,
                info@,
            ),
        decreases formatters.len() - i,
    {
        let ghost rest = formatters@.subrange(i as int, formatters@.len() as int);
        assert(rest.drop_first() == formatters@.subrange(i + 1, formatters@.len() as int));
        if formatters[i].matches(command) {
            return match formatters[i].replacement_text(command, info) {
                Ok(text) => Ok(text),
                Err(failure) => Err(FormatError::Failed(command.to_owned(), failure)),
            };
        }
        i += 1;
    }
    Err(FormatError::UnknownCommand(command.to_owned()))
}

/// A bracket command with a known argument, on a file outside any bracket
/// group, gives the empty text and no error.
pub proof fn lemma_bracket_outside_group_is_empty(command: Seq<char>, info: InvocationView)
    requires
        command_argument(command) is Some,
        is_bracket_field(command_argument(command)->0),
        info.bracket_info is None,
    ensures
        (BracketedFormat {  }).replacement(command, info) == Ok::<Seq<char>, FormatterFailure>(
            Seq::empty(),
        ),
{
}

} // verus!
