//! Rendering: a template, the registered formatters and the facts about one
//! file give a name; a template with `/` in it gives the components of a
//! path.

use vstd::prelude::*;
use vstd::string::StringExecFns;
use crate::analysis::name_formatters::{
    lemma_name_gives_cleaned_name, lemma_unanswered_command_is_unknown, rendering, resolve,
    resolved, FormatError, FormatErrorView, Formatter, InvocationView, NameFormatter,
    NameFormatterInvocationInfo,
};
use crate::template::{
    has_block, lemma_no_block_is_literal, parse_template, segment_views, segments_from,
    split_command, split_label, template_segments, Segment, SegmentView,
};
use crate::text::{
    find_char, from_chars, index_of_from, is_word, pieces_from, sub_chars, to_chars,
};

verus! {

/// The text that one segment renders to. A literal renders to itself. A
/// command renders to what the registry resolves it to, with the label in
/// front where both the label and the resolved text are not empty.
pub open spec fn rendered_segment(
    formatters: Seq<Formatter>,
    segment: SegmentView,
    info: InvocationView,
) -> Result<Seq<char>, FormatErrorView> {
    match segment {
        SegmentView::Literal(text) => Ok(text),
        SegmentView::Command(inner) => {
            let (label, command) = split_command(inner);
            match resolved(formatters, command, info) {
                Ok(text) => Ok(
                    if text.len() > 0 && label.len() > 0 {
                        label + text
                    } else {
                        text
                    },
                ),
                Err(e) => Err(e),
            }
        },
    }
}

/// The texts of the segments, joined in order, or the first error.
pub open spec fn rendered_segments(
    formatters: Seq<Formatter>,
    segments: Seq<SegmentView>,
    info: InvocationView,
) -> Result<Seq<char>, FormatErrorView>
    decreases segments.len(),
{
    if segments.len() == 0 {
        Ok(Seq::empty())
    } else {
        match rendered_segment(formatters, segments[0], info) {
            Err(e) => Err(e),
            Ok(head) => match rendered_segments(formatters, segments.drop_first(), info) {
                Err(e) => Err(e),
                Ok(tail) => Ok(head + tail),
            },
        }
    }
}

/// What a template renders to.
pub open spec fn rendered_template(
    formatters: Seq<Formatter>,
    template: Seq<char>,
    info: InvocationView,
) -> Result<Seq<char>, FormatErrorView> {
    rendered_segments(formatters, template_segments(template), info)
}

/// A template without a command block renders to itself, whatever is
/// registered and whatever the file.
pub proof fn lemma_plain_template_renders_unchanged(
    formatters: Seq<Formatter>,
    template: Seq<char>,
    info: InvocationView,
)
    requires
        !has_block(template),
    ensures
        rendered_template(formatters, template, info) == Ok::<Seq<char>, FormatErrorView>(
            template,
        ),
{
    lemma_no_block_is_literal(template);
    let segments = seq![SegmentView::Literal(template)];
    assert(rendered_segments(formatters, segments.drop_first(), info) == Ok::<
        Seq<char>,
        FormatErrorView,
    >(Seq::empty()));
}

/// A command block that no registered formatter answers to makes the
/// rendering fail: the block is never copied as if it were literal text.
pub proof fn lemma_unanswered_block_fails(
    formatters: Seq<Formatter>,
    segments: Seq<SegmentView>,
    info: InvocationView,
    at: int,
)
    requires
        0 <= at < segments.len(),
        segments[at] is Command,
        forall|i: int|
            0 <= i < formatters.len() ==> !(#[trigger] formatters[i]).accepts(
                split_command(segments[at]->Command_0).1,
            ),
    ensures
        rendered_segments(formatters, segments, info) is Err,
    decreases segments.len(),
{
    if at == 0 {
        lemma_unanswered_command_is_unknown(
            formatters,
            split_command(segments[0]->Command_0).1,
            info,
        );
    } else if rendered_segment(formatters, segments[0], info) is Ok {
        let rest = segments.drop_first();
        lemma_unanswered_block_fails(formatters, rest, info, at - 1);
    }
}

/// Where the name formatter is registered, the template `{name}` renders
/// to the cleaned name, whatever else is registered.
pub proof fn lemma_name_block_renders_cleaned_name(
    formatters: Seq<Formatter>,
    info: InvocationView,
)
    requires
        exists|i: int| 0 <= i < formatters.len() && (#[trigger] formatters[i]) is Name,
    ensures
        rendered_template(formatters, "{name}"@, info) == Ok::<Seq<char>, FormatErrorView>(
            info.cleaned_name,
        ),
{
    let template = "{name}"@;
    reveal_strlit("{name}");
    reveal_strlit("name");
    reveal_with_fuel(index_of_from, 8);
    reveal_with_fuel(segments_from, 2);
    let inner = template.subrange(1, 5);
    assert(inner == "name"@);
    lemma_name_gives_cleaned_name(formatters, inner, info);
    let segments = seq![SegmentView::Command(inner)];
    assert(rendered_segments(formatters, segments.drop_first(), info) == Ok::<
        Seq<char>,
        FormatErrorView,
    >(Seq::empty()));
}

/// Renders one segment.
pub fn render_segment(
    formatters: &Vec<Formatter>,
    segment: &Segment,
    info: &NameFormatterInvocationInfo,
) -> (text: Result<String, FormatError>)
    ensures
        rendering(text) == rendered_segment(formatters@, segment@, info@),
{
    match segment {
        Segment::Literal(text) => Ok(text.clone()),
        Segment::Command(inner) => {
            let (label, command) = split_label(inner.as_str());
            match resolve(formatters, command.as_str(), info) {
                Err(e) => Err(e),
                Ok(text) => {
                    if text.as_str().unicode_len() > 0 && label.as_str().unicode_len() > 0 {
                        Ok(label.concat(text.as_str()))
                    } else {
                        Ok(text)
                    }
                },
            }
        },
    }
}

/// Replaces the command blocks of a template by their texts and returns the
/// whole. Fails with the first error, left to right.
pub fn render_template(
    formatters: &Vec<Formatter>,
    template: &str,
    info: &NameFormatterInvocationInfo,
) -> (text: Result<String, FormatError>)
    ensures
        rendering(text) == rendered_template(formatters@, template@, info@),
        !has_block(template@) ==> rendering(text) == Ok::<Seq<char>, FormatErrorView>(template@),
{
    proof {
        if !has_block(template@) {
            lemma_plain_template_renders_unchanged(formatters@, template@, info@);
        }
    }
    let segments = parse_template(template);
    let ghost views = segment_views(segments@);
    let mut out = String::new();
    let mut i: usize = 0;
    assert(views.subrange(0, views.len() as int) == views);
    while i < segments.len()
        invariant
            i <= segments.len(),
            !has_block(template@) ==> rendered_template(formatters@, template@, info@) == Ok::<
                Seq<char>,
                FormatErrorView,
            >(template@),
            views == segment_views(segments@),
            views == template_segments(template@),
            rendered_template(formatters@, template@, info@) == match rendered_segments(
                formatters@,
                views.subrange(i as int, views.len() as int),
                info@,
            ) {
                Ok(tail) => Ok::<Seq<char>, FormatErrorView>(out@ + tail),
                Err(e) => Err(e),
            },
        decreases segments.len() - i,
    {
        let ghost rest = views.subrange(i as int, views.len() as int);
        assert(rest.drop_first() == views.subrange(i + 1, views.len() as int));
        match render_segment(formatters, &segments[i], info) {
            Err(e) => {
                return Err(e);
            },
            Ok(text) => {
                let ghost before = out@;
                out.append(text.as_str());
                assert forall|tail: Seq<char>| before + (text@ + tail) == out@ + tail by {}
            },
        }
        i += 1;
    }
    Ok(out)
}

/// A text without its `/` and `\` characters.
pub open spec fn without_separators(s: Seq<char>) -> Seq<char>
    decreases s.len(),
{
    if s.len() == 0 {
        s
    } else {
        let front = without_separators(s.drop_last());
        if s.last() == '/' || s.last() == '\\' {
            front
        } else {
            front.push(s.last())
        }
    }
}

/// The values of a list of strings.
pub open spec fn texts(strings: Seq<String>) -> Seq<Seq<char>> {
    strings.map_values(|s: String| s@)
}

/// The path components that the pieces of a path template render to. Each
/// piece is rendered by itself and loses its separators. A piece that
/// renders to `..` is left out.
pub open spec fn rendered_components(
    formatters: Seq<Formatter>,
    pieces: Seq<Seq<char>>,
    info: InvocationView,
) -> Result<Seq<Seq<char>>, FormatErrorView>
    decreases pieces.len(),
{
    if pieces.len() == 0 {
        Ok(Seq::empty())
    } else {
        match rendered_template(formatters, pieces[0], info) {
            Err(e) => Err(e),
            Ok(text) => match rendered_components(formatters, pieces.drop_first(), info) {
                Err(e) => Err(e),
                Ok(rest) => {
                    let component = without_separators(text);
                    if component == ".."@ {
                        Ok(rest)
                    } else {
                        Ok(seq![component] + rest)
                    }
                },
            },
        }
    }
}

/// The path components that a path template renders to.
pub open spec fn rendered_path(formatters: Seq<Formatter>, template: Seq<char>, info: InvocationView)
    -> Result<Seq<Seq<char>>, FormatErrorView> {
    rendered_components(formatters, pieces_from(template, '/', 0), info)
}

/// The value of a rendered path: the components' texts, or the error's
/// value.
pub open spec fn path_rendering(r: Result<Vec<String>, FormatError>) -> Result<
    Seq<Seq<char>>,
    FormatErrorView,
> {
    match r {
        Ok(components) => Ok(texts(components@)),
        Err(e) => Err(e@),
    }
}

/// Whether a text can stand as one component of a path below the target
/// directory: it is not `..` and holds no separator.
pub open spec fn is_plain_component(component: Seq<char>) -> bool {
    &&& component != ".."@
    &&& forall|i: int|
        0 <= i < component.len() ==> component[i] != '/' && component[i] != '\\'
}

/// What `without_separators` leaves holds no separator.
pub proof fn lemma_without_separators(s: Seq<char>)
    ensures
        forall|i: int|
            0 <= i < without_separators(s).len() ==> without_separators(s)[i] != '/'
                && without_separators(s)[i] != '\\',
    decreases s.len(),
{
    if s.len() > 0 {
        let front = without_separators(s.drop_last());
        let whole = without_separators(s);
        lemma_without_separators(s.drop_last());
        assert forall|i: int| 0 <= i < whole.len() implies whole[i] != '/' && whole[i]
            != '\\' by {
            if i < front.len() {
                assert(whole[i] == front[i]);
            }
        }
    }
}

/// No rendered path leaves the target directory by its components: none
/// of them is `..` and none holds a separator.
pub proof fn lemma_rendered_components_are_plain(
    formatters: Seq<Formatter>,
    pieces: Seq<Seq<char>>,
    info: InvocationView,
)
    ensures
        rendered_components(formatters, pieces, info) matches Ok(components) ==> forall|i: int|
            0 <= i < components.len() ==> is_plain_component(#[trigger] components[i]),
    decreases pieces.len(),
{
    if pieces.len() > 0 {
        lemma_rendered_components_are_plain(formatters, pieces.drop_first(), info);
        match rendered_template(formatters, pieces[0], info) {
            Ok(text) => {
                lemma_without_separators(text);
            },
            Err(_) => {},
        }
    }
}

/// The same of a whole path template.
pub proof fn lemma_rendered_path_is_plain(
    formatters: Seq<Formatter>,
    template: Seq<char>,
    info: InvocationView,
)
    ensures
        rendered_path(formatters, template, info) matches Ok(components) ==> forall|i: int|
            0 <= i < components.len() ==> is_plain_component(#[trigger] components[i]),
{
    lemma_rendered_components_are_plain(formatters, pieces_from(template, '/', 0), info);
}

/// Splits a text at every `/`.
pub fn split_path(template: &str) -> (pieces: Vec<String>)
    ensures
        texts(pieces@) == pieces_from(template@, '/', 0),
{
    let chars = to_chars(template);
    let mut pieces: Vec<String> = Vec::new();
    let mut pos: usize = 0;
    loop
        invariant
            pos <= chars.len(),
            chars@ == template@,
            texts(pieces@) + pieces_from(chars@, '/', pos as int) == pieces_from(
                chars@,
                '/',
                0,
            ),
        decreases chars.len() - pos,
    {
        let at = find_char(chars.as_slice(), '/', pos);
        let piece = sub_chars(chars.as_slice(), pos, at);
        pieces.push(from_chars(piece.as_slice()));
        if at >= chars.len() {
            return pieces;
        }
        pos = at + 1;
    }
}

/// Removes every `/` and `\` from a text.
pub fn strip_separators(text: &str) -> (stripped: Vec<char>)
    ensures
        stripped@ == without_separators(text@),
{
    let chars = to_chars(text);
    let mut stripped: Vec<char> = Vec::new();
    let mut i: usize = 0;
    while i < chars.len()
        invariant
            i <= chars.len(),
            chars@ == text@,
            stripped@ == without_separators(chars@.subrange(0, i as int)),
        decreases chars.len() - i,
    {
        assert(chars@.subrange(0, i + 1).drop_last() == chars@.subrange(0, i as int));
        let c = chars[i];
        if !(c == '/' || c == '\\') {
            stripped.push(c);
        }
        i += 1;
    }
    assert(chars@.subrange(0, i as int) == chars@);
    stripped
}

/// Renders a path template: the template is cut at every `/`, each piece is
/// rendered by itself, separators that a rendered piece holds are removed,
/// and a piece that comes out as `..` is dropped.
pub fn render_path(
    formatters: &Vec<Formatter>,
    template: &str,
    info: &NameFormatterInvocationInfo,
) -> (components: Result<Vec<String>, FormatError>)
    ensures
        path_rendering(components) == rendered_path(formatters@, template@, info@),
{
    let pieces = split_path(template);
    let ghost all = texts(pieces@);
    let mut out: Vec<String> = Vec::new();
    let mut i: usize = 0;
    assert(all.subrange(0, all.len() as int) == all);
    while i < pieces.len()
        invariant
            i <= pieces.len(),
            all == texts(pieces@),
            all == pieces_from(template@, '/', 0),
            rendered_path(formatters@, template@, info@) == match rendered_components(
                formatters@,
                all.subrange(i as int, all.len() as int),
                info@,
            ) {
                Ok(rest) => Ok::<Seq<Seq<char>>, FormatErrorView>(texts(out@) + rest),
                Err(e) => Err(e),
            },
        decreases pieces.len() - i,
    {
        let ghost rest = all.subrange(i as int, all.len() as int);
        assert(rest.drop_first() == all.subrange(i + 1, all.len() as int));
        match render_template(formatters, pieces[i].as_str(), info) {
            Err(e) => {
                return Err(e);
            },
            Ok(text) => {
                let component = strip_separators(text.as_str());
                if !is_word(component.as_slice(), "..") {
                    let ghost before = texts(out@);
                    out.push(from_chars(component.as_slice()));
                    assert forall|tail: Seq<Seq<char>>|
                        before + (seq![component@] + tail) == texts(out@) + tail by {}
                }
            },
        }
        i += 1;
    }
    Ok(out)
}

} // verus!
