//! The format-token parser: cuts a template into literal text and command
//! blocks.
//!
//! A command block is written `{...}`. It starts at the first `{` that has a
//! `}` somewhere after it and ends at the first `}` that follows. Blocks do
//! not nest. Inside a block, the text before the first `:` is a label and
//! the rest is the command; without a `:` the label is empty.

use vstd::prelude::*;
use crate::text::{find_char, from_chars, index_of_from, lemma_index_of_from, sub_chars, to_chars};

verus! {

/// One piece of a template.
#[derive(Debug, Clone, PartialEq, Eq)]
pub enum Segment {
    /// Text that is copied as it stands.
    Literal(String),
    /// The text between the braces of a command block.
    Command(String),
}

/// The mathematical value of a `Segment`.
pub enum SegmentView {
    Literal(Seq<char>),
    Command(Seq<char>),
}

impl View for Segment {
    type V = SegmentView;

    open spec fn view(&self) -> SegmentView {
        match self {
            Segment::Literal(t) => SegmentView::Literal(t@),
            Segment::Command(t) => SegmentView::Command(t@),
        }
    }
}

/// The values of a list of segments.
pub open spec fn segment_views(segments: Seq<Segment>) -> Seq<SegmentView> {
    segments.map_values(|s: Segment| s@)
}

/// The segments of the part of `s` that starts at `from`.
pub open spec fn segments_from(s: Seq<char>, from: int) -> Seq<SegmentView>
    decreases s.len() - from,
{
    if from < 0 || from >= s.len() {
        Seq::empty()
    } else {
        let open = index_of_from(s, '{', from);
        let close = index_of_from(s, '}', open);
        proof {
            lemma_index_of_from(s, '{', from);
            lemma_index_of_from(s, '}', open);
        }
        if close >= s.len() {
            seq![SegmentView::Literal(s.subrange(from, s.len() as int))]
        } else {
            let head = if open > from {
                seq![SegmentView::Literal(s.subrange(from, open))]
            } else {
                Seq::empty()
            };
            head.push(SegmentView::Command(s.subrange(open + 1, close))) + segments_from(
                s,
                close + 1,
            )
        }
    }
}

/// The segments of a template. The empty template is one empty literal.
pub open spec fn template_segments(s: Seq<char>) -> Seq<SegmentView> {
    if s.len() == 0 {
        seq![SegmentView::Literal(Seq::empty())]
    } else {
        segments_from(s, 0)
    }
}

/// The label and the command of a command block's inner text.
pub open spec fn split_command(inner: Seq<char>) -> (Seq<char>, Seq<char>) {
    let colon = index_of_from(inner, ':', 0);
    if colon < inner.len() {
        (inner.subrange(0, colon), inner.subrange(colon + 1, inner.len() as int))
    } else {
        (Seq::empty(), inner)
    }
}

/// Whether the text holds a `{` with a `}` somewhere after it.
pub open spec fn has_block(s: Seq<char>) -> bool {
    exists|i: int, j: int| 0 <= i < j < s.len() && s[i] == '{' && s[j] == '}'
}

/// The text that a segment was cut from.
pub open spec fn segment_source(segment: SegmentView) -> Seq<char> {
    match segment {
        SegmentView::Literal(t) => t,
        SegmentView::Command(t) => seq!['{'] + t + seq!['}'],
    }
}

/// The texts that the segments were cut from, joined in order.
pub open spec fn segments_source(segments: Seq<SegmentView>) -> Seq<char>
    decreases segments.len(),
{
    if segments.len() == 0 {
        Seq::empty()
    } else {
        segment_source(segments[0]) + segments_source(segments.drop_first())
    }
}

proof fn lemma_source_concat(a: Seq<SegmentView>, b: Seq<SegmentView>)
    ensures
        segments_source(a + b) == segments_source(a) + segments_source(b),
    decreases a.len(),
{
    if a.len() > 0 {
        assert((a + b).drop_first() == a.drop_first() + b);
        lemma_source_concat(a.drop_first(), b);
    }
}

proof fn lemma_source_single(x: SegmentView)
    ensures
        segments_source(seq![x]) == segment_source(x),
{
    assert(segments_source(seq![x].drop_first()) == Seq::<char>::empty());
}

proof fn lemma_segments_from_source(s: Seq<char>, from: int)
    requires
        0 <= from <= s.len(),
    ensures
        segments_source(segments_from(s, from)) == s.subrange(from, s.len() as int),
    decreases s.len() - from,
{
    if from < s.len() {
        let open = index_of_from(s, '{', from);
        let close = index_of_from(s, '}', open);
        lemma_index_of_from(s, '{', from);
        lemma_index_of_from(s, '}', open);
        if close >= s.len() {
            lemma_source_single(SegmentView::Literal(s.subrange(from, s.len() as int)));
        } else {
            let command = SegmentView::Command(s.subrange(open + 1, close));
            let head = if open > from {
                seq![SegmentView::Literal(s.subrange(from, open))]
            } else {
                Seq::empty()
            };
            let rest = segments_from(s, close + 1);
            lemma_segments_from_source(s, close + 1);
            lemma_source_concat(head.push(command), rest);
            assert(head.push(command) == head + seq![command]);
            lemma_source_concat(head, seq![command]);
            lemma_source_single(command);
            if open > from {
                lemma_source_single(SegmentView::Literal(s.subrange(from, open)));
            }
        }
    }
}

/// Cutting a template loses nothing: the segments' source texts, joined in
/// order, are the template.
pub proof fn lemma_segments_cover_template(s: Seq<char>)
    ensures
        segments_source(template_segments(s)) == s,
{
    if s.len() == 0 {
        lemma_source_single(SegmentView::Literal(Seq::empty()));
    } else {
        lemma_segments_from_source(s, 0);
    }
}

/// A template without a command block is one literal: the template itself.
pub proof fn lemma_no_block_is_literal(s: Seq<char>)
    requires
        !has_block(s),
    ensures
        template_segments(s) == seq![SegmentView::Literal(s)],
{
    if s.len() == 0 {
        assert(s == Seq::<char>::empty());
    } else {
        let open = index_of_from(s, '{', 0);
        let close = index_of_from(s, '}', open);
        lemma_index_of_from(s, '{', 0);
        lemma_index_of_from(s, '}', open);
        assert(s.subrange(0, s.len() as int) == s);
    }
}

/// Cuts a template into its segments, left to right.
pub fn parse_template(template: &str) -> (segments: Vec<Segment>)
    ensures
        segment_views(segments@) == template_segments(template@),
{
    let chars = to_chars(template);
    let mut segments: Vec<Segment> = Vec::new();
    if chars.len() == 0 {
        segments.push(Segment::Literal(String::new()));
        return segments;
    }
    let mut pos: usize = 0;
    while pos < chars.len()
        invariant
            pos <= chars.len(),
            chars@ == template@,
            segment_views(segments@) + segments_from(chars@, pos as int) == segments_from(
                chars@,
                0,
            ),
        decreases chars.len() - pos,
    {
        let open = find_char(chars.as_slice(), '{', pos);
        let close = find_char(chars.as_slice(), '}', open);
        if close >= chars.len() {
            let tail = sub_chars(chars.as_slice(), pos, chars.len());
            segments.push(Segment::Literal(from_chars(tail.as_slice())));
            pos = chars.len();
        } else {
            if open > pos {
                let text = sub_chars(chars.as_slice(), pos, open);
                segments.push(Segment::Literal(from_chars(text.as_slice())));
            }
            let inner = sub_chars(chars.as_slice(), open + 1, close);
            segments.push(Segment::Command(from_chars(inner.as_slice())));
            pos = close + 1;
        }
    }
    segments
}

/// Splits a command block's inner text into label and command.
pub fn split_label(inner: &str) -> (parts: (String, String))
    ensures
        (parts.0@, parts.1@) == split_command(inner@),
{
    let chars = to_chars(inner);
    let colon = find_char(chars.as_slice(), ':', 0);
    if colon < chars.len() {
        let label = sub_chars(chars.as_slice(), 0, colon);
        let command = sub_chars(chars.as_slice(), colon + 1, chars.len());
        (from_chars(label.as_slice()), from_chars(command.as_slice()))
    } else {
        (String::new(), from_chars(chars.as_slice()))
    }
}

} // verus!
