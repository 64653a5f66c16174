//! The selection on screen: how a drawn line is split into the part in front
//! of the selection, the selected part and the part behind it.

use super::scroll::{clamped_sub, min_int};
use vstd::prelude::*;
use vstd::string::{StrSliceExecFns, StringExecFns};

verus! {

/// A run of characters of one drawn line, selected or not.
#[derive(Clone, Debug, PartialEq, Eq)]
pub struct Span {
    /// The characters.
    pub text: String,
    /// Whether they belong to the selection and are to be highlighted.
    pub selected: bool,
}

/// A span, as plain values.
pub struct SpanView {
    pub text: Seq<char>,
    pub selected: bool,
}

impl View for Span {
    type V = SpanView;

    open spec fn view(&self) -> SpanView {
        SpanView { text: self.text@, selected: self.selected }
    }
}

/// The selected columns of a drawn line: where the line, `len` characters
/// from document offset `offset` on, meets the selection, the columns of the
/// line at which the selection begins and ends. Nothing where they do not
/// meet.
pub open spec fn selected_columns(offset: int, len: int, selection: Option<(int, int)>) -> Option<
    (int, int),
> {
    match selection {
        Some((start, end)) => if offset < end && offset + len > start {
            Some((clamped_sub(start, offset), min_int(end - offset, len)))
        } else {
            None
        },
        None => None,
    }
}

/// One span, or none if it would be empty.
pub open spec fn plain_span(text: Seq<char>) -> Seq<SpanView> {
    if text.len() > 0 {
        seq![SpanView { text, selected: false }]
    } else {
        Seq::empty()
    }
}

/// The spans of a drawn line whose first character stands at document offset
/// `offset`: where the line meets the selection, what is in front of the
/// selection, if anything, the selected part, and what is behind it, if
/// anything; else the whole line as one span.
pub open spec fn line_spans(line: Seq<char>, offset: int, selection: Option<(int, int)>) -> Seq<
    SpanView,
> {
    match selected_columns(offset, line.len() as int, selection) {
        Some((from, to)) => plain_span(line.take(from)) + seq![
            SpanView { text: line.subrange(from, to), selected: true },
        ] + plain_span(line.skip(to)),
        None => seq![SpanView { text: line, selected: false }],
    }
}

/// The views of spans.
pub open spec fn span_views(spans: Seq<Span>) -> Seq<SpanView> {
    spans.map_values(|span: Span| span@)
}

/// The selected columns of a drawn line of `len` characters that begins at
/// document offset `offset`.
pub fn selected_part(offset: usize, len: usize, selection: Option<(usize, usize)>) -> (columns:
    Option<(usize, usize)>)
    requires
        selection matches Some((start, end)) ==> start <= end,
    ensures
        columns is Some == selected_columns(
            offset as int,
            len as int,
            match selection {
                Some((start, end)) => Some((start as int, end as int)),
                None => None,
            },
        ) is Some,
        columns matches Some((from, to)) ==> from <= to <= len && selected_columns(
            offset as int,
            len as int,
            match selection {
                Some((start, end)) => Some((start as int, end as int)),
                None => None,
            },
        ) == Some((from as int, to as int)),
{
    match selection {
        Some((start, end)) => {
            let reaches = start < offset || start - offset < len;
            if offset < end && reaches {
                let from = start.saturating_sub(offset);
                let to = if end - offset < len {
                    end - offset
                } else {
                    len
                };
                Some((from, to))
            } else {
                None
            }
        },
        None => None,
    }
}

/// Splits the drawn line `line`, whose first character stands at document
/// offset `offset`, into its spans.
pub fn split_line(line: &str, offset: usize, selection: Option<(usize, usize)>) -> (spans: Vec<
    Span,
>)
    requires
        selection matches Some((start, end)) ==> start <= end,
    ensures
        span_views(spans@) == line_spans(
            line@,
            offset as int,
            match selection {
                Some((start, end)) => Some((start as int, end as int)),
                None => None,
            },
        ),
{
    let len = line.unicode_len();
    let mut spans: Vec<Span> = Vec::new();
    match selected_part(offset, len, selection) {
        Some((from, to)) => {
            if from > 0 {
                spans.push(
                    Span { text: String::from_str(line.substring_char(0, from)), selected: false },
                );
            }
            spans.push(
                Span { text: String::from_str(line.substring_char(from, to)), selected: true },
            );
            if to < len {
                spans.push(
                    Span { text: String::from_str(line.substring_char(to, len)), selected: false },
                );
            }
        },
        None => {
            spans.push(Span { text: String::from_str(line), selected: false });
        },
    }
    spans
}

} // verus!
