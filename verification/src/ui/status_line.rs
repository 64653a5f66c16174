//! The status line and the suggestion line: what is written in them, as
//! text and as runs of text with a role.

use super::command_bar::{command_table, page_count, CommandBar, SUGGESTIONS_PER_PAGE};
use crate::editor::mode::Mode;
use crate::editor::scroll::min_int;
use crate::editor::{Editor, EditorView};
use crate::utils::decimal::{decimal, push_decimal, spaces};
use vstd::prelude::*;
use vstd::string::{StrSliceExecFns, StringExecFns};

verus! {

/// A position counted from 1 for a position counted from 0; the greatest
/// number a machine word holds stays as it is.
pub open spec fn one_based(n: int) -> int {
    if n < usize::MAX {
        n + 1
    } else {
        n
    }
}

/// The mode as the status line shows it: its label between blanks.
pub open spec fn mode_text(mode: Mode) -> Seq<char> {
    " "@ + mode.label() + " "@
}

/// The cursor as the status line shows it: line and column, counted from 1,
/// with a colon between them and a blank behind them.
pub open spec fn cursor_text(cursor: Option<(int, int)>) -> Seq<char> {
    match cursor {
        Some((line, column)) => decimal(one_based(line) as nat) + ":"@ + decimal(
            one_based(column) as nat,
        ) + " "@,
        None => "No active buffer "@,
    }
}

/// The status line of `width` cells. With the command bar open it is a colon
/// and the line typed so far. Otherwise it is the mode at the left and the
/// cursor at the right, as far as the width allows: the cursor is cut short
/// first, then the mode.
pub open spec fn status_text(
    mode: Mode,
    cursor: Option<(int, int)>,
    command: Option<Seq<char>>,
    width: int,
) -> Seq<char> {
    match command {
        Some(input) => ":"@ + input,
        None => {
            let left = mode_text(mode);
            let right = cursor_text(cursor);
            if width > left.len() + right.len() {
                left + spaces((width - left.len() - right.len()) as nat) + right
            } else if width > left.len() {
                left + right.take(width - left.len())
            } else {
                left.take(min_int(width, left.len() as int))
            }
        },
    }
}

/// Line and column of the cursor of the current document.
pub open spec fn cursor_of(editor: EditorView) -> Option<(int, int)> {
    match editor.current() {
        Some(doc) => Some((doc.cursor_line(), doc.cursor_column())),
        None => None,
    }
}

/// `n + 1`, or `n` where that does not fit.
fn to_one_based(n: usize) -> (r: usize)
    ensures
        r == one_based(n as int),
{
    if n < usize::MAX {
        n + 1
    } else {
        n
    }
}

/// The status line of `width` cells for `editor` and `command_bar`.
pub fn status_line(editor: &Editor, command_bar: &CommandBar, width: usize) -> (line: String)
    requires
        editor.wf(),
    ensures
        line@ == status_text(
            editor@.mode,
            cursor_of(editor@),
            if command_bar@.active {
                Some(command_bar@.input)
            } else {
                None
            },
            width as int,
        ),
{
    if command_bar.is_active() {
        return String::from_str(":").concat(command_bar.get_input());
    }
    let left = String::from_str(" ").concat(editor.get_mode().to_string().as_str()).concat(" ");
    let right = match editor.get_cursor_screen_position() {
        Some((line, column)) => {
            let mut text = String::new();
            push_decimal(&mut text, to_one_based(line));
            text.append(":");
            push_decimal(&mut text, to_one_based(column));
            text.append(" ");
            text
        },
        None => String::from_str("No active buffer "),
    };
    let left_len = left.as_str().unicode_len();
    let right_len = right.as_str().unicode_len();
    if width >= left_len && width - left_len > right_len {
        let mut line = left;
        let fill = width - left_len - right_len;
        let mut i: usize = 0;
        while i < fill
            invariant
                i <= fill,
                line@ == left@ + spaces(i as nat),
            decreases fill - i,
        {
            line.push(' ');
            i = i + 1;
        }
        line.append(right.as_str());
        line
    } else if width > left_len {
        left.concat(right.as_str().substring_char(0, width - left_len))
    } else {
        String::from_str(left.as_str().substring_char(0, width))
    }
}

/// What a run of text in the suggestion line is.
#[derive(Clone, Copy, Debug, PartialEq, Eq, Structural)]
pub enum SegmentRole {
    /// An arrow that says that there is a page before or after.
    Arrow,
    /// The name of the marked suggestion.
    Marked,
    /// The name of another suggestion.
    Suggestion,
    /// The blank between two names.
    Gap,
    /// The number of the page and of all pages.
    PageIndicator,
}

/// A run of text in the suggestion line.
#[derive(Clone, Debug, PartialEq, Eq)]
pub struct Segment {
    pub text: String,
    pub role: SegmentRole,
}

/// A segment, as plain values.
pub struct SegmentView {
    pub text: Seq<char>,
    pub role: SegmentRole,
}

impl View for Segment {
    type V = SegmentView;

    open spec fn view(&self) -> SegmentView {
        SegmentView { text: self.text@, role: self.role }
    }
}

/// The views of segments.
pub open spec fn segment_views(segments: Seq<Segment>) -> Seq<SegmentView> {
    segments.map_values(|segment: Segment| segment@)
}

/// The names of the suggestions from index `from` up to, not including,
/// `to`, with a gap between one and the next; the one at index `marked` is
/// marked.
pub open spec fn name_segments(from: int, to: int, marked: int) -> Seq<SegmentView>
    decreases to - from,
{
    if from >= to {
        Seq::empty()
    } else {
        let name = SegmentView {
            text: command_table()[to - 1].name,
            role: if to - 1 == marked {
                SegmentRole::Marked
            } else {
                SegmentRole::Suggestion
            },
        };
        if from == to - 1 {
            seq![name]
        } else {
            name_segments(from, to - 1, marked) + seq![
                SegmentView { text: " "@, role: SegmentRole::Gap },
                name,
            ]
        }
    }
}

/// The page indicator: the number of the page, counted from 1, and the
/// number of pages.
pub open spec fn page_indicator(page: int, pages: int) -> Seq<char> {
    " ["@ + decimal(one_based(page) as nat) + "/"@ + decimal(pages as nat) + "]"@
}

/// The suggestion line for page `page` with the suggestion at index `marked`
/// marked: an arrow to the left unless it is the first page, the names of
/// the page's suggestions, an arrow to the right unless it is the last page,
/// and the page indicator.
pub open spec fn suggestion_segments(page: int, marked: int) -> Seq<SegmentView> {
    let count = command_table().len() as int;
    let pages = page_count(count);
    let from = min_int(page * SUGGESTIONS_PER_PAGE, count);
    let to = min_int(from + SUGGESTIONS_PER_PAGE, count);
    (if page > 0 {
        seq![SegmentView { text: "< "@, role: SegmentRole::Arrow }]
    } else {
        Seq::empty()
    }) + name_segments(from, to, marked) + (if page < pages - 1 {
        seq![SegmentView { text: " >"@, role: SegmentRole::Arrow }]
    } else {
        Seq::empty()
    }) + seq![SegmentView { text: page_indicator(page, pages), role: SegmentRole::PageIndicator }]
}

/// The suggestion line of `command_bar`.
pub fn suggestion_line(command_bar: &CommandBar) -> (segments: Vec<Segment>)
    requires
        command_bar.wf(),
    ensures
        segment_views(segments@) == suggestion_segments(
            command_bar@.suggestion_page,
            command_bar@.suggestion_index,
        ),
{
    let suggestions = command_bar.get_suggestions();
    let marked = command_bar.get_suggestion_index();
    let page = command_bar.suggestion_page();
    let count = suggestions.len();
    let pages = (count + SUGGESTIONS_PER_PAGE - 1) / SUGGESTIONS_PER_PAGE;
    let from = if page <= count / SUGGESTIONS_PER_PAGE {
        let start = page * SUGGESTIONS_PER_PAGE;
        if start <= count {
            start
        } else {
            count
        }
    } else {
        count
    };
    let to = if SUGGESTIONS_PER_PAGE <= count - from {
        from + SUGGESTIONS_PER_PAGE
    } else {
        count
    };
    let mut segments: Vec<Segment> = Vec::new();
    if page > 0 {
        segments.push(Segment { text: String::from_str("< "), role: SegmentRole::Arrow });
    }
    let ghost head = segment_views(segments@);
    let mut i = from;
    while i < to
        invariant
            from <= i <= to <= count,
            count == suggestions.len(),
            count == command_table().len(),
            forall|j: int|
                0 <= j < suggestions.len() ==> (#[trigger] suggestions[j])@ == command_table()[j],
            segment_views(segments@) == head + name_segments(from as int, i as int, marked as int),
        decreases to - i,
    {
        let ghost before = segment_views(segments@);
        if i > from {
            segments.push(Segment { text: String::from_str(" "), role: SegmentRole::Gap });
        }
        let role = if i == marked {
            SegmentRole::Marked
        } else {
            SegmentRole::Suggestion
        };
        let name = Segment { text: suggestions[i].name.clone(), role };
        let ghost name_view = name@;
        segments.push(name);
        proof {
            let gap = SegmentView { text: " "@, role: SegmentRole::Gap };
            if i > from {
                assert(segment_views(segments@) =~= before + seq![gap, name_view]);
            }
        }
        i = i + 1;
    }
    if page < pages - 1 {
        segments.push(Segment { text: String::from_str(" >"), role: SegmentRole::Arrow });
    }
    let ghost arrows = segment_views(segments@);
    let mut indicator = String::from_str(" [");
    push_decimal(&mut indicator, to_one_based(page));
    indicator.append("/");
    push_decimal(&mut indicator, pages);
    indicator.append("]");
    segments.push(Segment { text: indicator, role: SegmentRole::PageIndicator });
    assert(segment_views(segments@) =~= arrows + seq![
        SegmentView {
            text: page_indicator(page as int, pages as int),
            role: SegmentRole::PageIndicator,
        },
    ]);
    segments
}

} // verus!
