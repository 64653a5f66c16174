//! The gutter: the line numbers drawn beside the text.

use crate::editor::lines::line_count;
use crate::editor::{Editor, EditorView};
use crate::utils::decimal::{align_right, decimal, right_aligned, spaces, to_decimal};
use vstd::prelude::*;

verus! {

/// Width of a line number in the gutter.
pub const NUMBER_WIDTH: usize = 4;

/// What the gutter shows beside the window's row `row`, for a window whose
/// first row shows line `first_line` of a text of `total_lines` lines: the
/// number of the line, counted from 1 and aligned to the right, or blanks
/// beside a row behind the last line.
pub open spec fn gutter_entry(first_line: int, row: int, total_lines: int) -> Seq<char> {
    if first_line + row < total_lines {
        right_aligned(decimal((first_line + row + 1) as nat), NUMBER_WIDTH as nat)
    } else {
        spaces(NUMBER_WIDTH as nat)
    }
}

/// First visible line of the current document; 0 where there is none.
pub open spec fn gutter_first_line(editor: EditorView) -> int {
    match editor.current() {
        Some(doc) => doc.scroll_offset.1,
        None => 0,
    }
}

/// Number of lines of the current document; 1 where there is none.
pub open spec fn gutter_total_lines(editor: EditorView) -> int {
    match editor.current() {
        Some(doc) => line_count(doc.text) as int,
        None => 1,
    }
}

/// The gutter.
pub struct Gutter;

impl Gutter {
    /// The entries of the gutter, one for each row of the window.
    pub fn get_visible_line_numbers(editor: &Editor) -> (numbers: Vec<String>)
        requires
            editor.wf(),
        ensures
            numbers.len() == editor@.viewport.1,
            forall|row: int|
                0 <= row < numbers.len() ==> (#[trigger] numbers[row])@ == gutter_entry(
                    gutter_first_line(editor@),
                    row,
                    gutter_total_lines(editor@),
                ),
    {
        let (first_line, total_lines) = match editor.get_current_buffer() {
            Some(buffer) => (buffer.scroll_offset().1, buffer.len_lines()),
            None => (0, 1),
        };
        let height = editor.get_viewport().1;
        let mut numbers: Vec<String> = Vec::new();
        let mut row: usize = 0;
        while row < height
            invariant
                row <= height,
                numbers.len() == row,
                forall|r: int|
                    0 <= r < numbers.len() ==> (#[trigger] numbers[r])@ == gutter_entry(
                        first_line as int,
                        r,
                        total_lines as int,
                    ),
            decreases height - row,
        {
            let entry = match first_line.checked_add(row) {
                Some(line) => if line < total_lines {
                    let number = to_decimal(line + 1);
                    align_right(number.as_str(), NUMBER_WIDTH)
                } else {
                    align_right("", NUMBER_WIDTH)
                },
                None => align_right("", NUMBER_WIDTH),
            };
            proof {
                reveal_strlit("");
            }
            numbers.push(entry);
            row = row + 1;
        }
        numbers
    }
}

} // verus!
