//! Cursor navigation: where the cursor goes for each movement, as a function
//! of the text and the cursor's offset.
//!
//! Vertical movement keeps the column, clamped to the length of the line it
//! arrives on, so the cursor never crosses into the line after it. The length
//! of a line does not count its line feed.

use super::lines::{
    column_of, lemma_first_line, lemma_last_line, lemma_line_begin, lemma_line_begin_unique,
    lemma_line_end, lemma_line_end_unique, lemma_line_of_bound, lemma_line_of_step,
    lemma_line_start_is_line_begin, lemma_line_start_past_end, lemma_line_start_unique,
    lemma_next_line_start, lemma_same_line, lemma_same_line_same_bounds, line_begin, line_count,
    line_end, line_len_at, line_of, line_start,
};
use super::rope::rope_text;
use super::scroll::min_int;
use ropey::Rope;
use vstd::prelude::*;

verus! {

/// A movement of the cursor.
#[derive(Clone, Copy, Debug, PartialEq, Eq, Structural)]
pub enum CursorMovement {
    Left,
    Right,
    Up,
    Down,
    LineStart,
    LineEnd,
}

/// One character back, staying at offset 0.
pub open spec fn moved_left(text: Seq<char>, pos: int) -> int {
    if pos > 0 {
        pos - 1
    } else {
        pos
    }
}

/// One character on, staying at the end of the text.
pub open spec fn moved_right(text: Seq<char>, pos: int) -> int {
    if pos < text.len() {
        pos + 1
    } else {
        pos
    }
}

/// To the line above, at the same column or at that line's end if it is
/// shorter; unchanged on the first line.
pub open spec fn moved_up(text: Seq<char>, pos: int) -> int {
    let begin = line_begin(text, pos);
    if begin == 0 {
        pos
    } else {
        let above_end = begin - 1;
        let above_begin = line_begin(text, above_end);
        above_begin + min_int(pos - begin, above_end - above_begin)
    }
}

/// To the line below, at the same column or at that line's end if it is
/// shorter; unchanged on the last line.
pub open spec fn moved_down(text: Seq<char>, pos: int) -> int {
    let end = line_end(text, pos);
    if end >= text.len() {
        pos
    } else {
        let below_begin = end + 1;
        let below_end = line_end(text, below_begin);
        below_begin + min_int(column_of(text, pos), below_end - below_begin)
    }
}

/// To the first character of the line.
pub open spec fn moved_line_start(text: Seq<char>, pos: int) -> int {
    line_begin(text, pos)
}

/// To the line feed that ends the line, or to the end of the text on the last
/// line.
pub open spec fn moved_line_end(text: Seq<char>, pos: int) -> int {
    line_end(text, pos)
}

/// Where the cursor goes from `pos` for `movement`.
pub open spec fn moved(text: Seq<char>, pos: int, movement: CursorMovement) -> int {
    match movement {
        CursorMovement::Left => moved_left(text, pos),
        CursorMovement::Right => moved_right(text, pos),
        CursorMovement::Up => moved_up(text, pos),
        CursorMovement::Down => moved_down(text, pos),
        CursorMovement::LineStart => moved_line_start(text, pos),
        CursorMovement::LineEnd => moved_line_end(text, pos),
    }
}

/// Every movement leaves the cursor inside the text.
pub proof fn lemma_moved_in_bounds(text: Seq<char>, pos: int, movement: CursorMovement)
    requires
        0 <= pos <= text.len(),
    ensures
        0 <= moved(text, pos, movement) <= text.len(),
{
    lemma_line_begin(text, pos);
    lemma_line_end(text, pos);
    let begin = line_begin(text, pos);
    if begin > 0 {
        lemma_line_begin(text, begin - 1);
    }
    let end = line_end(text, pos);
    if end < text.len() {
        lemma_line_end(text, end + 1);
    }
}

/// Where `moved_up` arrives, from a line that is not the first: on the line
/// above, at the column of `pos` or at the end of that line if it is shorter.
pub proof fn lemma_moved_up(text: Seq<char>, pos: int)
    requires
        0 <= pos <= text.len(),
        line_begin(text, pos) > 0,
    ensures
        line_of(text, moved_up(text, pos)) + 1 == line_of(text, pos),
        line_end(text, moved_up(text, pos)) == line_begin(text, pos) - 1,
        column_of(text, moved_up(text, pos)) == min_int(
            column_of(text, pos),
            line_len_at(text, line_begin(text, pos) - 1),
        ),
        line_len_at(text, moved_up(text, pos)) == line_len_at(text, line_begin(text, pos) - 1),
{
    let begin = line_begin(text, pos);
    let above_end = begin - 1;
    let above_begin = line_begin(text, above_end);
    let target = moved_up(text, pos);
    lemma_line_begin(text, pos);
    lemma_line_begin(text, above_end);
    lemma_line_of_step(text, above_end);
    lemma_same_line(text, target, above_end);
    lemma_line_begin_unique(text, above_begin, target);
    lemma_line_end_unique(text, target, above_end);
}

/// Where `moved_down` arrives, from a line that is not the last: on the line
/// below, at the column of `pos` or at the end of that line if it is shorter.
pub proof fn lemma_moved_down(text: Seq<char>, pos: int)
    requires
        0 <= pos <= text.len(),
        line_end(text, pos) < text.len(),
    ensures
        line_of(text, moved_down(text, pos)) == line_of(text, pos) + 1,
        line_begin(text, moved_down(text, pos)) == line_end(text, pos) + 1,
        column_of(text, moved_down(text, pos)) == min_int(
            column_of(text, pos),
            line_len_at(text, line_end(text, pos) + 1),
        ),
{
    let end = line_end(text, pos);
    let below_begin = end + 1;
    let target = moved_down(text, pos);
    lemma_line_begin(text, pos);
    lemma_line_end(text, pos);
    lemma_line_end(text, below_begin);
    lemma_line_of_step(text, end);
    lemma_same_line(text, below_begin, target);
    lemma_line_begin_unique(text, below_begin, target);
}

/// Up and then down again: from a line that is not the first the cursor comes
/// back to its line, at its old column or, where the line above is shorter
/// than that, at the length of the line above.
pub proof fn lemma_up_then_down(text: Seq<char>, pos: int)
    requires
        0 <= pos <= text.len(),
        line_begin(text, pos) > 0,
    ensures
        ({
            let back = moved_down(text, moved_up(text, pos));
            let above_len = line_len_at(text, moved_up(text, pos));
            &&& line_of(text, back) == line_of(text, pos)
            &&& column_of(text, back) == min_int(column_of(text, pos), above_len)
            &&& column_of(text, back) <= column_of(text, pos)
            &&& above_len >= column_of(text, pos) ==> back == pos
        }),
{
    let up = moved_up(text, pos);
    let begin = line_begin(text, pos);
    lemma_line_begin(text, pos);
    lemma_line_end(text, pos);
    lemma_moved_up(text, pos);
    lemma_moved_down(text, up);
    lemma_same_line_same_bounds(text, begin, pos);
}

/// Up and then down again never takes the cursor to a greater column, on
/// whatever line it started.
pub proof fn lemma_up_then_down_column(text: Seq<char>, pos: int)
    requires
        0 <= pos <= text.len(),
    ensures
        column_of(text, moved_down(text, moved_up(text, pos))) <= column_of(text, pos),
{
    if line_begin(text, pos) > 0 {
        lemma_up_then_down(text, pos);
    } else if line_end(text, pos) < text.len() {
        lemma_moved_down(text, pos);
    }
}

/// The offset one character back from `pos`, or `pos` at the beginning.
pub fn move_left(pos: usize) -> (r: usize)
    ensures
        r == if pos > 0 {
            pos - 1
        } else {
            pos as int
        },
{
    if pos > 0 {
        pos - 1
    } else {
        pos
    }
}

/// The offset one character on from `pos`, or `pos` at the end of the text.
pub fn move_right(content: &Rope, pos: usize) -> (r: usize)
    requires
        pos <= rope_text(*content).len(),
    ensures
        r == moved_right(rope_text(*content), pos as int),
{
    if pos < content.len_chars() {
        pos + 1
    } else {
        pos
    }
}

/// The offset at which line `line` begins; the length of the text one past
/// the last line.
pub fn line_offset(content: &Rope, line: usize) -> (r: usize)
    requires
        line <= line_count(rope_text(*content)),
    ensures
        r == line_start(rope_text(*content), line as nat),
        r <= rope_text(*content).len(),
{
    let start = content.line_to_char(line);
    proof {
        let text = rope_text(*content);
        if line < line_count(text) {
            lemma_line_start_unique(text, start as int);
        } else {
            lemma_line_start_past_end(text);
        }
    }
    start
}

/// The offset at which the line of `pos` begins.
pub fn move_line_start(content: &Rope, pos: usize) -> (r: usize)
    requires
        pos <= rope_text(*content).len(),
    ensures
        r == moved_line_start(rope_text(*content), pos as int),
{
    let line = content.char_to_line(pos);
    proof {
        lemma_line_of_bound(rope_text(*content), pos as int);
    }
    let start = content.line_to_char(line);
    proof {
        let text = rope_text(*content);
        lemma_line_start_unique(text, start as int);
        lemma_line_start_is_line_begin(text, pos as int);
    }
    start
}

/// The offset at which the line of `pos` ends: that of its line feed, or the
/// length of the text on the last line.
pub fn move_line_end(content: &Rope, pos: usize) -> (r: usize)
    requires
        pos <= rope_text(*content).len(),
    ensures
        r == moved_line_end(rope_text(*content), pos as int),
{
    let line = content.char_to_line(pos);
    proof {
        lemma_line_of_bound(rope_text(*content), pos as int);
        lemma_last_line(rope_text(*content), pos as int);
        lemma_line_end(rope_text(*content), pos as int);
    }
    let lines = content.len_lines();
    if line + 1 < lines {
        let next = content.line_to_char(line + 1);
        proof {
            let text = rope_text(*content);
            lemma_line_start_unique(text, next as int);
            lemma_next_line_start(text, pos as int);
        }
        next - 1
    } else {
        content.len_chars()
    }
}

/// The offset on the line above `pos` at the column of `pos`, clamped to that
/// line's length; `pos` itself on the first line.
pub fn move_up(content: &Rope, pos: usize) -> (r: usize)
    requires
        pos <= rope_text(*content).len(),
    ensures
        r == moved_up(rope_text(*content), pos as int),
{
    let line = content.char_to_line(pos);
    proof {
        lemma_first_line(rope_text(*content), pos as int);
    }
    if line > 0 {
        let begin = move_line_start(content, pos);
        proof {
            lemma_line_begin(rope_text(*content), pos as int);
        }
        let above_end = begin - 1;
        let above_begin = move_line_start(content, above_end);
        proof {
            lemma_line_begin(rope_text(*content), above_end as int);
        }
        let column = pos - begin;
        let above_len = above_end - above_begin;
        if column <= above_len {
            above_begin + column
        } else {
            above_end
        }
    } else {
        pos
    }
}

/// The offset on the line below `pos` at the column of `pos`, clamped to that
/// line's length; `pos` itself on the last line.
pub fn move_down(content: &Rope, pos: usize) -> (r: usize)
    requires
        pos <= rope_text(*content).len(),
    ensures
        r == moved_down(rope_text(*content), pos as int),
{
    let end = move_line_end(content, pos);
    if end < content.len_chars() {
        let begin = move_line_start(content, pos);
        proof {
            lemma_line_begin(rope_text(*content), pos as int);
        }
        let below_begin = end + 1;
        let below_end = move_line_end(content, below_begin);
        proof {
            lemma_line_end(rope_text(*content), below_begin as int);
        }
        let column = pos - begin;
        let below_len = below_end - below_begin;
        if column <= below_len {
            below_begin + column
        } else {
            below_end
        }
    } else {
        pos
    }
}

/// The offset to which `movement` takes the cursor from `pos`.
pub fn move_cursor(content: &Rope, pos: usize, movement: CursorMovement) -> (r: usize)
    requires
        pos <= rope_text(*content).len(),
    ensures
        r == moved(rope_text(*content), pos as int, movement),
        r <= rope_text(*content).len(),
{
    proof {
        lemma_moved_in_bounds(rope_text(*content), pos as int, movement);
    }
    match movement {
        CursorMovement::Left => move_left(pos),
        CursorMovement::Right => move_right(content, pos),
        CursorMovement::Up => move_up(content, pos),
        CursorMovement::Down => move_down(content, pos),
        CursorMovement::LineStart => move_line_start(content, pos),
        CursorMovement::LineEnd => move_line_end(content, pos),
    }
}

} // verus!
