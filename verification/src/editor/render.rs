//! The visible content: the text to draw for a window, clipped to the
//! window's width and height.
//!
//! Each visible line is cut to the columns of the window. A line that is not
//! the cursor's always ends in a line feed, with the white space in front of
//! it trimmed; the cursor's line is left as it is, so that the caret can be
//! drawn behind its last character.

use super::cursor_movement::line_offset;
use super::lines::{
    is_newline, lemma_line_start_ordered, line_count, line_of, line_start,
};
use super::rope::rope_text;
use super::scroll::{clamped_sub, min_int};
use crate::utils::text::trimmed_end;
use ropey::Rope;
use vstd::prelude::*;

verus! {

/// The characters of line `line`, its line feed included.
pub open spec fn line_text(text: Seq<char>, line: nat) -> Seq<char> {
    text.subrange(line_start(text, line), line_start(text, line + 1))
}

/// The part of `line` that falls into the window's columns: at most `width`
/// characters, from column `scroll_x` or, where the line is shorter than
/// that, from its last character.
pub open spec fn clipped(line: Seq<char>, scroll_x: int, width: int) -> Seq<char> {
    let start = min_int(scroll_x, clamped_sub(line.len() as int, 1));
    line.subrange(start, min_int(start + width, line.len() as int))
}

/// Whether `line` ends in a line feed that lies behind the window's last
/// column.
pub open spec fn newline_cut_off(line: Seq<char>, scroll_x: int, width: int) -> bool {
    line.len() > 0 && is_newline(line.last()) && scroll_x + width < line.len()
}

/// What is drawn for one line. `line` holds the line's characters with its
/// line feed.
pub open spec fn visible_line(
    line: Seq<char>,
    scroll_x: int,
    width: int,
    is_cursor_line: bool,
) -> Seq<char> {
    let shown = clipped(line, scroll_x, width);
    if is_cursor_line {
        if newline_cut_off(line, scroll_x, width) {
            shown.push('\n')
        } else {
            shown
        }
    } else if scroll_x >= clamped_sub(line.len() as int, 1) {
        seq!['\n']
    } else if newline_cut_off(line, scroll_x, width) {
        shown.push('\n')
    } else {
        trimmed_end(shown).push('\n')
    }
}

/// What is drawn for the lines from `from` up to, not including, `to`.
pub open spec fn visible_lines(
    text: Seq<char>,
    cursor_line: int,
    scroll_x: int,
    width: int,
    from: int,
    to: int,
) -> Seq<char>
    decreases to - from,
{
    if from >= to {
        Seq::empty()
    } else {
        visible_lines(text, cursor_line, scroll_x, width, from, to - 1) + visible_line(
            line_text(text, (to - 1) as nat),
            scroll_x,
            width,
            to - 1 == cursor_line,
        )
    }
}

/// What is drawn for a window of `width` columns and `height` lines whose
/// first cell shows column `scroll.0` of line `scroll.1`: the lines from
/// `scroll.1` on, as many as the window is high and the text has.
pub open spec fn visible_content(
    text: Seq<char>,
    cursor_pos: int,
    scroll: (int, int),
    width: int,
    height: int,
) -> Seq<char> {
    visible_lines(
        text,
        line_of(text, cursor_pos) as int,
        scroll.0,
        width,
        scroll.1,
        min_int(line_count(text) as int, scroll.1 + height),
    )
}

/// The part of a line that is drawn is no wider than the window.
pub proof fn lemma_clipped_width(line: Seq<char>, scroll_x: int, width: int)
    requires
        0 <= scroll_x,
        0 <= width,
    ensures
        clipped(line, scroll_x, width).len() <= width,
        clipped(line, scroll_x, width).len() <= line.len(),
{
}

/// What is drawn for a line away from the cursor ends in a line feed.
pub proof fn lemma_visible_line_ends_in_newline(line: Seq<char>, scroll_x: int, width: int)
    requires
        0 <= scroll_x,
        0 <= width,
    ensures
        visible_line(line, scroll_x, width, false).len() > 0,
        visible_line(line, scroll_x, width, false).last() == '\n',
{
}

/// Appends the characters of `content` at the offsets from `from` up to, not
/// including, `to`.
fn push_range(out: &mut String, content: &Rope, from: usize, to: usize)
    requires
        from <= to <= rope_text(*content).len(),
    ensures
        final(out)@ == old(out)@ + rope_text(*content).subrange(from as int, to as int),
{
    let mut i = from;
    while i < to
        invariant
            from <= i <= to <= rope_text(*content).len(),
            out@ == old(out)@ + rope_text(*content).subrange(from as int, i as int),
        decreases to - i,
    {
        out.push(content.char(i));
        i = i + 1;
    }
}

/// The offset behind the last character that is not white space, among the
/// characters of `content` at the offsets from `from` up to `to`.
fn trim_end(content: &Rope, from: usize, to: usize) -> (end: usize)
    requires
        from <= to <= rope_text(*content).len(),
    ensures
        from <= end <= to,
        rope_text(*content).subrange(from as int, end as int) == trimmed_end(
            rope_text(*content).subrange(from as int, to as int),
        ),
{
    let mut end = to;
    while end > from && content.char(end - 1).is_whitespace()
        invariant
            from <= end <= to <= rope_text(*content).len(),
            trimmed_end(rope_text(*content).subrange(from as int, end as int)) == trimmed_end(
                rope_text(*content).subrange(from as int, to as int),
            ),
        decreases end,
    {
        proof {
            let s = rope_text(*content).subrange(from as int, end as int);
            assert(s.drop_last() =~= rope_text(*content).subrange(from as int, end - 1));
        }
        end = end - 1;
    }
    end
}

/// Appends what is drawn for the line that begins at offset `begin` and ends,
/// its line feed included, in front of offset `end`.
fn push_visible_line(
    out: &mut String,
    content: &Rope,
    begin: usize,
    end: usize,
    scroll_x: usize,
    width: usize,
    is_cursor_line: bool,
)
    requires
        begin <= end <= rope_text(*content).len(),
    ensures
        final(out)@ == old(out)@ + visible_line(
            rope_text(*content).subrange(begin as int, end as int),
            scroll_x as int,
            width as int,
            is_cursor_line,
        ),
{
    let ghost line = rope_text(*content).subrange(begin as int, end as int);
    let len = end - begin;
    let last = len.saturating_sub(1);
    let start = if scroll_x <= last {
        scroll_x
    } else {
        last
    };
    let shown_len = if width <= len - start {
        width
    } else {
        len - start
    };
    let from = begin + start;
    let to = from + shown_len;
    let cut_off = len > 0 && content.char(end - 1) == '\n' && match scroll_x.checked_add(width) {
        Some(limit) => limit < len,
        None => false,
    };
    proof {
        assert(clipped(line, scroll_x as int, width as int) =~= rope_text(*content).subrange(
            from as int,
            to as int,
        ));
    }
    if is_cursor_line {
        push_range(out, content, from, to);
        if cut_off {
            out.push('\n');
        }
    } else if scroll_x >= last {
        out.push('\n');
    } else if cut_off {
        push_range(out, content, from, to);
        out.push('\n');
    } else {
        let trimmed = trim_end(content, from, to);
        push_range(out, content, from, trimmed);
        out.push('\n');
    }
}

/// The text to draw for the window `viewport` (width, height) over `content`,
/// scrolled to `scroll` (column, line), with the cursor at `cursor_pos`.
pub fn render_visible(
    content: &Rope,
    cursor_pos: usize,
    scroll: (usize, usize),
    viewport: (usize, usize),
) -> (out: String)
    requires
        cursor_pos <= rope_text(*content).len(),
    ensures
        out@ == visible_content(
            rope_text(*content),
            cursor_pos as int,
            (scroll.0 as int, scroll.1 as int),
            viewport.0 as int,
            viewport.1 as int,
        ),
{
    let ghost text = rope_text(*content);
    let cursor_line = content.char_to_line(cursor_pos);
    let lines = content.len_lines();
    let window_end = scroll.1.saturating_add(viewport.1);
    let last = if lines <= window_end {
        lines
    } else {
        window_end
    };
    let mut out = String::new();
    let mut line = scroll.1;
    while line < last
        invariant
            text == rope_text(*content),
            lines == line_count(text),
            last <= lines,
            scroll.1 <= line,
            line <= last || line == scroll.1,
            out@ == visible_lines(
                text,
                cursor_line as int,
                scroll.0 as int,
                viewport.0 as int,
                scroll.1 as int,
                line as int,
            ),
        decreases last - line,
    {
        let begin = line_offset(content, line);
        let end = line_offset(content, line + 1);
        proof {
            lemma_line_start_ordered(text, line as nat);
        }
        push_visible_line(
            &mut out,
            content,
            begin,
            end,
            scroll.0,
            viewport.0,
            line == cursor_line,
        );
        line = line + 1;
    }
    out
}

} // verus!
