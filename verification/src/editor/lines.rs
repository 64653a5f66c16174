//! The line structure of a text: which line a character offset falls on and
//! where lines begin and end.
//!
//! A text is a sequence of characters. The line feed `'\n'` is the only line
//! break; it belongs to the line that it ends. The text always has one line
//! more than it has line feeds, so a text that ends in a line feed has an empty
//! last line.

use vstd::prelude::*;

verus! {

/// The character that ends a line.
pub open spec fn is_newline(c: char) -> bool {
    c == '\n'
}

/// Number of line feeds in `text`.
pub open spec fn count_newlines(text: Seq<char>) -> nat
    decreases text.len(),
{
    if text.len() == 0 {
        0
    } else {
        count_newlines(text.drop_last()) + if is_newline(text.last()) {
            1nat
        } else {
            0nat
        }
    }
}

/// Number of lines of `text`.
pub open spec fn line_count(text: Seq<char>) -> nat {
    count_newlines(text) + 1
}

/// Index of the line that holds offset `pos`: the number of line feeds in
/// front of `pos`.
pub open spec fn line_of(text: Seq<char>, pos: int) -> nat
    recommends
        0 <= pos <= text.len(),
{
    count_newlines(text.take(pos))
}

/// Offset at which the line that holds `pos` begins: the nearest offset at or
/// before `pos` that is 0 or follows a line feed.
pub open spec fn line_begin(text: Seq<char>, pos: int) -> int
    recommends
        0 <= pos <= text.len(),
    decreases pos,
{
    if pos <= 0 {
        0
    } else if is_newline(text[pos - 1]) {
        pos
    } else {
        line_begin(text, pos - 1)
    }
}

/// Offset at which the line that holds `pos` ends: the nearest offset at or
/// after `pos` that holds a line feed, or the length of the text.
pub open spec fn line_end(text: Seq<char>, pos: int) -> int
    recommends
        0 <= pos <= text.len(),
    decreases text.len() - pos,
{
    if pos < 0 || pos >= text.len() {
        text.len() as int
    } else if is_newline(text[pos]) {
        pos
    } else {
        line_end(text, pos + 1)
    }
}

/// Offset at which line `line` begins. Line 0 begins at 0; each further line
/// begins behind the line feed that ends the line before it. For a line index
/// past the last line this is the length of the text.
pub open spec fn line_start(text: Seq<char>, line: nat) -> int
    decreases line,
{
    if line == 0 {
        0
    } else {
        let end = line_end(text, line_start(text, (line - 1) as nat));
        if end < text.len() {
            end + 1
        } else {
            text.len() as int
        }
    }
}

/// Column of offset `pos`: its distance from the beginning of its line.
pub open spec fn column_of(text: Seq<char>, pos: int) -> int
    recommends
        0 <= pos <= text.len(),
{
    pos - line_begin(text, pos)
}

/// Length of the line that holds `pos`, its line feed not counted.
pub open spec fn line_len_at(text: Seq<char>, pos: int) -> int
    recommends
        0 <= pos <= text.len(),
{
    line_end(text, pos) - line_begin(text, pos)
}

/// No line feed stands at the offsets from `from` up to, not including, `to`.
pub open spec fn no_newline_between(text: Seq<char>, from: int, to: int) -> bool {
    forall|i: int| from <= i < to ==> !is_newline(#[trigger] text[i])
}

/// `pos` is 0 or follows a line feed.
pub open spec fn at_line_start(text: Seq<char>, pos: int) -> bool {
    pos == 0 || (0 < pos <= text.len() && is_newline(text[pos - 1]))
}

pub proof fn lemma_line_of_zero(text: Seq<char>)
    ensures
        line_of(text, 0) == 0,
{
}

pub proof fn lemma_line_of_len(text: Seq<char>)
    ensures
        line_of(text, text.len() as int) == count_newlines(text),
{
    assert(text.take(text.len() as int) =~= text);
}

/// Stepping over one character adds one to the line index exactly when the
/// character is a line feed.
pub proof fn lemma_line_of_step(text: Seq<char>, pos: int)
    requires
        0 <= pos < text.len(),
    ensures
        line_of(text, pos + 1) == line_of(text, pos) + if is_newline(text[pos]) {
            1nat
        } else {
            0nat
        },
{
    let t = text.take(pos + 1);
    assert(t.drop_last() =~= text.take(pos));
}

pub proof fn lemma_line_of_monotonic(text: Seq<char>, p: int, q: int)
    requires
        0 <= p <= q <= text.len(),
    ensures
        line_of(text, p) <= line_of(text, q),
    decreases q - p,
{
    if p < q {
        lemma_line_of_monotonic(text, p, q - 1);
        lemma_line_of_step(text, q - 1);
    }
}

/// Offsets with no line feed between them are on the same line.
pub proof fn lemma_same_line(text: Seq<char>, p: int, q: int)
    requires
        0 <= p <= q <= text.len(),
        no_newline_between(text, p, q),
    ensures
        line_of(text, p) == line_of(text, q),
    decreases q - p,
{
    if p < q {
        lemma_same_line(text, p, q - 1);
        lemma_line_of_step(text, q - 1);
    }
}

/// A line feed between two offsets puts them on different lines.
pub proof fn lemma_newline_separates(text: Seq<char>, p: int, i: int, q: int)
    requires
        0 <= p <= i < q <= text.len(),
        is_newline(text[i]),
    ensures
        line_of(text, p) < line_of(text, q),
{
    lemma_line_of_monotonic(text, p, i);
    lemma_line_of_step(text, i);
    lemma_line_of_monotonic(text, i + 1, q);
}

pub proof fn lemma_line_of_bound(text: Seq<char>, pos: int)
    requires
        0 <= pos <= text.len(),
    ensures
        line_of(text, pos) <= count_newlines(text),
{
    lemma_line_of_monotonic(text, pos, text.len() as int);
    lemma_line_of_len(text);
}

/// What `line_begin` finds: an offset on the line of `pos`, at or before it,
/// that begins the line.
pub proof fn lemma_line_begin(text: Seq<char>, pos: int)
    requires
        0 <= pos <= text.len(),
    ensures
        0 <= line_begin(text, pos) <= pos,
        at_line_start(text, line_begin(text, pos)),
        no_newline_between(text, line_begin(text, pos), pos),
        line_of(text, line_begin(text, pos)) == line_of(text, pos),
    decreases pos,
{
    if pos > 0 && !is_newline(text[pos - 1]) {
        lemma_line_begin(text, pos - 1);
    }
    lemma_same_line(text, line_begin(text, pos), pos);
}

/// What `line_end` finds: an offset on the line of `pos`, at or after it, that
/// holds the line's line feed or is the end of the text.
pub proof fn lemma_line_end(text: Seq<char>, pos: int)
    requires
        0 <= pos <= text.len(),
    ensures
        pos <= line_end(text, pos) <= text.len(),
        line_end(text, pos) == text.len() || is_newline(text[line_end(text, pos)]),
        no_newline_between(text, pos, line_end(text, pos)),
        line_of(text, line_end(text, pos)) == line_of(text, pos),
    decreases text.len() - pos,
{
    if pos < text.len() && !is_newline(text[pos]) {
        lemma_line_end(text, pos + 1);
    }
    lemma_same_line(text, pos, line_end(text, pos));
}

/// The beginning of a line is fixed by any offset on it.
pub proof fn lemma_line_begin_unique(text: Seq<char>, start: int, pos: int)
    requires
        0 <= start <= pos <= text.len(),
        at_line_start(text, start),
        no_newline_between(text, start, pos),
    ensures
        line_begin(text, pos) == start,
    decreases pos - start,
{
    if start < pos {
        lemma_line_begin_unique(text, start, pos - 1);
    }
}

/// The end of a line is fixed by any offset on it.
pub proof fn lemma_line_end_unique(text: Seq<char>, pos: int, end: int)
    requires
        0 <= pos <= end <= text.len(),
        end == text.len() || is_newline(text[end]),
        no_newline_between(text, pos, end),
    ensures
        line_end(text, pos) == end,
    decreases end - pos,
{
    if pos < end {
        lemma_line_end_unique(text, pos + 1, end);
    }
}

/// Two offsets on one line share its beginning and its end.
pub proof fn lemma_same_line_same_bounds(text: Seq<char>, p: int, q: int)
    requires
        0 <= p <= q <= text.len(),
        line_of(text, p) == line_of(text, q),
    ensures
        no_newline_between(text, p, q),
        line_begin(text, p) == line_begin(text, q),
        line_end(text, p) == line_end(text, q),
{
    assert forall|i: int| p <= i < q implies !is_newline(#[trigger] text[i]) by {
        if is_newline(text[i]) {
            lemma_newline_separates(text, p, i, q);
        }
    }
    lemma_line_begin(text, p);
    lemma_line_begin_unique(text, line_begin(text, p), q);
    lemma_line_end(text, q);
    lemma_line_end_unique(text, p, line_end(text, q));
}

/// The first line is the only one that begins at offset 0.
pub proof fn lemma_first_line(text: Seq<char>, pos: int)
    requires
        0 <= pos <= text.len(),
    ensures
        line_of(text, pos) == 0 <==> line_begin(text, pos) == 0,
{
    lemma_line_begin(text, pos);
}

/// The last line is the only one whose end is the end of the text.
pub proof fn lemma_last_line(text: Seq<char>, pos: int)
    requires
        0 <= pos <= text.len(),
    ensures
        line_of(text, pos) == count_newlines(text) <==> line_end(text, pos) == text.len(),
{
    lemma_line_end(text, pos);
    lemma_line_of_len(text);
    let e = line_end(text, pos);
    if e < text.len() {
        lemma_newline_separates(text, pos, e, text.len() as int);
    }
}

/// What `line_start` finds for a line of the text: the offset on that line that
/// begins it.
pub proof fn lemma_line_start(text: Seq<char>, line: nat)
    requires
        line <= count_newlines(text),
    ensures
        0 <= line_start(text, line) <= text.len(),
        at_line_start(text, line_start(text, line)),
        line_of(text, line_start(text, line)) == line,
    decreases line,
{
    if line > 0 {
        let prev = line_start(text, (line - 1) as nat);
        lemma_line_start(text, (line - 1) as nat);
        lemma_line_end(text, prev);
        lemma_last_line(text, prev);
        lemma_line_of_step(text, line_end(text, prev));
    }
}

/// A line begins at or before the line after it.
pub proof fn lemma_line_start_ordered(text: Seq<char>, line: nat)
    ensures
        0 <= line_start(text, line) <= line_start(text, line + 1) <= text.len(),
    decreases line,
{
    if line > 0 {
        lemma_line_start_ordered(text, (line - 1) as nat);
    }
    let start = line_start(text, line);
    lemma_line_end(text, start);
}

/// One past the last line, `line_start` is the length of the text.
pub proof fn lemma_line_start_past_end(text: Seq<char>)
    ensures
        line_start(text, line_count(text)) == text.len(),
{
    let last = count_newlines(text);
    lemma_line_start(text, last);
    lemma_last_line(text, line_start(text, last));
}

/// An offset that begins a line is the `line_start` of its line index.
pub proof fn lemma_line_start_unique(text: Seq<char>, pos: int)
    requires
        0 <= pos <= text.len(),
        at_line_start(text, pos),
    ensures
        line_start(text, line_of(text, pos)) == pos,
    decreases pos,
{
    if pos > 0 {
        let nl = pos - 1;
        let prev = line_begin(text, nl);
        lemma_line_begin(text, nl);
        lemma_line_of_step(text, nl);
        lemma_line_start_unique(text, prev);
        lemma_line_end_unique(text, prev, nl);
    }
}

/// Line index and position agree on where a line begins.
pub proof fn lemma_line_start_is_line_begin(text: Seq<char>, pos: int)
    requires
        0 <= pos <= text.len(),
    ensures
        line_start(text, line_of(text, pos)) == line_begin(text, pos),
{
    lemma_line_begin(text, pos);
    lemma_line_start_unique(text, line_begin(text, pos));
}

/// The line after the one that holds `pos` begins behind that line's line
/// feed, or at the end of the text when there is none.
pub proof fn lemma_next_line_start(text: Seq<char>, pos: int)
    requires
        0 <= pos <= text.len(),
    ensures
        line_start(text, line_of(text, pos) + 1) == if line_end(text, pos) < text.len() {
            line_end(text, pos) + 1
        } else {
            text.len() as int
        },
{
    lemma_line_start_is_line_begin(text, pos);
    lemma_line_begin(text, pos);
    lemma_same_line_same_bounds(text, line_begin(text, pos), pos);
}

} // verus!
