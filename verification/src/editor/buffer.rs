//! A document: one editable text with its cursor, scroll offset,
//! modification flag and selection anchor.

use super::cursor_movement::{
    lemma_moved_in_bounds, lemma_up_then_down, lemma_up_then_down_column,
    line_offset, move_cursor, move_line_start, moved, CursorMovement,
};
use super::lines::{
    column_of, lemma_first_line, lemma_line_begin, lemma_line_start_ordered, line_count,
    line_len_at, line_of, line_start,
};
use super::render::{render_visible, visible_content};
use super::rope::{rope_remove, rope_slice, rope_text};
use super::scroll::{
    clamped_sub, lemma_scrolled_at_most_cursor, lemma_scrolled_contains_cursor,
    lemma_scrolled_idempotent, min_int, scroll_axis, scrolled, HORIZONTAL_PADDING,
    VERTICAL_PADDING,
};
use super::selection::{line_spans, span_views, split_line, Span, SpanView};
use ropey::Rope;
use vstd::prelude::*;
use vstd::string::StrSliceExecFns;
use vstd::utf8::encode_utf8;

verus! {

/// What a document is, as plain values.
pub struct BufferView {
    /// The characters of the document.
    pub text: Seq<char>,
    /// The cursor, a character offset into `text`.
    pub cursor_pos: int,
    /// First visible column and first visible line.
    pub scroll_offset: (int, int),
    /// Whether the text was changed since it was loaded or saved.
    pub is_modified: bool,
    /// The fixed end of the selection, where there is one.
    pub selection_start: Option<int>,
}

impl BufferView {
    /// The cursor and the selection anchor lie inside the text, and the
    /// scroll offset is not negative.
    pub open spec fn wf(self) -> bool {
        &&& 0 <= self.cursor_pos <= self.text.len()
        &&& 0 <= self.scroll_offset.0
        &&& 0 <= self.scroll_offset.1
        &&& self.selection_start matches Some(anchor) ==> 0 <= anchor <= self.text.len()
    }

    /// An empty, unmodified document with the cursor at offset 0.
    pub open spec fn empty() -> BufferView {
        BufferView::loaded(Seq::empty())
    }

    /// A freshly loaded document: the given text, unmodified, the cursor at
    /// offset 0, nothing selected, nothing scrolled.
    pub open spec fn loaded(text: Seq<char>) -> BufferView {
        BufferView {
            text,
            cursor_pos: 0,
            scroll_offset: (0, 0),
            is_modified: false,
            selection_start: None,
        }
    }

    /// Offset of the cursor in bytes, in the UTF-8 form of the text.
    pub open spec fn cursor_byte(self) -> int {
        encode_utf8(self.text.take(self.cursor_pos)).len() as int
    }

    /// Index of the line the cursor is on.
    pub open spec fn cursor_line(self) -> int {
        line_of(self.text, self.cursor_pos) as int
    }

    /// Column of the cursor within its line.
    pub open spec fn cursor_column(self) -> int {
        column_of(self.text, self.cursor_pos)
    }

    /// The window begins at or before the cursor: the scroll offset exceeds
    /// neither the cursor's column nor its line. It holds after every
    /// recomputation of the scroll offset.
    pub open spec fn scroll_bounded(self) -> bool {
        &&& self.scroll_offset.0 <= self.cursor_column()
        &&& self.scroll_offset.1 <= self.cursor_line()
    }

    /// What is drawn of the document in a window of `width` columns and
    /// `height` lines.
    pub open spec fn visible(self, width: int, height: int) -> Seq<char> {
        visible_content(self.text, self.cursor_pos, self.scroll_offset, width, height)
    }

    /// Document offset of the first character drawn in row `row` of the
    /// window; the length of the text for a row behind the last line.
    pub open spec fn row_offset(self, row: int) -> int {
        let line = self.scroll_offset.1 + row;
        if line < line_count(self.text) {
            let begin = line_start(self.text, line as nat);
            let len = line_start(self.text, (line + 1) as nat) - begin;
            begin + min_int(self.scroll_offset.0, clamped_sub(len, 1))
        } else {
            self.text.len() as int
        }
    }

    /// The spans of `line`, the text drawn in row `row` of the window.
    pub open spec fn row_spans(self, row: int, line: Seq<char>) -> Seq<SpanView> {
        line_spans(line, self.row_offset(row), self.selection())
    }

    /// The document after `s` was inserted at the cursor: the cursor stands
    /// behind what was inserted.
    pub open spec fn inserted(self, s: Seq<char>) -> BufferView {
        BufferView {
            text: self.text.take(self.cursor_pos) + s + self.text.skip(self.cursor_pos),
            cursor_pos: self.cursor_pos + s.len(),
            is_modified: true,
            ..self
        }
    }

    /// The document after the character in front of the cursor was deleted;
    /// unchanged with the cursor at offset 0. An anchor that would fall behind
    /// the end of the shortened text moves to its end.
    pub open spec fn deleted_backward(self) -> BufferView {
        if self.cursor_pos > 0 {
            BufferView {
                text: self.text.remove(self.cursor_pos - 1),
                cursor_pos: self.cursor_pos - 1,
                is_modified: true,
                selection_start: match self.selection_start {
                    Some(anchor) => Some(
                        if anchor >= self.text.len() {
                            self.text.len() - 1
                        } else {
                            anchor
                        },
                    ),
                    None => None,
                },
                ..self
            }
        } else {
            self
        }
    }

    /// The document after the cursor made `movement`.
    pub open spec fn moved(self, movement: CursorMovement) -> BufferView {
        BufferView { cursor_pos: moved(self.text, self.cursor_pos, movement), ..self }
    }

    /// The document with the selection anchored at the cursor.
    pub open spec fn anchored(self) -> BufferView {
        BufferView { selection_start: Some(self.cursor_pos), ..self }
    }

    /// The document with nothing selected.
    pub open spec fn unanchored(self) -> BufferView {
        BufferView { selection_start: None, ..self }
    }

    /// The selected range: from the smaller of anchor and cursor up to, not
    /// including, the greater.
    pub open spec fn selection(self) -> Option<(int, int)> {
        match self.selection_start {
            Some(anchor) => Some(
                if anchor <= self.cursor_pos {
                    (anchor, self.cursor_pos)
                } else {
                    (self.cursor_pos, anchor)
                },
            ),
            None => None,
        }
    }

    /// The selected characters.
    pub open spec fn selected_text(self) -> Option<Seq<char>> {
        match self.selection() {
            Some((start, end)) => Some(self.text.subrange(start, end)),
            None => None,
        }
    }

    /// The document after the selected range was removed: the cursor stands
    /// where the range began and nothing is selected. Unchanged where nothing
    /// was selected.
    pub open spec fn selection_deleted(self) -> BufferView {
        match self.selection() {
            Some((start, end)) => BufferView {
                text: self.text.take(start) + self.text.skip(end),
                cursor_pos: start,
                is_modified: true,
                selection_start: None,
                ..self
            },
            None => self,
        }
    }

    /// The document after its scroll offset was recomputed for a window of
    /// `width` columns and `height` lines.
    pub open spec fn rescrolled(self, width: int, height: int) -> BufferView {
        BufferView {
            scroll_offset: (
                scrolled(
                    self.scroll_offset.0,
                    self.cursor_column(),
                    width,
                    HORIZONTAL_PADDING as int,
                ),
                scrolled(self.scroll_offset.1, self.cursor_line(), height, VERTICAL_PADDING as int),
            ),
            ..self
        }
    }

    /// The document after it was saved.
    pub open spec fn saved(self) -> BufferView {
        BufferView { is_modified: false, ..self }
    }
}

/// One open document.
pub struct Buffer {
    content: Rope,
    cursor_pos: usize,
    scroll_offset: (usize, usize),
    is_modified: bool,
    selection_start: Option<usize>,
}

impl View for Buffer {
    type V = BufferView;

    closed spec fn view(&self) -> BufferView {
        BufferView {
            text: rope_text(self.content),
            cursor_pos: self.cursor_pos as int,
            scroll_offset: (self.scroll_offset.0 as int, self.scroll_offset.1 as int),
            is_modified: self.is_modified,
            selection_start: match self.selection_start {
                Some(anchor) => Some(anchor as int),
                None => None,
            },
        }
    }
}

impl Buffer {
    /// The invariant of a document: see [`BufferView::wf`].
    pub open spec fn wf(&self) -> bool {
        self@.wf()
    }

    /// An empty document.
    pub fn new() -> (buffer: Buffer)
        ensures
            buffer.wf(),
            buffer@ == BufferView::empty(),
            buffer@.scroll_bounded(),
    {
        Buffer {
            content: Rope::new(),
            cursor_pos: 0,
            scroll_offset: (0, 0),
            is_modified: false,
            selection_start: None,
        }
    }

    /// A document that holds `text`, as after loading it.
    pub fn from_text(text: &str) -> (buffer: Buffer)
        ensures
            buffer.wf(),
            buffer@ == BufferView::loaded(text@),
            buffer@.scroll_bounded(),
    {
        Buffer {
            content: Rope::from_str(text),
            cursor_pos: 0,
            scroll_offset: (0, 0),
            is_modified: false,
            selection_start: None,
        }
    }

    /// The rope that holds the text.
    pub fn content(&self) -> (rope: &Rope)
        ensures
            rope_text(*rope) == self@.text,
    {
        &self.content
    }

    /// The cursor's character offset.
    pub fn cursor_pos(&self) -> (pos: usize)
        ensures
            pos == self@.cursor_pos,
    {
        self.cursor_pos
    }

    /// First visible column and first visible line.
    pub fn scroll_offset(&self) -> (offset: (usize, usize))
        ensures
            offset.0 == self@.scroll_offset.0,
            offset.1 == self@.scroll_offset.1,
    {
        self.scroll_offset
    }

    /// Whether the text was changed since it was loaded or saved.
    pub fn is_modified(&self) -> (modified: bool)
        ensures
            modified == self@.is_modified,
    {
        self.is_modified
    }

    /// The selection anchor, where there is one.
    pub fn selection_start(&self) -> (anchor: Option<usize>)
        ensures
            anchor is Some == self@.selection_start is Some,
            anchor matches Some(a) ==> self@.selection_start == Some(a as int),
    {
        self.selection_start
    }

    /// Number of characters of the text.
    pub fn len_chars(&self) -> (n: usize)
        ensures
            n == self@.text.len(),
    {
        self.content.len_chars()
    }

    /// Number of lines of the text.
    pub fn len_lines(&self) -> (n: usize)
        ensures
            n == line_count(self@.text),
    {
        self.content.len_lines()
    }

    /// The whole text as a string.
    pub fn to_string(&self) -> (s: String)
        ensures
            s@ == self@.text,
    {
        rope_slice(&self.content, 0, self.content.len_chars())
    }

    /// Inserts `c` at the cursor and moves the cursor behind it.
    pub fn insert_char(&mut self, c: char)
        requires
            old(self).wf(),
        ensures
            final(self).wf(),
            final(self)@ == old(self)@.inserted(seq![c]),
    {
        self.content.insert_char(self.cursor_pos, c);
        // The length of the longer text fits a machine word, so the new
        // cursor does.
        let _len = self.content.len_chars();
        self.cursor_pos = self.cursor_pos + 1;
        self.is_modified = true;
        assert(self@.text =~= old(self)@.inserted(seq![c]).text);
    }

    /// Inserts `s` at the cursor and moves the cursor behind it.
    pub fn insert_str(&mut self, s: &str)
        requires
            old(self).wf(),
        ensures
            final(self).wf(),
            final(self)@ == old(self)@.inserted(s@),
    {
        self.content.insert(self.cursor_pos, s);
        // The length of the longer text fits a machine word, so the new
        // cursor does.
        let _len = self.content.len_chars();
        let added = s.unicode_len();
        self.cursor_pos = self.cursor_pos + added;
        self.is_modified = true;
    }

    /// Deletes the character in front of the cursor, if there is one.
    pub fn delete_backward(&mut self)
        requires
            old(self).wf(),
        ensures
            final(self).wf(),
            final(self)@ == old(self)@.deleted_backward(),
    {
        if self.cursor_pos > 0 {
            let len = self.content.len_chars();
            rope_remove(&mut self.content, self.cursor_pos - 1, self.cursor_pos);
            self.cursor_pos = self.cursor_pos - 1;
            self.is_modified = true;
            if let Some(anchor) = self.selection_start {
                if anchor >= len {
                    self.selection_start = Some(len - 1);
                }
            }
        }
    }

    /// Moves the cursor.
    pub fn move_cursor(&mut self, movement: CursorMovement)
        requires
            old(self).wf(),
        ensures
            final(self).wf(),
            final(self)@ == old(self)@.moved(movement),
    {
        self.cursor_pos = move_cursor(&self.content, self.cursor_pos, movement);
    }

    /// Anchors the selection at the cursor.
    pub fn start_selection(&mut self)
        requires
            old(self).wf(),
        ensures
            final(self).wf(),
            final(self)@ == old(self)@.anchored(),
    {
        self.selection_start = Some(self.cursor_pos);
    }

    /// Drops the selection anchor.
    pub fn clear_selection(&mut self)
        requires
            old(self).wf(),
        ensures
            final(self).wf(),
            final(self)@ == old(self)@.unanchored(),
    {
        self.selection_start = None;
    }

    /// The selected range, where there is an anchor.
    pub fn get_selection(&self) -> (range: Option<(usize, usize)>)
        requires
            self.wf(),
        ensures
            range is Some == self@.selection() is Some,
            range matches Some((start, end)) ==> self@.selection() == Some(
                (start as int, end as int),
            ) && start <= end <= self@.text.len(),
    {
        match self.selection_start {
            Some(anchor) => {
                if anchor <= self.cursor_pos {
                    Some((anchor, self.cursor_pos))
                } else {
                    Some((self.cursor_pos, anchor))
                }
            },
            None => None,
        }
    }

    /// The selected characters, where there is an anchor.
    pub fn copy_selection(&self) -> (copied: Option<String>)
        requires
            self.wf(),
        ensures
            copied is Some == self@.selected_text() is Some,
            copied matches Some(s) ==> self@.selected_text() == Some(s@),
    {
        match self.get_selection() {
            Some((start, end)) => Some(rope_slice(&self.content, start, end)),
            None => None,
        }
    }

    /// Removes the selected range, if there is an anchor.
    pub fn delete_selection(&mut self)
        requires
            old(self).wf(),
        ensures
            final(self).wf(),
            final(self)@ == old(self)@.selection_deleted(),
    {
        match self.get_selection() {
            Some((start, end)) => {
                rope_remove(&mut self.content, start, end);
                self.cursor_pos = start;
                self.is_modified = true;
                self.selection_start = None;
            },
            None => {},
        }
    }

    /// Offset of the cursor in bytes, in the UTF-8 form of the text.
    pub fn cursor_byte(&self) -> (byte: usize)
        requires
            self.wf(),
        ensures
            byte == self@.cursor_byte(),
    {
        self.content.char_to_byte(self.cursor_pos)
    }

    /// Line and column of the cursor.
    pub fn cursor_screen_position(&self) -> (position: (usize, usize))
        requires
            self.wf(),
        ensures
            position.0 == self@.cursor_line(),
            position.1 == self@.cursor_column(),
    {
        let line = self.content.char_to_line(self.cursor_pos);
        let begin = move_line_start(&self.content, self.cursor_pos);
        proof {
            lemma_line_begin(self@.text, self@.cursor_pos);
        }
        (line, self.cursor_pos - begin)
    }

    /// Recomputes the scroll offset for a window of the given width and
    /// height.
    pub fn scroll(&mut self, viewport: (usize, usize))
        requires
            old(self).wf(),
        ensures
            final(self).wf(),
            final(self)@ == old(self)@.rescrolled(viewport.0 as int, viewport.1 as int),
            final(self)@.scroll_bounded(),
    {
        let (line, column) = self.cursor_screen_position();
        let x = scroll_axis(self.scroll_offset.0, column, viewport.0, HORIZONTAL_PADDING);
        let y = scroll_axis(self.scroll_offset.1, line, viewport.1, VERTICAL_PADDING);
        self.scroll_offset = (x, y);
    }

    /// What is drawn of the document in the window `viewport` (width,
    /// height).
    pub fn visible_content(&self, viewport: (usize, usize)) -> (out: String)
        requires
            self.wf(),
        ensures
            out@ == self@.visible(viewport.0 as int, viewport.1 as int),
    {
        render_visible(&self.content, self.cursor_pos, self.scroll_offset, viewport)
    }

    /// Document offset of the first character drawn in row `row` of the
    /// window.
    pub fn row_offset(&self, row: usize) -> (offset: usize)
        requires
            self.wf(),
        ensures
            offset == self@.row_offset(row as int),
    {
        let lines = self.content.len_lines();
        match self.scroll_offset.1.checked_add(row) {
            Some(line) => if line < lines {
                let begin = line_offset(&self.content, line);
                let end = line_offset(&self.content, line + 1);
                proof {
                    lemma_line_start_ordered(self@.text, line as nat);
                }
                let last = (end - begin).saturating_sub(1);
                if self.scroll_offset.0 <= last {
                    begin + self.scroll_offset.0
                } else {
                    begin + last
                }
            } else {
                self.content.len_chars()
            },
            None => self.content.len_chars(),
        }
    }

    /// The spans of `line`, the text drawn in row `row` of the window: the
    /// selected part apart from what stands in front of it and behind it.
    pub fn row_spans(&self, row: usize, line: &str) -> (spans: Vec<Span>)
        requires
            self.wf(),
        ensures
            span_views(spans@) == self@.row_spans(row as int, line@),
    {
        let offset = self.row_offset(row);
        let selection = self.get_selection();
        split_line(line, offset, selection)
    }

    /// Records that the text was saved.
    pub fn mark_saved(&mut self)
        requires
            old(self).wf(),
        ensures
            final(self).wf(),
            final(self)@ == old(self)@.saved(),
    {
        self.is_modified = false;
    }
}

/// One editing step on a document.
pub enum Edit {
    /// Insert these characters at the cursor.
    Insert(Seq<char>),
    /// Delete the character in front of the cursor.
    DeleteBackward,
    /// Delete the selected characters.
    DeleteSelection,
    /// Move the cursor.
    Move(CursorMovement),
    /// Anchor the selection at the cursor.
    Anchor,
    /// Drop the selection anchor.
    Unanchor,
    /// Recompute the scroll offset for a window of this width and height.
    Rescroll(nat, nat),
}

impl BufferView {
    /// The document after one editing step.
    pub open spec fn applied(self, edit: Edit) -> BufferView {
        match edit {
            Edit::Insert(s) => self.inserted(s),
            Edit::DeleteBackward => self.deleted_backward(),
            Edit::DeleteSelection => self.selection_deleted(),
            Edit::Move(movement) => self.moved(movement),
            Edit::Anchor => self.anchored(),
            Edit::Unanchor => self.unanchored(),
            Edit::Rescroll(width, height) => self.rescrolled(width as int, height as int),
        }
    }

    /// The document after a sequence of editing steps, the first one first.
    pub open spec fn applied_all(self, edits: Seq<Edit>) -> BufferView
        decreases edits.len(),
    {
        if edits.len() == 0 {
            self
        } else {
            self.applied_all(edits.drop_last()).applied(edits.last())
        }
    }
}

/// One editing step keeps the cursor and the anchor inside the text.
pub proof fn lemma_edit_keeps_wf(doc: BufferView, edit: Edit)
    requires
        doc.wf(),
    ensures
        doc.applied(edit).wf(),
{
    match edit {
        Edit::Move(movement) => {
            lemma_moved_in_bounds(doc.text, doc.cursor_pos, movement);
        },
        Edit::Rescroll(width, height) => {
        },
        _ => {},
    }
}

/// Cursor validity: after any sequence of editing steps on a well-formed
/// document the cursor lies inside the text.
pub proof fn lemma_edits_keep_cursor_in_bounds(doc: BufferView, edits: Seq<Edit>)
    requires
        doc.wf(),
    ensures
        doc.applied_all(edits).wf(),
        0 <= doc.applied_all(edits).cursor_pos <= doc.applied_all(edits).text.len(),
    decreases edits.len(),
{
    if edits.len() > 0 {
        lemma_edits_keep_cursor_in_bounds(doc, edits.drop_last());
        lemma_edit_keeps_wf(doc.applied_all(edits.drop_last()), edits.last());
    }
}

/// After the scroll offset was recomputed the window begins at or before the
/// cursor.
pub proof fn lemma_rescrolled_bounded(doc: BufferView, width: int, height: int)
    requires
        doc.wf(),
    ensures
        doc.rescrolled(width, height).wf(),
        doc.rescrolled(width, height).scroll_bounded(),
{
    lemma_line_begin(doc.text, doc.cursor_pos);
    lemma_scrolled_at_most_cursor(
        doc.scroll_offset.0,
        doc.cursor_column(),
        width,
        HORIZONTAL_PADDING as int,
    );
    lemma_scrolled_at_most_cursor(
        doc.scroll_offset.1,
        doc.cursor_line(),
        height,
        VERTICAL_PADDING as int,
    );
}

/// Idempotence of the scroll recomputation: a second recomputation changes
/// nothing, along each axis on which the window is wider than both margins
/// together or the cursor lies within the first margin.
pub proof fn lemma_rescrolled_idempotent(doc: BufferView, width: int, height: int)
    requires
        doc.wf(),
        0 <= width,
        0 <= height,
        width > 2 * HORIZONTAL_PADDING || doc.cursor_column() < HORIZONTAL_PADDING,
        height > 2 * VERTICAL_PADDING || doc.cursor_line() < VERTICAL_PADDING,
    ensures
        doc.rescrolled(width, height).rescrolled(width, height) == doc.rescrolled(width, height),
{
    lemma_line_begin(doc.text, doc.cursor_pos);
    lemma_scrolled_idempotent(
        doc.scroll_offset.0,
        doc.cursor_column(),
        width,
        HORIZONTAL_PADDING as int,
    );
    lemma_scrolled_idempotent(
        doc.scroll_offset.1,
        doc.cursor_line(),
        height,
        VERTICAL_PADDING as int,
    );
}

/// Containment: in a window wider and higher than both margins together,
/// after recomputation the cursor keeps the margin from the window's far
/// edges, and from its near edges unless the window shows the beginning.
pub proof fn lemma_rescrolled_contains_cursor(doc: BufferView, width: int, height: int)
    requires
        doc.wf(),
        width > 2 * HORIZONTAL_PADDING,
        height > 2 * VERTICAL_PADDING,
    ensures
        ({
            let after = doc.rescrolled(width, height);
            let row = after.cursor_line() - after.scroll_offset.1;
            let column = after.cursor_column() - after.scroll_offset.0;
            &&& 0 <= row <= height - VERTICAL_PADDING - 1
            &&& 0 <= column <= width - HORIZONTAL_PADDING - 1
            &&& after.scroll_offset.1 == 0 || row >= VERTICAL_PADDING
            &&& after.scroll_offset.0 == 0 || column >= HORIZONTAL_PADDING
        }),
{
    lemma_line_begin(doc.text, doc.cursor_pos);
    lemma_scrolled_contains_cursor(
        doc.scroll_offset.0,
        doc.cursor_column(),
        width,
        HORIZONTAL_PADDING as int,
    );
    lemma_scrolled_contains_cursor(
        doc.scroll_offset.1,
        doc.cursor_line(),
        height,
        VERTICAL_PADDING as int,
    );
}

/// The selection: with an anchor set, the selected range runs from the
/// smaller of anchor and cursor to the greater; deleting it leaves the cursor
/// where the range began, no anchor, and the text shorter by the range.
pub proof fn lemma_selection(doc: BufferView)
    requires
        doc.wf(),
        doc.selection_start is Some,
    ensures
        ({
            let anchor = doc.selection_start->0;
            let start = min_int(anchor, doc.cursor_pos);
            let end = anchor + doc.cursor_pos - start;
            let after = doc.selection_deleted();
            &&& doc.selection() == Some((start, end))
            &&& 0 <= start <= end <= doc.text.len()
            &&& after.wf()
            &&& after.cursor_pos == start
            &&& after.selection_start is None
            &&& after.text.len() == doc.text.len() - (end - start)
            &&& after.text.take(start) == doc.text.take(start)
            &&& after.text.skip(start) == doc.text.skip(end)
        }),
{
    let anchor = doc.selection_start->0;
    let start = min_int(anchor, doc.cursor_pos);
    let end = anchor + doc.cursor_pos - start;
    let after = doc.selection_deleted();
}

/// Up and then down again, on a document: the cursor never comes back at a
/// greater column, and from a line that is not the first it comes back to its
/// line, at its old column unless the line above is shorter than that.
pub proof fn lemma_up_then_down_on_document(doc: BufferView)
    requires
        doc.wf(),
    ensures
        ({
            let back = doc.moved(CursorMovement::Up).moved(CursorMovement::Down);
            &&& back.wf()
            &&& back.cursor_column() <= doc.cursor_column()
            &&& doc.cursor_line() > 0 ==> back.cursor_line() == doc.cursor_line()
            &&& doc.cursor_line() > 0 ==> back.cursor_column() == min_int(
                doc.cursor_column(),
                line_len_at(doc.text, doc.moved(CursorMovement::Up).cursor_pos),
            )
        }),
{
    let up = doc.moved(CursorMovement::Up);
    lemma_moved_in_bounds(doc.text, doc.cursor_pos, CursorMovement::Up);
    lemma_moved_in_bounds(doc.text, up.cursor_pos, CursorMovement::Down);
    lemma_up_then_down_column(doc.text, doc.cursor_pos);
    lemma_first_line(doc.text, doc.cursor_pos);
    if doc.cursor_line() > 0 {
        lemma_up_then_down(doc.text, doc.cursor_pos);
    }
}

} // verus!
