//! The editor: the documents it holds under their keys, which of them is
//! current, the mode and the viewport.

use super::buffer::{Buffer, BufferView};
use super::cursor_movement::CursorMovement;
use super::error::EditorError;
use super::lines::line_count;
use super::mode::Mode;
use super::path::{
    config_directory, get_config_dir, is_scratch_file, is_scratch_path, is_uuid_text,
    new_uuid_text, path_file_name, path_join, resolve_path, resolved_path, scratch_dir,
    scratch_directory, scratch_file_name, scratch_key, text_of,
};
use super::rope::rope_text;
use super::selection::{line_spans, span_views, split_line, Span};
use super::utf8::{lemma_decode_then_encode, string_from_utf8, to_utf8};
use crate::utils::decimal::{decimal, push_decimal};
use ropey::Rope;
use vstd::prelude::*;
use vstd::string::StringExecFns;
use vstd::utf8::{decode_utf8, encode_utf8, valid_utf8};

verus! {

/// What an editor is, as plain values.
pub struct EditorView {
    /// The mode of the editing session.
    pub mode: Mode,
    /// Width and height of the window, in character cells.
    pub viewport: (int, int),
    /// Whether the diagnostic line is shown.
    pub show_debug_info: bool,
    /// The open documents, each under its key.
    pub documents: Map<Seq<char>, BufferView>,
    /// The key of the current document, where there is one.
    pub current_key: Option<Seq<char>>,
    /// The directory against which relative paths are resolved.
    pub starting_directory: Option<Seq<char>>,
}

impl EditorView {
    /// The invariant of an editor: every document is well formed and its
    /// window begins at or before its cursor, the current key names a
    /// document, and outside Visual mode the current document has no
    /// selection anchor.
    pub open spec fn wf(self) -> bool {
        &&& 0 <= self.viewport.0
        &&& 0 <= self.viewport.1
        &&& forall|k: Seq<char>|
            self.documents.dom().contains(k) ==> (#[trigger] self.documents[k]).wf()
        &&& forall|k: Seq<char>|
            self.documents.dom().contains(k) ==> (#[trigger] self.documents[k]).scroll_bounded()
        &&& self.current_key matches Some(k) ==> self.documents.dom().contains(k)
        &&& self.mode != Mode::Visual ==> (self.current() matches Some(doc)
            ==> doc.selection_start is None)
    }

    /// An editor that holds no document: Normal mode, a window of 80 by 24.
    pub open spec fn initial() -> EditorView {
        EditorView {
            mode: Mode::Normal,
            viewport: (80, 24),
            show_debug_info: false,
            documents: Map::empty(),
            current_key: None,
            starting_directory: None,
        }
    }

    /// The current document.
    pub open spec fn current(self) -> Option<BufferView> {
        match self.current_key {
            Some(k) => Some(self.documents[k]),
            None => None,
        }
    }

    /// The editor with `doc` in place of the current document; unchanged
    /// where there is none.
    pub open spec fn with_current(self, doc: BufferView) -> EditorView {
        match self.current_key {
            Some(k) => EditorView { documents: self.documents.insert(k, doc), ..self },
            None => self,
        }
    }

    /// `doc` with its scroll offset recomputed for this editor's window.
    pub open spec fn rescroll(self, doc: BufferView) -> BufferView {
        doc.rescrolled(self.viewport.0, self.viewport.1)
    }

    /// After the scroll offset of the current document was recomputed.
    pub open spec fn scrolled(self) -> EditorView {
        match self.current() {
            Some(doc) => self.with_current(self.rescroll(doc)),
            None => self,
        }
    }

    /// After the window was resized: the scroll offset follows.
    pub open spec fn viewport_set(self, width: int, height: int) -> EditorView {
        EditorView { viewport: (width, height), ..self }.scrolled()
    }

    /// After `s` was inserted at the cursor of the current document: the
    /// scroll offset follows.
    pub open spec fn inserted(self, s: Seq<char>) -> EditorView {
        match self.current() {
            Some(doc) => self.with_current(self.rescroll(doc.inserted(s))),
            None => self,
        }
    }

    /// After the character in front of the cursor was deleted: the scroll
    /// offset follows. Unchanged with the cursor at offset 0.
    pub open spec fn deleted(self) -> EditorView {
        match self.current() {
            Some(doc) => if doc.cursor_pos > 0 {
                self.with_current(self.rescroll(doc.deleted_backward()))
            } else {
                self
            },
            None => self,
        }
    }

    /// After the cursor of the current document made `movement`: the scroll
    /// offset follows.
    pub open spec fn cursor_moved(self, movement: CursorMovement) -> EditorView {
        match self.current() {
            Some(doc) => self.with_current(self.rescroll(doc.moved(movement))),
            None => self,
        }
    }

    /// After the mode was set: leaving Visual mode drops the selection anchor
    /// of the current document.
    pub open spec fn mode_set(self, mode: Mode) -> EditorView {
        let kept = match self.current() {
            Some(doc) => if mode != Mode::Visual {
                self.with_current(doc.unanchored())
            } else {
                self
            },
            None => self,
        };
        EditorView { mode, ..kept }
    }

    /// After Visual mode was entered: the selection is anchored at the
    /// cursor. Unchanged where there is no current document.
    pub open spec fn visual_entered(self) -> EditorView {
        match self.current() {
            Some(doc) => EditorView { mode: Mode::Visual, ..self.with_current(doc.anchored()) },
            None => self,
        }
    }

    /// After Visual mode was left: the anchor is dropped, the text stays.
    /// Unchanged where there is no current document.
    pub open spec fn visual_exited(self) -> EditorView {
        match self.current() {
            Some(doc) => EditorView { mode: Mode::Normal, ..self.with_current(doc.unanchored()) },
            None => self,
        }
    }

    /// After the selection was deleted: the selected characters are gone, the
    /// cursor stands where they began, the scroll offset follows, and the
    /// mode is Normal. Where nothing was selected only the mode changes.
    pub open spec fn selection_deleted(self) -> EditorView {
        let edited = match self.current() {
            Some(doc) => if doc.selection_start is Some {
                self.with_current(self.rescroll(doc.selection_deleted()))
            } else {
                self
            },
            None => self,
        };
        EditorView { mode: Mode::Normal, ..edited }
    }

    /// After a document that holds `text` was opened under `key`: it is the
    /// current document, and takes the place of any document that was open
    /// under that key.
    pub open spec fn opened(self, key: Seq<char>, text: Seq<char>) -> EditorView {
        EditorView {
            documents: self.documents.insert(key, BufferView::loaded(text)),
            current_key: Some(key),
            ..self
        }
    }

    /// After the current document was saved under `key`: it is unmodified and
    /// stored under `key`, and under that key alone. Unchanged where there is
    /// no current document.
    pub open spec fn saved_as(self, key: Seq<char>) -> EditorView {
        match self.current_key {
            Some(k) => EditorView {
                documents: self.documents.remove(k).insert(key, self.documents[k].saved()),
                current_key: Some(key),
                ..self
            },
            None => self,
        }
    }

    /// The diagnostic line.
    pub open spec fn debug_info(self) -> Seq<char> {
        match self.current() {
            Some(doc) => "Cursor: "@ + decimal(doc.cursor_pos as nat) + ", Viewport: ("@ + decimal(
                self.viewport.0 as nat,
            ) + ", "@ + decimal(self.viewport.1 as nat) + "), Scroll: ("@ + decimal(
                doc.scroll_offset.0 as nat,
            ) + ", "@ + decimal(doc.scroll_offset.1 as nat) + "), Content length: "@ + decimal(
                doc.text.len(),
            ) + ", Lines: "@ + decimal(line_count(doc.text)),
            None => "No active buffer"@,
        }
    }

    /// Whether any document is modified.
    pub open spec fn has_unsaved(self) -> bool {
        exists|k: Seq<char>| self.is_unsaved(k)
    }

    /// Whether a modified document is stored under `k`.
    pub open spec fn is_unsaved(self, k: Seq<char>) -> bool {
        self.documents.dom().contains(k) && self.documents[k].is_modified
    }
}

/// Whether `key` is among `keys`.
pub open spec fn has_key(keys: Seq<String>, key: Seq<char>) -> bool {
    exists|i: int| 0 <= i < keys.len() && (#[trigger] keys[i])@ == key
}

/// An index at which `key` is among `keys`.
spec fn key_index(keys: Seq<String>, key: Seq<char>) -> int {
    choose|i: int| 0 <= i < keys.len() && (#[trigger] keys[i])@ == key
}

/// No key occurs twice.
pub open spec fn distinct_keys(keys: Seq<String>) -> bool {
    forall|i: int, j: int|
        0 <= i < j < keys.len() ==> (#[trigger] keys[i])@ != (#[trigger] keys[j])@
}

/// The mapping that the two parallel sequences stand for.
spec fn documents_of(keys: Seq<String>, buffers: Seq<Buffer>) -> Map<
    Seq<char>,
    BufferView,
> {
    Map::new(|k: Seq<char>| has_key(keys, k), |k: Seq<char>| buffers[key_index(keys, k)]@)
}

proof fn lemma_documents_at(keys: Seq<String>, buffers: Seq<Buffer>, i: int)
    requires
        distinct_keys(keys),
        keys.len() == buffers.len(),
        0 <= i < keys.len(),
    ensures
        has_key(keys, keys[i]@),
        key_index(keys, keys[i]@) == i,
        documents_of(keys, buffers).dom().contains(keys[i]@),
        documents_of(keys, buffers)[keys[i]@] == buffers[i]@,
{
    assert(has_key(keys, keys[i]@));
    let j = key_index(keys, keys[i]@);
    assert(0 <= j < keys.len() && keys[j]@ == keys[i]@);
    if j < i {
        assert(keys[j]@ != keys[i]@);
    } else if i < j {
        assert(keys[i]@ != keys[j]@);
    }
}

proof fn lemma_documents_update(keys: Seq<String>, buffers: Seq<Buffer>, i: int, buffer: Buffer)
    requires
        distinct_keys(keys),
        keys.len() == buffers.len(),
        0 <= i < keys.len(),
    ensures
        documents_of(keys, buffers.update(i, buffer)) == documents_of(keys, buffers).insert(
            keys[i]@,
            buffer@,
        ),
{
    let updated = documents_of(keys, buffers.update(i, buffer));
    let inserted = documents_of(keys, buffers).insert(keys[i]@, buffer@);
    lemma_documents_at(keys, buffers, i);
    assert forall|k: Seq<char>| updated.dom().contains(k) implies #[trigger] updated[k]
        == inserted[k] by {
        let j = key_index(keys, k);
        lemma_documents_at(keys, buffers, j);
    }
    assert(updated =~= inserted);
}

proof fn lemma_documents_push(keys: Seq<String>, buffers: Seq<Buffer>, key: String, buffer: Buffer)
    requires
        distinct_keys(keys),
        keys.len() == buffers.len(),
        !has_key(keys, key@),
    ensures
        distinct_keys(keys.push(key)),
        documents_of(keys.push(key), buffers.push(buffer)) == documents_of(keys, buffers).insert(
            key@,
            buffer@,
        ),
{
    let keys2 = keys.push(key);
    let buffers2 = buffers.push(buffer);
    assert forall|i: int, j: int| 0 <= i < j < keys2.len() implies (#[trigger] keys2[i])@ != (
    #[trigger] keys2[j])@ by {
        if j == keys.len() {
            assert(keys[i]@ != key@);
        } else {
            assert(keys[i]@ != keys[j]@);
        }
    }
    let pushed = documents_of(keys2, buffers2);
    let inserted = documents_of(keys, buffers).insert(key@, buffer@);
    assert forall|k: Seq<char>| pushed.dom().contains(k) <==> inserted.dom().contains(k) by {
        if has_key(keys2, k) {
            let j = key_index(keys2, k);
            if j < keys.len() {
                assert(keys[j]@ == k);
            }
        }
        if has_key(keys, k) {
            let j = key_index(keys, k);
            assert(keys2[j]@ == k);
        }
        if k == key@ {
            assert(keys2[keys.len() as int]@ == k);
        }
    }
    assert forall|k: Seq<char>| pushed.dom().contains(k) implies #[trigger] pushed[k]
        == inserted[k] by {
        let j = key_index(keys2, k);
        lemma_documents_at(keys2, buffers2, j);
        if j < keys.len() {
            lemma_documents_at(keys, buffers, j);
        }
    }
    assert(pushed =~= inserted);
}

proof fn lemma_documents_remove(keys: Seq<String>, buffers: Seq<Buffer>, i: int)
    requires
        distinct_keys(keys),
        keys.len() == buffers.len(),
        0 <= i < keys.len(),
    ensures
        distinct_keys(keys.remove(i)),
        !has_key(keys.remove(i), keys[i]@),
        documents_of(keys.remove(i), buffers.remove(i)) == documents_of(keys, buffers).remove(
            keys[i]@,
        ),
{
    let keys2 = keys.remove(i);
    let buffers2 = buffers.remove(i);
    assert forall|a: int, b: int| 0 <= a < b < keys2.len() implies (#[trigger] keys2[a])@ != (
    #[trigger] keys2[b])@ by {
        let a1 = if a < i {
            a
        } else {
            a + 1
        };
        let b1 = if b < i {
            b
        } else {
            b + 1
        };
        assert(keys[a1]@ != keys[b1]@);
    }
    if has_key(keys2, keys[i]@) {
        let j = key_index(keys2, keys[i]@);
        let j1 = if j < i {
            j
        } else {
            j + 1
        };
        if j1 < i {
            assert(keys[j1]@ != keys[i]@);
        } else {
            assert(keys[i]@ != keys[j1]@);
        }
    }
    let removed = documents_of(keys2, buffers2);
    let expected = documents_of(keys, buffers).remove(keys[i]@);
    assert forall|k: Seq<char>| removed.dom().contains(k) <==> expected.dom().contains(k) by {
        if has_key(keys2, k) {
            let j = key_index(keys2, k);
            let j1 = if j < i {
                j
            } else {
                j + 1
            };
            assert(keys[j1]@ == k);
        }
        if has_key(keys, k) && k != keys[i]@ {
            let j = key_index(keys, k);
            let j2 = if j < i {
                j
            } else {
                j - 1
            };
            assert(keys2[j2]@ == k);
        }
    }
    assert forall|k: Seq<char>| removed.dom().contains(k) implies #[trigger] removed[k]
        == expected[k] by {
        let j = key_index(keys2, k);
        lemma_documents_at(keys2, buffers2, j);
        let j1 = if j < i {
            j
        } else {
            j + 1
        };
        lemma_documents_at(keys, buffers, j1);
    }
    assert(removed =~= expected);
}

proof fn lemma_documents_rekey(keys: Seq<String>, buffers: Seq<Buffer>, i: int, key: String)
    requires
        distinct_keys(keys),
        keys.len() == buffers.len(),
        0 <= i < keys.len(),
        forall|j: int| 0 <= j < keys.len() && j != i ==> (#[trigger] keys[j])@ != key@,
    ensures
        distinct_keys(keys.update(i, key)),
        documents_of(keys.update(i, key), buffers) == documents_of(keys, buffers).remove(
            keys[i]@,
        ).insert(key@, buffers[i]@),
{
    let keys2 = keys.update(i, key);
    assert forall|a: int, b: int| 0 <= a < b < keys2.len() implies (#[trigger] keys2[a])@ != (
    #[trigger] keys2[b])@ by {
        if a == i {
            assert(keys[b]@ != key@);
        } else if b == i {
            assert(keys[a]@ != key@);
        } else {
            assert(keys[a]@ != keys[b]@);
        }
    }
    let rekeyed = documents_of(keys2, buffers);
    let expected = documents_of(keys, buffers).remove(keys[i]@).insert(key@, buffers[i]@);
    assert forall|k: Seq<char>| rekeyed.dom().contains(k) <==> expected.dom().contains(k) by {
        if has_key(keys2, k) {
            let j = key_index(keys2, k);
            if j != i {
                assert(keys[j]@ == k);
                lemma_documents_at(keys, buffers, j);
                lemma_documents_at(keys, buffers, i);
            }
        }
        if has_key(keys, k) && k != keys[i]@ {
            let j = key_index(keys, k);
            assert(keys2[j]@ == k);
        }
        if k == key@ {
            assert(keys2[i]@ == k);
        }
    }
    assert forall|k: Seq<char>| rekeyed.dom().contains(k) implies #[trigger] rekeyed[k]
        == expected[k] by {
        let j = key_index(keys2, k);
        lemma_documents_at(keys2, buffers, j);
        lemma_documents_at(keys, buffers, j);
        lemma_documents_at(keys, buffers, i);
    }
    assert(rekeyed =~= expected);
}

/// The editor: open documents, the current one, mode and viewport.
///
/// The documents are kept in two vectors in step, a key and its document at
/// the same index, with no key twice: the current document is changed in
/// place and the documents are gone through one by one, which a map from
/// strings whose behaviour is known to the verifier does not offer.
pub struct Editor {
    mode: Mode,
    viewport: (usize, usize),
    show_debug_info: bool,
    keys: Vec<String>,
    buffers: Vec<Buffer>,
    current_buffer: Option<usize>,
    starting_directory: Option<String>,
}

impl View for Editor {
    type V = EditorView;

    closed spec fn view(&self) -> EditorView {
        EditorView {
            mode: self.mode,
            viewport: (self.viewport.0 as int, self.viewport.1 as int),
            show_debug_info: self.show_debug_info,
            documents: documents_of(self.keys@, self.buffers@),
            current_key: match self.current_buffer {
                Some(i) => Some(self.keys[i as int]@),
                None => None,
            },
            starting_directory: match self.starting_directory {
                Some(dir) => Some(dir@),
                None => None,
            },
        }
    }
}

impl Editor {
    /// How the documents are held: one key for each document, no key twice,
    /// the current index inside the store.
    pub closed spec fn stored(&self) -> bool {
        &&& self.keys.len() == self.buffers.len()
        &&& distinct_keys(self.keys@)
        &&& self.current_buffer matches Some(i) ==> i < self.keys.len()
    }

    /// The invariant of an editor: see [`EditorView::wf`]. Every editor that
    /// the functions of this type hand out satisfies it.
    pub closed spec fn wf(&self) -> bool {
        &&& self.stored()
        &&& self@.wf()
    }

    /// A well-formed editor has a well-formed view.
    pub proof fn lemma_wf(&self)
        requires
            self.wf(),
        ensures
            self@.wf(),
    {
    }

    /// Replacing the current document changes the view at the current key and
    /// nowhere else.
    proof fn lemma_replace_current(before: &Editor, after: &Editor)
        requires
            before.wf(),
            before.current_buffer is Some,
            after.current_buffer == before.current_buffer,
            after.keys == before.keys,
            after.viewport == before.viewport,
            after.show_debug_info == before.show_debug_info,
            after.starting_directory == before.starting_directory,
            after.buffers@ == before.buffers@.update(
                before.current_buffer->0 as int,
                after.buffers[before.current_buffer->0 as int],
            ),
            after.buffers[before.current_buffer->0 as int].wf(),
            after.buffers[before.current_buffer->0 as int]@.scroll_bounded(),
            after.mode != Mode::Visual ==> after.buffers[before.current_buffer->0 as int]@
                .selection_start is None,
        ensures
            after.wf(),
            after@ == (EditorView {
                mode: after.mode,
                ..before@.with_current(after.buffers[before.current_buffer->0 as int]@)
            }),
    {
        let i = before.current_buffer->0 as int;
        lemma_documents_update(before.keys@, before.buffers@, i, after.buffers[i]);
        lemma_documents_at(before.keys@, before.buffers@, i);
        assert forall|k: Seq<char>| after@.documents.dom().contains(k) implies (
        #[trigger] after@.documents[k]).wf() && after@.documents[k].scroll_bounded() by {
            if k != before.keys[i]@ {
                assert(before@.documents.dom().contains(k));
            }
        }
    }

    /// An editor that holds no document.
    pub fn new() -> (editor: Editor)
        ensures
            editor.wf(),
            editor@ == EditorView::initial(),
    {
        let editor = Editor {
            mode: Mode::Normal,
            viewport: (80, 24),
            show_debug_info: false,
            keys: Vec::new(),
            buffers: Vec::new(),
            current_buffer: None,
            starting_directory: None,
        };
        assert(editor@.documents =~= Map::empty());
        editor
    }

    /// The mode of the session.
    pub fn get_mode(&self) -> (mode: Mode)
        ensures
            mode == self@.mode,
    {
        self.mode
    }

    /// Width and height of the window.
    pub fn get_viewport(&self) -> (viewport: (usize, usize))
        ensures
            viewport.0 == self@.viewport.0,
            viewport.1 == self@.viewport.1,
    {
        self.viewport
    }

    /// The current document.
    pub fn get_current_buffer(&self) -> (buffer: Option<&Buffer>)
        requires
            self.wf(),
        ensures
            buffer is Some == self@.current() is Some,
            buffer matches Some(b) ==> self@.current() == Some(b@) && b.wf()
                && b@.scroll_bounded(),
    {
        match self.current_buffer {
            Some(i) => Some(&self.buffers[i]),
            None => None,
        }
    }

    /// Inserts `c` at the cursor of the current document.
    pub fn insert(&mut self, c: char)
        requires
            old(self).wf(),
        ensures
            final(self).wf(),
            final(self)@ == old(self)@.inserted(seq![c]),
    {
        if let Some(i) = self.current_buffer {
            let viewport = self.viewport;
            let buffer = &mut self.buffers[i];
            buffer.insert_char(c);
            buffer.scroll(viewport);
            proof {
                Self::lemma_replace_current(old(self), self);
            }
        }
    }

    /// Inserts `s` at the cursor of the current document.
    pub fn insert_str(&mut self, s: String)
        requires
            old(self).wf(),
        ensures
            final(self).wf(),
            final(self)@ == old(self)@.inserted(s@),
    {
        if let Some(i) = self.current_buffer {
            let viewport = self.viewport;
            let buffer = &mut self.buffers[i];
            buffer.insert_str(s.as_str());
            buffer.scroll(viewport);
            proof {
                Self::lemma_replace_current(old(self), self);
            }
        }
    }

    /// Inserts a line feed at the cursor of the current document.
    pub fn insert_new_line(&mut self)
        requires
            old(self).wf(),
        ensures
            final(self).wf(),
            final(self)@ == old(self)@.inserted(seq!['\n']),
    {
        self.insert('\n');
    }

    /// Deletes the character in front of the cursor of the current document.
    pub fn delete(&mut self)
        requires
            old(self).wf(),
        ensures
            final(self).wf(),
            final(self)@ == old(self)@.deleted(),
    {
        if let Some(i) = self.current_buffer {
            if self.buffers[i].cursor_pos() > 0 {
                let viewport = self.viewport;
                let buffer = &mut self.buffers[i];
                buffer.delete_backward();
                buffer.scroll(viewport);
                proof {
                    Self::lemma_replace_current(old(self), self);
                }
            }
        }
    }

    /// Moves the cursor of the current document.
    pub fn move_cursor(&mut self, direction: CursorMovement)
        requires
            old(self).wf(),
        ensures
            final(self).wf(),
            final(self)@ == old(self)@.cursor_moved(direction),
    {
        if let Some(i) = self.current_buffer {
            let viewport = self.viewport;
            let buffer = &mut self.buffers[i];
            buffer.move_cursor(direction);
            buffer.scroll(viewport);
            proof {
                Self::lemma_replace_current(old(self), self);
            }
        }
    }

    /// Recomputes the scroll offset of the current document.
    pub fn scroll(&mut self)
        requires
            old(self).wf(),
        ensures
            final(self).wf(),
            final(self)@ == old(self)@.scrolled(),
    {
        if let Some(i) = self.current_buffer {
            let viewport = self.viewport;
            let buffer = &mut self.buffers[i];
            buffer.scroll(viewport);
            proof {
                Self::lemma_replace_current(old(self), self);
            }
        }
    }

    /// Sets the size of the window and recomputes the scroll offset.
    pub fn set_viewport(&mut self, viewport: (usize, usize))
        requires
            old(self).wf(),
        ensures
            final(self).wf(),
            final(self)@ == old(self)@.viewport_set(viewport.0 as int, viewport.1 as int),
    {
        self.viewport = viewport;
        proof {
            assert(self@.documents == old(self)@.documents);
        }
        self.scroll();
    }

    /// The scroll offset of the current document: first visible column and
    /// first visible line.
    pub fn get_scroll_offset(&self) -> (offset: Option<(usize, usize)>)
        requires
            self.wf(),
        ensures
            offset is Some == self@.current() is Some,
            offset matches Some((x, y)) ==> self@.current()->0.scroll_offset == (
                x as int,
                y as int,
            ),
    {
        match self.get_current_buffer() {
            Some(buffer) => Some(buffer.scroll_offset()),
            None => None,
        }
    }

    /// Line and column of the cursor of the current document.
    pub fn get_cursor_screen_position(&self) -> (position: Option<(usize, usize)>)
        requires
            self.wf(),
        ensures
            position is Some == self@.current() is Some,
            position matches Some((line, column)) ==> line == self@.current()->0.cursor_line()
                && column == self@.current()->0.cursor_column(),
    {
        match self.get_current_buffer() {
            Some(buffer) => Some(buffer.cursor_screen_position()),
            None => None,
        }
    }

    /// The cell of the window in which the cursor of the current document
    /// stands: its column and its row, counted from the window's first cell.
    pub fn get_cursor_cell(&self) -> (cell: Option<(usize, usize)>)
        requires
            self.wf(),
        ensures
            cell is Some == self@.current() is Some,
            cell matches Some((column, row)) ==> column == self@.current()->0.cursor_column()
                - self@.current()->0.scroll_offset.0 && row == self@.current()->0.cursor_line()
                - self@.current()->0.scroll_offset.1,
    {
        match self.get_current_buffer() {
            Some(buffer) => {
                let (line, column) = buffer.cursor_screen_position();
                let (scroll_x, scroll_y) = buffer.scroll_offset();
                Some((column - scroll_x, line - scroll_y))
            },
            None => None,
        }
    }

    /// Offset in bytes of the cursor of the current document, in the UTF-8
    /// form of its text.
    pub fn cursor_pos_to_char(&self) -> (byte: Option<usize>)
        requires
            self.wf(),
        ensures
            byte is Some == self@.current() is Some,
            byte matches Some(b) ==> b == self@.current()->0.cursor_byte(),
    {
        match self.get_current_buffer() {
            Some(buffer) => Some(buffer.cursor_byte()),
            None => None,
        }
    }

    /// Index of the line of the cursor of the current document.
    pub fn cursor_pos_to_line(&self) -> (line: Option<usize>)
        requires
            self.wf(),
        ensures
            line is Some == self@.current() is Some,
            line matches Some(l) ==> l == self@.current()->0.cursor_line(),
    {
        match self.get_current_buffer() {
            Some(buffer) => Some(buffer.cursor_screen_position().0),
            None => None,
        }
    }

    /// The text of the current document.
    pub fn to_string(&self) -> (text: Option<String>)
        requires
            self.wf(),
        ensures
            text is Some == self@.current() is Some,
            text matches Some(s) ==> s@ == self@.current()->0.text,
    {
        match self.get_current_buffer() {
            Some(buffer) => Some(buffer.to_string()),
            None => None,
        }
    }

    /// A copy of the rope that holds the text of the current document.
    pub fn get_content(&self) -> (content: Option<Rope>)
        requires
            self.wf(),
        ensures
            content is Some == self@.current() is Some,
            content matches Some(rope) ==> rope_text(rope) == self@.current()->0.text,
    {
        match self.get_current_buffer() {
            Some(buffer) => Some(buffer.content().clone()),
            None => None,
        }
    }

    /// Sets the mode. Leaving Visual mode this way drops the selection anchor
    /// of the current document, as leaving it in any other way does.
    pub fn set_mode(&mut self, mode: Mode)
        requires
            old(self).wf(),
        ensures
            final(self).wf(),
            final(self)@ == old(self)@.mode_set(mode),
    {
        self.mode = mode;
        if mode != Mode::Visual {
            if let Some(i) = self.current_buffer {
                let buffer = &mut self.buffers[i];
                buffer.clear_selection();
                proof {
                    Self::lemma_replace_current(old(self), self);
                }
            }
        } else {
            proof {
                assert(self@.documents == old(self)@.documents);
            }
        }
    }

    /// Enters Visual mode and anchors the selection at the cursor. Does
    /// nothing where there is no current document.
    pub fn enter_visual_mode(&mut self)
        requires
            old(self).wf(),
        ensures
            final(self).wf(),
            final(self)@ == old(self)@.visual_entered(),
    {
        if let Some(i) = self.current_buffer {
            let buffer = &mut self.buffers[i];
            buffer.start_selection();
            self.mode = Mode::Visual;
            proof {
                Self::lemma_replace_current(old(self), self);
            }
        }
    }

    /// Leaves Visual mode for Normal mode and drops the selection anchor; the
    /// text stays. Does nothing where there is no current document.
    pub fn exit_visual_mode(&mut self)
        requires
            old(self).wf(),
        ensures
            final(self).wf(),
            final(self)@ == old(self)@.visual_exited(),
    {
        if let Some(i) = self.current_buffer {
            let buffer = &mut self.buffers[i];
            buffer.clear_selection();
            self.mode = Mode::Normal;
            proof {
                Self::lemma_replace_current(old(self), self);
            }
        }
    }

    /// The selected range of the current document: from the smaller of
    /// anchor and cursor to the greater.
    pub fn get_selection(&self) -> (range: Option<(usize, usize)>)
        requires
            self.wf(),
        ensures
            range is Some == (self@.current() matches Some(doc) && doc.selection() is Some),
            range matches Some((start, end)) ==> self@.current()->0.selection() == Some(
                (start as int, end as int),
            ),
    {
        match self.get_current_buffer() {
            Some(buffer) => buffer.get_selection(),
            None => None,
        }
    }

    /// The selected characters of the current document.
    pub fn copy_selection(&self) -> (copied: Option<String>)
        requires
            self.wf(),
        ensures
            copied is Some == (self@.current() matches Some(doc) && doc.selected_text() is Some),
            copied matches Some(s) ==> self@.current()->0.selected_text() == Some(s@),
    {
        match self.get_current_buffer() {
            Some(buffer) => buffer.copy_selection(),
            None => None,
        }
    }

    /// Deletes the selected characters of the current document and returns
    /// to Normal mode.
    pub fn delete_selection(&mut self)
        requires
            old(self).wf(),
        ensures
            final(self).wf(),
            final(self)@ == old(self)@.selection_deleted(),
    {
        self.mode = Mode::Normal;
        let mut edited = false;
        if let Some(i) = self.current_buffer {
            if self.buffers[i].selection_start().is_some() {
                let viewport = self.viewport;
                let buffer = &mut self.buffers[i];
                buffer.delete_selection();
                buffer.scroll(viewport);
                edited = true;
                proof {
                    Self::lemma_replace_current(old(self), self);
                }
            }
        }
        proof {
            if !edited {
                assert(self@.documents == old(self)@.documents);
            }
        }
    }

    /// Shows the diagnostic line if it was hidden, hides it if it was shown.
    pub fn toggle_debug_info(&mut self)
        requires
            old(self).wf(),
        ensures
            final(self).wf(),
            final(self)@ == (EditorView {
                show_debug_info: !old(self)@.show_debug_info,
                ..old(self)@
            }),
    {
        self.show_debug_info = !self.show_debug_info;
    }

    /// Whether the diagnostic line is shown.
    pub fn is_debug_info_visible(&self) -> (visible: bool)
        ensures
            visible == self@.show_debug_info,
    {
        self.show_debug_info
    }

    /// The directory against which relative paths are resolved.
    pub fn get_starting_directory(&self) -> (dir: Option<&String>)
        ensures
            dir is Some == self@.starting_directory is Some,
            dir matches Some(d) ==> self@.starting_directory == Some(d@),
    {
        self.starting_directory.as_ref()
    }

    /// Sets the directory against which relative paths are resolved.
    pub fn set_starting_directory(&mut self, path: String)
        requires
            old(self).wf(),
        ensures
            final(self).wf(),
            final(self)@ == (EditorView { starting_directory: Some(path@), ..old(self)@ }),
    {
        self.starting_directory = Some(path);
    }

    /// The key of the current document.
    pub fn get_current_file_path(&self) -> (path: Option<String>)
        requires
            self.wf(),
        ensures
            path is Some == self@.current_key is Some,
            path matches Some(p) ==> self@.current_key == Some(p@),
    {
        match self.current_buffer {
            Some(i) => Some(self.keys[i].clone()),
            None => None,
        }
    }

    /// Where `key` is stored.
    fn index_of(&self, key: &String) -> (found: Option<usize>)
        requires
            self.stored(),
        ensures
            found matches Some(i) ==> i < self.keys.len() && self.keys[i as int]@ == key@,
            found is None ==> !has_key(self.keys@, key@),
    {
        let mut i: usize = 0;
        while i < self.keys.len()
            invariant
                i <= self.keys.len(),
                forall|j: int| 0 <= j < i ==> (#[trigger] self.keys[j])@ != key@,
            decreases self.keys.len() - i,
        {
            if self.keys[i] == *key {
                return Some(i);
            }
            i = i + 1;
        }
        None
    }

    /// Opens a document that holds `text` under `key` and makes it the
    /// current one. A document that was open under `key` is replaced.
    pub fn open_text(&mut self, key: String, text: &str)
        requires
            old(self).wf(),
        ensures
            final(self).wf(),
            final(self)@ == old(self)@.opened(key@, text@),
    {
        let buffer = Buffer::from_text(text);
        let ghost opened = buffer;
        match self.index_of(&key) {
            Some(i) => {
                proof {
                    lemma_documents_update(self.keys@, self.buffers@, i as int, opened);
                    lemma_documents_at(self.keys@, self.buffers@, i as int);
                }
                self.buffers.set(i, buffer);
                self.current_buffer = Some(i);
            },
            None => {
                proof {
                    lemma_documents_push(self.keys@, self.buffers@, key, opened);
                }
                let n = self.keys.len();
                self.keys.push(key);
                self.buffers.push(buffer);
                self.current_buffer = Some(n);
            },
        }
        proof {
            assert(self@.documents == old(self)@.documents.insert(key@, opened@));
            assert forall|k: Seq<char>| self@.documents.dom().contains(k) implies (
            #[trigger] self@.documents[k]).wf() && self@.documents[k].scroll_bounded() by {
                if k != key@ {
                    assert(old(self)@.documents.dom().contains(k));
                }
            }
        }
    }

    /// Opens the document whose file holds `bytes` and makes it the current
    /// one. Its key is the path that `path` resolves to (see
    /// [`Editor::resolve_path`]), which is the file to read `bytes` from.
    /// Bytes that are not UTF-8 are refused, and the editor stays as it was.
    pub fn open_file(&mut self, path: String, bytes: Vec<u8>) -> (result: Result<(), EditorError>)
        requires
            old(self).wf(),
        ensures
            final(self).wf(),
            valid_utf8(bytes@) ==> result is Ok && final(self)@ == old(self)@.opened(
                resolved_path(old(self)@.starting_directory, path@),
                decode_utf8(bytes@),
            ),
            !valid_utf8(bytes@) ==> result == Err::<(), EditorError>(EditorError::InvalidUtf8)
                && final(self)@ == old(self)@,
    {
        match string_from_utf8(bytes) {
            Some(text) => {
                let key = self.resolve_path(path.as_str());
                self.open_text(key, text.as_str());
                Ok(())
            },
            None => Err(EditorError::InvalidUtf8),
        }
    }

    /// The path of the file that `path` stands for, which is also the key of
    /// its document: a relative path is taken below the starting directory,
    /// where one is set; any other stays as it is.
    pub fn resolve_path(&self, path: &str) -> (resolved: String)
        ensures
            resolved@ == resolved_path(self@.starting_directory, path@),
    {
        resolve_path(self.starting_directory.as_ref(), path)
    }

    /// The bytes to write when the current document is saved: its text in
    /// UTF-8.
    pub fn content_bytes(&self) -> (bytes: Option<Vec<u8>>)
        requires
            self.wf(),
        ensures
            bytes is Some == self@.current() is Some,
            bytes matches Some(b) ==> b@ == encode_utf8(self@.current()->0.text),
    {
        match self.get_current_buffer() {
            Some(buffer) => {
                let text = buffer.to_string();
                Some(to_utf8(text.as_str()))
            },
            None => None,
        }
    }

    /// Records that the current document was written to the file that `path`
    /// resolves to (see [`Editor::resolve_path`]): it is unmodified now and
    /// stored under that path as its key, in place of any document that was
    /// stored there. Without a current document this fails and the editor
    /// stays as it was.
    pub fn save_file(&mut self, path: String) -> (result: Result<(), EditorError>)
        requires
            old(self).wf(),
        ensures
            final(self).wf(),
            old(self)@.current_key is Some ==> result is Ok && final(self)@ == old(self)@.saved_as(
                resolved_path(old(self)@.starting_directory, path@),
            ),
            old(self)@.current_key is None ==> result == Err::<(), EditorError>(
                EditorError::NoActiveBuffer,
            ) && final(self)@ == old(self)@,
    {
        let key = self.resolve_path(path.as_str());
        self.save_as(key)
    }

    /// Records that the current document was written under the key `path`: it
    /// is unmodified now and stored under that key, in place of any document
    /// that was stored there. Without a current document this fails and the
    /// editor stays as it was.
    pub fn save_as(&mut self, path: String) -> (result: Result<(), EditorError>)
        requires
            old(self).wf(),
        ensures
            final(self).wf(),
            old(self)@.current_key is Some ==> result is Ok && final(self)@ == old(self)@.saved_as(
                path@,
            ),
            old(self)@.current_key is None ==> result == Err::<(), EditorError>(
                EditorError::NoActiveBuffer,
            ) && final(self)@ == old(self)@,
    {
        match self.current_buffer {
            None => Err(EditorError::NoActiveBuffer),
            Some(current) => {
                let ghost old_key = self.keys[current as int]@;
                let ghost doc = self.buffers[current as int]@;
                let ghost documents = self@.documents;
                proof {
                    lemma_documents_at(self.keys@, self.buffers@, current as int);
                }
                let mut index = current;
                match self.index_of(&path) {
                    Some(other) => {
                        if other != current {
                            proof {
                                lemma_documents_remove(self.keys@, self.buffers@, other as int);
                            }
                            let _ = self.keys.remove(other);
                            let _ = self.buffers.remove(other);
                            if other < current {
                                index = current - 1;
                            }
                            self.current_buffer = Some(index);
                        }
                    },
                    None => {},
                }
                proof {
                    // The current document is still stored under its old
                    // key, and no other entry is stored under `path`.
                    assert(self.keys[index as int]@ == old_key);
                    assert(self.buffers[index as int]@ == doc);
                    assert(self@.documents == documents.remove(path@) || (path@ == old_key
                        && self@.documents == documents));
                    assert forall|j: int| 0 <= j < self.keys.len() && j != index implies (
                    #[trigger] self.keys[j])@ != path@ by {
                        if self.keys[j]@ == path@ {
                            if j < index {
                                assert(self.keys[j]@ != self.keys[index as int]@);
                            } else {
                                assert(self.keys[index as int]@ != self.keys[j]@);
                            }
                        }
                    }
                    lemma_documents_rekey(self.keys@, self.buffers@, index as int, path);
                }
                self.keys.set(index, path);
                let ghost rekeyed = self.buffers@;
                let buffer = &mut self.buffers[index];
                buffer.mark_saved();
                proof {
                    lemma_documents_update(
                        self.keys@,
                        rekeyed,
                        index as int,
                        self.buffers[index as int],
                    );
                    assert(self.buffers@ =~= rekeyed.update(
                        index as int,
                        self.buffers[index as int],
                    ));
                    assert(self@.documents =~= old(self)@.saved_as(path@).documents);
                    assert forall|k: Seq<char>| self@.documents.dom().contains(k) implies (
                    #[trigger] self@.documents[k]).wf() && self@.documents[k].scroll_bounded() by {
                        if k != path@ {
                            assert(old(self)@.documents.dom().contains(k));
                        }
                    }
                }
                Ok(())
            },
        }
    }

    /// The directory in which a scratch document is made: the starting
    /// directory where one is set, else the configuration directory that the
    /// home directory or the application data directory gives, else `config`.
    pub fn scratch_directory(&self, home: Option<&str>, appdata: Option<&str>) -> (dir: String)
        ensures
            dir@ == scratch_directory(
                self@.starting_directory,
                config_directory(text_of(home), text_of(appdata)),
            ),
    {
        scratch_dir(self.starting_directory.as_ref(), get_config_dir(home, appdata))
    }

    /// Makes an empty scratch document in the directory `dir` and makes it
    /// the current one. Its key is the path in `dir` of a scratch file named
    /// by a new identifier.
    pub fn new_scratch_buffer(&mut self, dir: &str)
        requires
            old(self).wf(),
        ensures
            final(self).wf(),
            exists|id: Seq<char>| #[trigger]
                is_uuid_text(id) && final(self)@ == old(self)@.opened(
                    scratch_key(dir@, id),
                    Seq::empty(),
                ),
    {
        let id = new_uuid_text();
        let name = scratch_file_name(id.as_str());
        let key = path_join(dir, name.as_str());
        self.open_text(key, "");
        proof {
            reveal_strlit("");
            assert(""@ =~= Seq::<char>::empty());
            assert(is_uuid_text(id@));
        }
    }

    /// Whether the current document is a scratch document: whether the last
    /// name of its key follows the naming of scratch documents.
    pub fn is_scratch_buffer(&self) -> (scratch: bool)
        requires
            self.wf(),
        ensures
            scratch == (self@.current_key matches Some(key) && is_scratch_path(key)),
    {
        match self.current_buffer {
            Some(i) => {
                let file_name = path_file_name(self.keys[i].as_str());
                is_scratch_file(&file_name)
            },
            None => false,
        }
    }

    /// Whether any document is modified.
    pub fn has_unsaved_changes(&self) -> (unsaved: bool)
        requires
            self.wf(),
        ensures
            unsaved == self@.has_unsaved(),
    {
        let mut i: usize = 0;
        while i < self.buffers.len()
            invariant
                self.stored(),
                i <= self.buffers.len(),
                forall|j: int| 0 <= j < i ==> !(#[trigger] self.buffers[j])@.is_modified,
            decreases self.buffers.len() - i,
        {
            if self.buffers[i].is_modified() {
                proof {
                    lemma_documents_at(self.keys@, self.buffers@, i as int);
                    assert(self@.is_unsaved(self.keys[i as int]@));
                }
                return true;
            }
            i = i + 1;
        }
        proof {
            assert forall|k: Seq<char>| !self@.is_unsaved(k) by {
                if self@.documents.dom().contains(k) {
                    let j = key_index(self.keys@, k);
                    lemma_documents_at(self.keys@, self.buffers@, j);
                }
            }
        }
        false
    }

    /// Whether a modified document is stored under `k` among the first
    /// `count` entries of the store.
    spec fn modified_among(&self, count: int, k: Seq<char>) -> bool {
        exists|j: int|
            0 <= j < count && (#[trigger] self.keys[j])@ == k && self.buffers[j]@.is_modified
    }

    /// The keys of the modified documents, each once, in no particular
    /// order.
    pub fn get_unsaved_buffers(&self) -> (unsaved: Vec<String>)
        requires
            self.wf(),
        ensures
            distinct_keys(unsaved@),
            forall|k: Seq<char>| has_key(unsaved@, k) <==> self@.is_unsaved(k),
    {
        let mut unsaved: Vec<String> = Vec::new();
        let mut i: usize = 0;
        while i < self.buffers.len()
            invariant
                self.stored(),
                i <= self.buffers.len(),
                distinct_keys(unsaved@),
                forall|k: Seq<char>| has_key(unsaved@, k) <==> self.modified_among(i as int, k),
            decreases self.buffers.len() - i,
        {
            if self.buffers[i].is_modified() {
                let ghost before = unsaved@;
                let key = self.keys[i].clone();
                unsaved.push(key);
                proof {
                    let last = before.len() as int;
                    assert(unsaved[last]@ == self.keys[i as int]@);
                    // The key is new: what was listed before comes from
                    // earlier entries, whose keys differ from this one.
                    assert(!self.modified_among(i as int, key@));
                    assert forall|a: int| 0 <= a < last implies (#[trigger] unsaved[a])@
                        != key@ by {
                        assert(has_key(before, before[a]@));
                    }
                    assert forall|k: Seq<char>| has_key(unsaved@, k) implies self.modified_among(
                        i + 1,
                        k,
                    ) by {
                        let a = choose|a: int|
                            0 <= a < unsaved.len() && (#[trigger] unsaved[a])@ == k;
                        if a < last {
                            assert(has_key(before, before[a]@));
                        }
                    }
                    assert forall|k: Seq<char>| self.modified_among(i + 1, k) implies has_key(
                        unsaved@,
                        k,
                    ) by {
                        if self.modified_among(i as int, k) {
                            let a = choose|a: int|
                                0 <= a < before.len() && (#[trigger] before[a])@ == k;
                            assert(unsaved[a]@ == k);
                        }
                    }
                }
            }
            i = i + 1;
        }
        proof {
            assert forall|k: Seq<char>| self.modified_among(i as int, k) <==> self@.is_unsaved(
                k,
            ) by {
                if self.modified_among(i as int, k) {
                    let j = choose|j: int|
                        0 <= j < i && (#[trigger] self.keys[j])@ == k
                            && self.buffers[j]@.is_modified;
                    lemma_documents_at(self.keys@, self.buffers@, j);
                }
                if self@.is_unsaved(k) {
                    lemma_documents_at(self.keys@, self.buffers@, key_index(self.keys@, k));
                }
            }
        }
        unsaved
    }

    /// What is drawn of the current document in the window.
    pub fn get_visible_content(&self) -> (content: Option<String>)
        requires
            self.wf(),
        ensures
            content is Some == self@.current() is Some,
            content matches Some(s) ==> s@ == self@.current()->0.visible(
                self@.viewport.0,
                self@.viewport.1,
            ),
    {
        match self.get_current_buffer() {
            Some(buffer) => Some(buffer.visible_content(self.viewport)),
            None => None,
        }
    }

    /// The spans of `line`, the text drawn in row `row` of the window: the
    /// selected part of the line apart from the rest. Without a current
    /// document the line is one span.
    pub fn selection_spans(&self, row: usize, line: &str) -> (spans: Vec<Span>)
        requires
            self.wf(),
        ensures
            span_views(spans@) == match self@.current() {
                Some(doc) => doc.row_spans(row as int, line@),
                None => line_spans(line@, 0, None),
            },
    {
        match self.get_current_buffer() {
            Some(buffer) => buffer.row_spans(row, line),
            None => split_line(line, 0, None),
        }
    }

    /// One line that sums up the state of the current document: cursor
    /// offset, window, scroll offset, number of characters and of lines.
    pub fn get_debug_info(&self) -> (info: String)
        requires
            self.wf(),
        ensures
            info@ == self@.debug_info(),
    {
        match self.get_current_buffer() {
            Some(buffer) => {
                let (scroll_x, scroll_y) = buffer.scroll_offset();
                let mut info = String::from_str("Cursor: ");
                push_decimal(&mut info, buffer.cursor_pos());
                info.append(", Viewport: (");
                push_decimal(&mut info, self.viewport.0);
                info.append(", ");
                push_decimal(&mut info, self.viewport.1);
                info.append("), Scroll: (");
                push_decimal(&mut info, scroll_x);
                info.append(", ");
                push_decimal(&mut info, scroll_y);
                info.append("), Content length: ");
                push_decimal(&mut info, buffer.len_chars());
                info.append(", Lines: ");
                push_decimal(&mut info, buffer.len_lines());
                info
            },
            None => String::from_str("No active buffer"),
        }
    }

    /// The message that answers the command to set `option`.
    pub fn handle_set_command(&self, option: &str) -> (message: String)
        ensures
            message@ == "Setting option: "@ + option@ + ". (Not actually implemented)"@,
    {
        String::from_str("Setting option: ").concat(option).concat(". (Not actually implemented)")
    }
}

/// Opening a file and saving it at once, under the path it was opened with:
/// the bytes to write are the bytes that were read, they go to the file they
/// came from, and the editor is as it was after opening, with the document
/// unmodified under the same key.
pub proof fn lemma_open_then_save(editor: EditorView, path: Seq<char>, bytes: Seq<u8>)
    requires
        valid_utf8(bytes),
    ensures
        ({
            let read_from = resolved_path(editor.starting_directory, path);
            let opened = editor.opened(read_from, decode_utf8(bytes));
            let written_to = resolved_path(opened.starting_directory, path);
            let saved = opened.saved_as(written_to);
            &&& opened.current() is Some
            &&& encode_utf8(opened.current()->0.text) == bytes
            &&& written_to == read_from
            &&& saved == opened
            &&& saved.current_key == Some(read_from)
            &&& !saved.current()->0.is_modified
        }),
{
    lemma_decode_then_encode(bytes);
    let read_from = resolved_path(editor.starting_directory, path);
    let opened = editor.opened(read_from, decode_utf8(bytes));
    let saved = opened.saved_as(read_from);
    assert(saved.documents =~= opened.documents);
}

} // verus!
