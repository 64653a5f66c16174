//! What this crate assumes of `ropey::Rope`, the container that holds a
//! document's text. Nothing in this file is proved: each item states, over
//! the characters a rope holds, what ropey's documentation and source say.
//!
//! The crate is built without ropey's `cr_lines` and `unicode_lines` features,
//! so the only line break ropey recognises is the line feed (alone or behind
//! a carriage return, which makes no difference to where lines begin).

use super::lines::{at_line_start, count_newlines, line_count, line_of};
use ropey::Rope;
use vstd::prelude::*;
use vstd::utf8::encode_utf8;

verus! {

/// `ropey::Rope`, a text held as a rope. Nothing is known of its inside;
/// what it holds is spoken of through [`rope_text`].
#[verifier::external_type_specification]
#[verifier::external_body]
pub struct ExRope(ropey::Rope);

/// The characters a rope holds, in order.
pub uninterp spec fn rope_text(rope: Rope) -> Seq<char>;

/// `Rope::new` makes a rope that holds no characters.
pub assume_specification[ Rope::new ]() -> (rope: Rope)
    ensures
        rope_text(rope) == Seq::<char>::empty(),
;

/// `Rope::from_str` makes a rope that holds the characters of `text`.
pub assume_specification[ Rope::from_str ](text: &str) -> (rope: Rope)
    ensures
        rope_text(rope) == text@,
;

/// Cloning a rope yields a rope that holds the same characters.
pub assume_specification[ <Rope as Clone>::clone ](rope: &Rope) -> (copy: Rope)
    ensures
        rope_text(copy) == rope_text(*rope),
;

/// `Rope::len_chars` is the number of characters held.
pub assume_specification[ Rope::len_chars ](rope: &Rope) -> (n: usize)
    ensures
        n == rope_text(*rope).len(),
;

/// `Rope::len_lines` is one more than the number of line breaks held.
pub assume_specification[ Rope::len_lines ](rope: &Rope) -> (n: usize)
    ensures
        n == line_count(rope_text(*rope)),
;

/// `Rope::char` is the character at `char_idx`; it panics at or beyond the
/// end.
pub assume_specification[ Rope::char ](rope: &Rope, char_idx: usize) -> (c: char)
    requires
        char_idx < rope_text(*rope).len(),
    ensures
        c == rope_text(*rope)[char_idx as int],
;

/// `Rope::char_to_byte` is the offset in bytes at which the character at
/// `char_idx` begins in the UTF-8 form of the text: the number of bytes that
/// encode the characters in front of it. `char_idx` may be the length of
/// the text; it panics beyond that.
pub assume_specification[ Rope::char_to_byte ](rope: &Rope, char_idx: usize) -> (byte: usize)
    requires
        char_idx <= rope_text(*rope).len(),
    ensures
        byte == encode_utf8(rope_text(*rope).take(char_idx as int)).len(),
;

/// `Rope::char_to_line` counts the line breaks in front of `char_idx`, which
/// may be the length of the text; it panics beyond that.
pub assume_specification[ Rope::char_to_line ](rope: &Rope, char_idx: usize) -> (line: usize)
    requires
        char_idx <= rope_text(*rope).len(),
    ensures
        line == count_newlines(rope_text(*rope).take(char_idx as int)),
;

/// `Rope::line_to_char` is the offset at which line `line_idx` begins: an
/// offset that is 0 or follows a line break and has `line_idx` line breaks in
/// front of it. One past the last line it is the length of the text; it panics
/// beyond that.
pub assume_specification[ Rope::line_to_char ](rope: &Rope, line_idx: usize) -> (pos: usize)
    requires
        line_idx <= line_count(rope_text(*rope)),
    ensures
        pos <= rope_text(*rope).len(),
        line_idx < line_count(rope_text(*rope)) ==> at_line_start(rope_text(*rope), pos as int)
            && line_of(rope_text(*rope), pos as int) == line_idx,
        line_idx == line_count(rope_text(*rope)) ==> pos == rope_text(*rope).len(),
;

/// `Rope::insert` puts the characters of `text` in front of the character at
/// `char_idx`, or at the end when `char_idx` is the length; it panics beyond
/// that.
pub assume_specification[ Rope::insert ](rope: &mut Rope, char_idx: usize, text: &str)
    requires
        char_idx <= rope_text(*old(rope)).len(),
    ensures
        rope_text(*final(rope)) == rope_text(*old(rope)).take(char_idx as int) + text@
            + rope_text(*old(rope)).skip(char_idx as int),
;

/// `Rope::insert_char` puts `ch` in front of the character at `char_idx`, or
/// at the end when `char_idx` is the length; it panics beyond that.
pub assume_specification[ Rope::insert_char ](rope: &mut Rope, char_idx: usize, ch: char)
    requires
        char_idx <= rope_text(*old(rope)).len(),
    ensures
        rope_text(*final(rope)) == rope_text(*old(rope)).insert(char_idx as int, ch),
;

/// `Rope::remove` on the range `start..end` takes out the characters at those
/// offsets and keeps the rest in order; it panics when the range is reversed
/// or reaches beyond the end.
#[verifier::external_body]
pub(crate) fn rope_remove(rope: &mut Rope, start: usize, end: usize)
    requires
        start <= end <= rope_text(*old(rope)).len(),
    ensures
        rope_text(*final(rope)) == rope_text(*old(rope)).take(start as int) + rope_text(
            *old(rope),
        ).skip(end as int),
{
    rope.remove(start..end)
}

/// `Rope::slice` on the range `start..end`, written out as a `String`: the
/// characters at those offsets. The slice panics when the range is reversed or
/// reaches beyond the end.
#[verifier::external_body]
pub(crate) fn rope_slice(rope: &Rope, start: usize, end: usize) -> (s: String)
    requires
        start <= end <= rope_text(*rope).len(),
    ensures
        s@ == rope_text(*rope).subrange(start as int, end as int),
{
    rope.slice(start..end).to_string()
}

} // verus!
