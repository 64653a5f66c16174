//! The decisions of the file explorer that need no file system: which entry
//! a step through the list selects, and what is shown of a file's bytes.

use crate::editor::utf8::string_from_utf8;
use crate::utils::decimal::{decimal, push_decimal};
use vstd::arithmetic::div_mod::{
    lemma_add_mod_noop, lemma_mod_add_multiples_vanish, lemma_mod_sub_multiples_vanish,
    lemma_small_mod, lemma_sub_mod_noop,
};
use vstd::prelude::*;
use vstd::string::StringExecFns;
use vstd::utf8::{decode_utf8, valid_utf8};

verus! {

/// How many bytes of a file the preview shows at most.
pub const PREVIEW_BYTES: usize = 1024;

/// The entry selected after `delta` steps from entry `current` in a list of
/// `len` entries, going round the list in both directions.
pub open spec fn wrapped(current: int, delta: int, len: int) -> int {
    (current + delta) % len
}

/// The entry selected after `delta` steps from entry `current` in a list of
/// `len` entries.
pub fn wrap_selection(current: usize, delta: i32, len: usize) -> (selected: usize)
    requires
        len > 0,
    ensures
        selected == wrapped(current as int, delta as int, len as int),
        selected < len,
{
    let start = current % len;
    let ghost m = len as int;
    if delta >= 0 {
        let steps = (delta as usize) % len;
        proof {
            lemma_add_mod_noop(current as int, delta as int, m);
            if start + steps < len {
                lemma_small_mod((start + steps) as nat, len as nat);
            } else {
                lemma_mod_sub_multiples_vanish(start + steps, m);
                lemma_small_mod((start + steps - len) as nat, len as nat);
            }
        }
        if steps < len - start {
            start + steps
        } else {
            steps - (len - start)
        }
    } else {
        let distance: i64 = -(delta as i64);
        let back = (distance as usize) % len;
        proof {
            lemma_sub_mod_noop(current as int, distance as int, m);
            if back <= start {
                lemma_small_mod((start - back) as nat, len as nat);
            } else {
                lemma_mod_add_multiples_vanish(start - back, m);
                lemma_small_mod((len + start - back) as nat, len as nat);
            }
        }
        if back <= start {
            start - back
        } else {
            len - (back - start)
        }
    }
}

/// The beginning of `bytes` that the preview reads.
pub open spec fn preview_bytes(bytes: Seq<u8>) -> Seq<u8> {
    if bytes.len() > PREVIEW_BYTES {
        bytes.take(PREVIEW_BYTES as int)
    } else {
        bytes
    }
}

/// What the preview shows of a file of `size` bytes that holds `bytes`: the
/// text at its beginning, or its size if that is no text.
pub open spec fn preview_text(bytes: Seq<u8>, size: nat) -> Seq<char> {
    if valid_utf8(preview_bytes(bytes)) {
        decode_utf8(preview_bytes(bytes))
    } else {
        "Binary file: "@ + decimal(size) + " bytes"@
    }
}

/// What the preview shows of a file of `size` bytes that holds `bytes`.
pub fn file_preview(bytes: Vec<u8>, size: usize) -> (preview: String)
    ensures
        preview@ == preview_text(bytes@, size as nat),
{
    let mut bytes = bytes;
    if bytes.len() > PREVIEW_BYTES {
        bytes.truncate(PREVIEW_BYTES);
    }
    match string_from_utf8(bytes) {
        Some(text) => text,
        None => {
            let mut preview = String::from_str("Binary file: ");
            push_decimal(&mut preview, size);
            preview.append(" bytes");
            preview
        },
    }
}

/// Whether `content` cannot be opened as text: whether it is not UTF-8.
pub fn is_binary_or_non_utf8(content: Vec<u8>) -> (binary: bool)
    ensures
        binary == !valid_utf8(content@),
{
    string_from_utf8(content).is_none()
}

} // verus!
