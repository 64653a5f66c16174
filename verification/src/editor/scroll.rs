//! The scroll engine: how far the visible window must move, along one axis,
//! to keep the cursor clear of the window's margins.
//!
//! The adjustment is minimal, not a re-centring: the window stays where it is
//! until the cursor comes within `padding` cells of an edge.

use vstd::prelude::*;

verus! {

/// Lines kept between the cursor and the top or bottom edge of the window.
pub const VERTICAL_PADDING: usize = 6;

/// Columns kept between the cursor and the left or right edge of the window.
pub const HORIZONTAL_PADDING: usize = 6;

/// The smaller of two integers.
pub open spec fn min_int(a: int, b: int) -> int {
    if a <= b {
        a
    } else {
        b
    }
}

/// `a - b`, or 0 where `b` exceeds `a`.
pub open spec fn clamped_sub(a: int, b: int) -> int {
    if a >= b {
        a - b
    } else {
        0
    }
}

/// The scroll offset along one axis after recomputation.
///
/// `offset` is the first visible line (or column), `cursor` the line (or
/// column) of the cursor, `extent` the height (or width) of the window.
pub open spec fn scrolled(offset: int, cursor: int, extent: int, padding: int) -> int {
    if cursor < offset + padding {
        clamped_sub(cursor, padding)
    } else if cursor >= offset + extent - padding {
        clamped_sub(cursor, clamped_sub(extent, padding + 1))
    } else {
        offset
    }
}

/// Recomputes the scroll offset along one axis.
pub fn scroll_axis(offset: usize, cursor: usize, extent: usize, padding: usize) -> (r: usize)
    ensures
        r == scrolled(offset as int, cursor as int, extent as int, padding as int),
        r <= cursor,
{
    let before_margin = match offset.checked_add(padding) {
        Some(limit) => cursor < limit,
        None => true,
    };
    if before_margin {
        cursor.saturating_sub(padding)
    } else if extent <= padding || cursor - offset >= extent - padding {
        cursor.saturating_sub(extent.saturating_sub(padding).saturating_sub(1))
    } else {
        offset
    }
}

/// After recomputation the window begins at or before the cursor.
pub proof fn lemma_scrolled_at_most_cursor(offset: int, cursor: int, extent: int, padding: int)
    requires
        0 <= offset,
        0 <= cursor,
        0 <= padding,
    ensures
        0 <= scrolled(offset, cursor, extent, padding) <= cursor,
{
}

/// Containment: in a window wider than both margins together, recomputation
/// leaves the cursor at least `padding` cells behind the window's first cell,
/// unless the window is at the very beginning, and at least `padding` cells in
/// front of its last cell.
pub proof fn lemma_scrolled_contains_cursor(offset: int, cursor: int, extent: int, padding: int)
    requires
        0 <= offset,
        0 <= cursor,
        0 <= padding,
        extent > 2 * padding,
    ensures
        ({
            let start = scrolled(offset, cursor, extent, padding);
            &&& start == 0 || cursor - start >= padding
            &&& cursor - start <= extent - padding - 1
        }),
{
}

/// Idempotence: recomputing a second time changes nothing, in a window wider
/// than both margins together or with the cursor within the first margin.
pub proof fn lemma_scrolled_idempotent(offset: int, cursor: int, extent: int, padding: int)
    requires
        0 <= offset,
        0 <= cursor,
        0 <= extent,
        0 <= padding,
        extent > 2 * padding || cursor < padding,
    ensures
        scrolled(scrolled(offset, cursor, extent, padding), cursor, extent, padding) == scrolled(
            offset,
            cursor,
            extent,
            padding,
        ),
{
}

/// In a window no wider than both margins together the two margins overlap,
/// and with the cursor beyond the first margin a second recomputation moves
/// the window again.
pub proof fn lemma_scrolled_unstable_in_narrow_window(
    offset: int,
    cursor: int,
    extent: int,
    padding: int,
)
    requires
        0 <= offset,
        0 <= extent <= 2 * padding,
        cursor >= padding > 0,
    ensures
        scrolled(scrolled(offset, cursor, extent, padding), cursor, extent, padding) != scrolled(
            offset,
            cursor,
            extent,
            padding,
        ),
{
}

} // verus!
