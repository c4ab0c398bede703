//! Selection movement and the scroll offset that keeps a selection visible.

use vstd::prelude::*;

verus! {

/// The largest valid index of a list of `len` items, or 0 when it is empty.
pub open spec fn last_index(len: int) -> int {
    if len > 0 { len - 1 } else { 0 }
}

/// A selection index is valid for a list of `len` items when it points into
/// the list, or is 0 for an empty list.
pub open spec fn selection_valid(sel: int, len: int) -> bool {
    0 <= sel <= last_index(len)
}

/// One step up: saturates at the first row.
pub open spec fn step_up(sel: int) -> int {
    if sel > 0 { sel - 1 } else { sel }
}

/// One step down: saturates at the last row of a list of `len` items.
pub open spec fn step_down(sel: int, len: int) -> int {
    if sel < last_index(len) { sel + 1 } else { sel }
}

/// One move, downward when `down` holds.
pub open spec fn step(sel: int, len: int, down: bool) -> int {
    if down { step_down(sel, len) } else { step_up(sel) }
}

/// The selection after a sequence of moves (`true` moves down).
pub open spec fn apply_moves(sel: int, len: int, moves: Seq<bool>) -> int
    decreases moves.len(),
{
    if moves.len() == 0 {
        sel
    } else {
        apply_moves(step(sel, len, moves[0]), len, moves.drop_first())
    }
}

/// Moves the selection one row up; the first row stays selected.
pub fn select_up(sel: usize) -> (r: usize)
    ensures
        r == step_up(sel as int),
{
    if sel > 0 { sel - 1 } else { sel }
}

/// Moves the selection one row down in a list of `len` items; the last row
/// stays selected.
pub fn select_down(sel: usize, len: usize) -> (r: usize)
    ensures
        r == step_down(sel as int, len as int),
{
    let last: usize = if len > 0 { len - 1 } else { 0 };
    if sel < last { sel + 1 } else { sel }
}

/// Whatever sequence of moves is applied to a valid selection of a list of
/// `len` items, the selection stays within `[0, len - 1]` (0 for an empty
/// list): it never goes negative and never passes the last row.
pub proof fn lemma_moves_keep_selection_valid(sel: int, len: int, moves: Seq<bool>)
    requires
        len >= 0,
        selection_valid(sel, len),
    ensures
        selection_valid(apply_moves(sel, len, moves), len),
    decreases moves.len(),
{
    if moves.len() > 0 {
        lemma_moves_keep_selection_valid(step(sel, len, moves[0]), len, moves.drop_first());
    }
}

/// The scroll offset that keeps `sel` visible in a window of `visible` rows
/// over `total` rows, starting from offset `scroll`.
pub open spec fn visible_scroll(sel: int, scroll: int, visible: int, total: int) -> int {
    if visible == 0 {
        scroll
    } else {
        let moved = if sel < scroll {
            sel
        } else if sel >= scroll + visible {
            sel - (visible - 1)
        } else {
            scroll
        };
        if moved > last_index(total) { last_index(total) } else { moved }
    }
}

/// Adjusts `scroll` so that row `selection` lies in the visible window of
/// `visible_rows` rows: scrolls up to the selection when it is above the
/// window, down so that it is the last visible row when it is below, and
/// clamps the offset to `[0, max(0, total_rows - 1)]`. Nothing changes when no
/// row is visible.
pub fn ensure_selection_visible(selection: usize, scroll: &mut usize, visible_rows: usize, total_rows: usize)
    ensures
        *final(scroll) == visible_scroll(selection as int, *old(scroll) as int, visible_rows as int, total_rows as int),
{
    if visible_rows == 0 {
        return;
    }
    if selection < *scroll {
        *scroll = selection;
    } else if selection - *scroll >= visible_rows {
        *scroll = selection - (visible_rows - 1);
    }
    let last: usize = if total_rows > 0 { total_rows - 1 } else { 0 };
    if *scroll > last {
        *scroll = last;
    }
}

/// For a selection inside a non-empty list and a non-empty window, the
/// adjusted offset shows the selection (`scroll <= sel < scroll + visible`)
/// and lies within `[0, max(0, total - 1)]`.
pub proof fn lemma_visible_scroll_shows_selection(sel: int, scroll: int, visible: int, total: int)
    requires
        0 <= scroll,
        0 < visible,
        0 <= sel < total,
    ensures
        0 <= visible_scroll(sel, scroll, visible, total) <= sel,
        sel < visible_scroll(sel, scroll, visible, total) + visible,
        visible_scroll(sel, scroll, visible, total) <= last_index(total),
{
}

/// The offset never leaves `[0, max(0, total - 1)]` once a window is shown.
pub proof fn lemma_visible_scroll_in_bounds(sel: int, scroll: int, visible: int, total: int)
    requires
        0 <= scroll,
        0 <= sel,
        0 < visible,
        0 <= total,
    ensures
        0 <= visible_scroll(sel, scroll, visible, total) <= last_index(total),
{
}

/// Adjusting twice with the same selection, window and total gives the same
/// offset as adjusting once.
pub proof fn lemma_visible_scroll_idempotent(sel: int, scroll: int, visible: int, total: int)
    requires
        0 <= scroll,
        0 <= visible,
        0 <= sel < total,
    ensures
        visible_scroll(sel, visible_scroll(sel, scroll, visible, total), visible, total)
            == visible_scroll(sel, scroll, visible, total),
{
}

/// The number of table rows that fit in a table `table_height` cells high,
/// after its two borders and two margins.
pub fn calculate_visible_rows(table_height: u16) -> (r: usize)
    ensures
        r == if table_height >= 4 { table_height - 4 } else { 0 },
{
    if table_height >= 4 { (table_height - 4) as usize } else { 0 }
}

} // verus!
