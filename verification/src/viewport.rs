//! Viewport synchronisation: deriving a scroll offset from a selection.
//!
//! A viewport is the window `[scroll, scroll + visible)` into a list of `total`
//! items. After the selection moved, the window follows it by the smallest
//! possible amount and is then kept inside the list.

use vstd::prelude::*;

verus! {

/// The largest scroll offset at which a window of `visible` items still ends
/// inside a list of `total` items.
pub open spec fn max_scroll(visible: nat, total: nat) -> nat {
    if total > visible {
        (total - visible) as nat
    } else {
        0
    }
}

/// The scroll offset after the window has followed the selection, before it is
/// clamped to the list.
pub open spec fn follow_selection(selection: nat, scroll: nat, visible: nat) -> nat {
    if selection < scroll {
        selection
    } else if selection >= scroll + visible {
        (selection - visible + 1) as nat
    } else {
        scroll
    }
}

/// The scroll offset of a synchronised viewport.
pub open spec fn synced_scroll(selection: nat, scroll: nat, visible: nat, total: nat) -> nat {
    let followed = follow_selection(selection, scroll, visible);
    let limit = max_scroll(visible, total);
    if followed < limit {
        followed
    } else {
        limit
    }
}

/// A synchronised window that is not empty shows the selection, whenever the
/// selection is an item of the list.
pub proof fn lemma_selection_visible(selection: nat, scroll: nat, visible: nat, total: nat)
    requires
        visible > 0,
        selection < total,
    ensures
        synced_scroll(selection, scroll, visible, total) <= selection < synced_scroll(
            selection,
            scroll,
            visible,
            total,
        ) + visible,
{
}

/// A synchronised window never runs past the end of the list, and starts at
/// the first item when the whole list fits in it.
pub proof fn lemma_window_inside_list(selection: nat, scroll: nat, visible: nat, total: nat)
    ensures
        synced_scroll(selection, scroll, visible, total) <= max_scroll(visible, total),
        total <= visible ==> synced_scroll(selection, scroll, visible, total) == 0,
        total > visible ==> synced_scroll(selection, scroll, visible, total) + visible <= total,
{
}

/// Moves the window so that it shows `selection`, then clamps it to the list.
pub fn sync_scroll(selection: usize, scroll: usize, visible: usize, total: usize) -> (r: usize)
    ensures
        r == synced_scroll(selection as nat, scroll as nat, visible as nat, total as nat),
        visible > 0 && selection < total ==> r <= selection < r + visible,
        r <= max_scroll(visible as nat, total as nat),
        total <= visible ==> r == 0,
{
    let limit: usize = total.saturating_sub(visible);
    if selection < scroll {
        if selection < limit {
            selection
        } else {
            limit
        }
    } else if selection - scroll >= visible {
        // Here the followed offset is `selection - visible + 1`, which may not
        // fit in a machine word when `visible` is 0.
        if visible == 0 {
            if selection < limit {
                selection + 1
            } else {
                limit
            }
        } else {
            let followed: usize = selection - visible + 1;
            if followed < limit {
                followed
            } else {
                limit
            }
        }
    } else if scroll < limit {
        scroll
    } else {
        limit
    }
}

} // verus!
