//! Selection arithmetic for the title screen's level list: the cursor
//! moves by one entry or by a page of entries, clamped to the list.

use vstd::prelude::*;

verus! {

/// How many level names one page of the list shows.
pub const WINDOW_SIZE: usize = 8;

/// The selection one entry further down the list, stopping at the last
/// entry.
pub fn select_down(selected: u32, len: u32) -> (r: u32)
    requires
        len > 0,
        selected < u32::MAX,
    ensures
        r == if selected + 1 < len - 1 {
            selected + 1
        } else {
            len - 1
        },
{
    let next = selected + 1;
    if next < len - 1 {
        next
    } else {
        len - 1
    }
}

/// The selection one entry further up the list, stopping at the first
/// entry.
pub fn select_up(selected: u32) -> (r: u32)
    ensures
        r == if selected >= 1 {
            selected - 1
        } else {
            0int
        },
{
    if selected >= 1 {
        selected - 1
    } else {
        0
    }
}

/// The selection one page further down the list, stopping at the last
/// entry.
pub fn select_page_forward(selected: u32, len: u32) -> (r: u32)
    requires
        len > 0,
        selected <= u32::MAX - 8,
    ensures
        r == if selected + 8 < len - 1 {
            selected + 8
        } else {
            len - 1
        },
{
    let next = selected + (WINDOW_SIZE as u32);
    if next < len - 1 {
        next
    } else {
        len - 1
    }
}

/// The selection one page further up the list, stopping at the first
/// entry.
pub fn select_page_back(selected: u32) -> (r: u32)
    ensures
        r == if selected >= 8 {
            selected - 8
        } else {
            0int
        },
{
    if selected >= 8 {
        selected - (WINDOW_SIZE as u32)
    } else {
        0
    }
}

} // verus!
