//! Pagination: which contiguous window of the filtered list is visible, and
//! where the cursor sits inside that window.

use vstd::prelude::*;

verus! {

/// First visible position for a window of `page_size` over `len` entries
/// with the cursor at `sel`: the whole list when it fits, else a window
/// pinned to the edges near them and centered on the cursor in between.
pub open spec fn page_start(page_size: int, len: int, sel: int) -> int {
    if len <= page_size {
        0
    } else if sel < page_size / 2 {
        0
    } else if len - (sel + 1) < page_size / 2 {
        len - page_size
    } else {
        sel - page_size / 2
    }
}

/// The visible window `[start, end)` and the in-window cursor offset.
pub struct Page {
    /// The window starts at the first entry.
    pub first: bool,
    /// The window ends at the last entry.
    pub last: bool,
    /// First visible position.
    pub start: usize,
    /// One past the last visible position.
    pub end: usize,
    /// The cursor's offset inside the window: `sel - start`.
    pub cursor_offset: usize,
}

/// Compute the visible window of size `min(page_size, len)` that contains
/// the cursor position `sel`.
pub fn paginate(page_size: usize, len: usize, sel: usize) -> (p: Page)
    requires
        len > 0 ==> sel < len,
        len == 0 ==> sel == 0,
    ensures
        p.start == page_start(page_size as int, len as int, sel as int),
        p.end == p.start + if page_size <= len { page_size as int } else { len as int },
        p.end <= len,
        p.start <= sel,
        p.cursor_offset == sel - p.start,
        len > 0 && page_size > 0 ==> p.start <= sel < p.end,
        p.first == (p.start == 0),
        p.last == (p.end == len),
{
    let half = page_size / 2;
    let start: usize = if len <= page_size {
        0
    } else if sel < half {
        0
    } else if len - (sel + 1) < half {
        len - page_size
    } else {
        sel - half
    };
    let width = if page_size <= len {
        page_size
    } else {
        len
    };
    proof {
        assert(start + width <= len);
        assert(start <= sel);
    }
    let end = start + width;
    let page = Page {
        first: start == 0,
        last: end == len,
        start,
        end,
        cursor_offset: sel - start,
    };
    page
}

} // verus!
