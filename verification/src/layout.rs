//! Scrolling arithmetic of the transcript and of the input area. The
//! numbers of wrapped lines come from the renderer.

use vstd::prelude::*;
use crate::conversation::{UiState, same_input_state};

verus! {

/// The largest scroll offset: the lines that do not fit in the view.
pub open spec fn max_scroll(total_lines: int, available_height: int) -> int {
    if total_lines > available_height {
        total_lines - available_height
    } else {
        0
    }
}

/// `after` differs from `before` only in where the transcript is scrolled.
pub open spec fn only_scrolled(before: UiState, after: UiState) -> bool {
    &&& after.messages == before.messages
    &&& after.current_response == before.current_response
    &&& after.status == before.status
    &&& after.scroll_target == before.scroll_target
    &&& same_input_state(before, after)
}

/// The largest scroll offset for `total_lines` wrapped transcript lines.
pub fn calculate_max_scroll_offset(total_lines: u16, available_height: u16) -> (r: u16)
    ensures
        r == max_scroll(total_lines as int, available_height as int),
{
    if total_lines > available_height {
        total_lines - available_height
    } else {
        0
    }
}

impl UiState {
    /// Scrolls to the top and stops following new output.
    pub fn scroll_to_top(&mut self)
        ensures
            final(self).scroll_offset == 0,
            !final(self).auto_scroll,
            only_scrolled(*old(self), *final(self)),
    {
        self.auto_scroll = false;
        self.scroll_offset = 0;
    }

    /// Scrolls to the bottom and follows new output again.
    pub fn scroll_to_bottom_view(&mut self, available_height: u16, total_lines: u16)
        ensures
            final(self).scroll_offset == max_scroll(total_lines as int, available_height as int),
            final(self).auto_scroll,
            only_scrolled(*old(self), *final(self)),
    {
        self.scroll_offset = calculate_max_scroll_offset(total_lines, available_height);
        self.auto_scroll = true;
    }

    /// Pages up by the view height less one line of overlap, stopping at
    /// the top; stops following new output.
    pub fn page_up(&mut self, available_height: u16)
        ensures
            final(self).scroll_offset == if old(self).scroll_offset + 1 > available_height {
                if available_height == 0 {
                    old(self).scroll_offset as int
                } else {
                    old(self).scroll_offset - (available_height - 1)
                }
            } else {
                0
            },
            final(self).scroll_offset <= old(self).scroll_offset,
            !final(self).auto_scroll,
            only_scrolled(*old(self), *final(self)),
    {
        self.auto_scroll = false;
        let step = available_height.saturating_sub(1);
        self.scroll_offset = self.scroll_offset.saturating_sub(step);
    }

    /// Pages down by the view height less one line of overlap, stopping at
    /// the bottom; stops following new output.
    pub fn page_down(&mut self, available_height: u16, total_lines: u16)
        ensures
            ({
                let step = if available_height > 0 {
                    available_height - 1
                } else {
                    0
                };
                let moved = if old(self).scroll_offset + step > u16::MAX {
                    u16::MAX as int
                } else {
                    old(self).scroll_offset + step
                };
                let limit = max_scroll(total_lines as int, available_height as int);
                final(self).scroll_offset == if moved < limit {
                    moved
                } else {
                    limit
                }
            }),
            final(self).scroll_offset <= max_scroll(total_lines as int, available_height as int),
            !final(self).auto_scroll,
            only_scrolled(*old(self), *final(self)),
    {
        self.auto_scroll = false;
        let step = available_height.saturating_sub(1);
        let max = calculate_max_scroll_offset(total_lines, available_height);
        let moved = self.scroll_offset.saturating_add(step);
        self.scroll_offset = if moved < max {
            moved
        } else {
            max
        };
    }

    /// While following new output, scrolls so the last line is in view.
    pub fn update_scroll_position(&mut self, available_height: u16, total_lines: u16)
        ensures
            old(self).auto_scroll ==> final(self).scroll_offset == max_scroll(
                total_lines as int,
                available_height as int,
            ),
            !old(self).auto_scroll ==> final(self).scroll_offset == old(self).scroll_offset,
            final(self).auto_scroll == old(self).auto_scroll,
            only_scrolled(*old(self), *final(self)),
    {
        if self.auto_scroll {
            self.scroll_offset = calculate_max_scroll_offset(total_lines, available_height);
        }
    }
}

/// Rows of the input area: one for empty or single-line input, otherwise
/// the number of wrapped lines (taken as a `u16`) kept between two and six.
pub open spec fn input_area_rows(empty: bool, wrapped_lines: usize, has_newline: bool) -> u16 {
    let n = wrapped_lines as u16;
    if empty || (wrapped_lines <= 1 && !has_newline) {
        1
    } else if n < 2 {
        2
    } else if n > 6 {
        6
    } else {
        n
    }
}

/// Rows of the input area for text that is `empty` or wraps to
/// `wrapped_lines` lines and may hold a line break.
pub fn calculate_input_area_height(empty: bool, wrapped_lines: usize, has_newline: bool) -> (r: u16)
    ensures
        r == input_area_rows(empty, wrapped_lines, has_newline),
        1 <= r <= 6,
{
    if empty {
        return 1;
    }
    if wrapped_lines <= 1 && !has_newline {
        return 1;
    }
    let n = #[verifier::truncate] (wrapped_lines as u16);
    if n < 2 {
        2
    } else if n > 6 {
        6
    } else {
        n
    }
}

/// The input area's scroll offset after an edit: zero when everything
/// fits; otherwise moved just enough to show the cursor line, and never
/// past the last page.
pub open spec fn input_scroll_spec(offset: u16, height: u16, total_lines: u16, cursor_line: u16) -> int {
    if total_lines <= height {
        0
    } else {
        let moved: int = if cursor_line < offset {
            cursor_line as int
        } else if cursor_line >= offset + height {
            if cursor_line >= height - 1 {
                cursor_line - (height - 1)
            } else {
                0
            }
        } else {
            offset as int
        };
        let limit = total_lines - height;
        if moved < limit {
            moved
        } else {
            limit
        }
    }
}

/// Keeps the cursor line of the input area in view (see
/// `input_scroll_spec`).
pub fn update_input_scroll(offset: u16, input_area_height: u16, total_lines: u16, cursor_line: u16) -> (r:
    u16)
    requires
        total_lines > input_area_height && cursor_line >= offset ==> offset + input_area_height
            <= u16::MAX,
        total_lines > input_area_height && cursor_line >= offset + input_area_height
            ==> input_area_height > 0,
    ensures
        r == input_scroll_spec(offset, input_area_height, total_lines, cursor_line),
        total_lines > input_area_height ==> r <= total_lines - input_area_height,
{
    if total_lines <= input_area_height {
        return 0;
    }
    let mut next = offset;
    if cursor_line < offset {
        next = cursor_line;
    } else if cursor_line >= offset + input_area_height {
        next = cursor_line.saturating_sub(input_area_height - 1);
    }
    let max_scroll = total_lines - input_area_height;
    if next < max_scroll {
        next
    } else {
        max_scroll
    }
}

} // verus!
