use vstd::prelude::*;

verus! {

/// Viewport state for the scrollable result region: the line currently at the
/// top of the viewport, the total number of renderable lines, and the number
/// of lines visible at once (supplied by the drawing layer each frame).
///
/// `offset` is a `usize`, so it can never become negative; `scroll_up` floors
/// it at zero.  The upper bound is deliberately left unclamped: `scroll_down`
/// only saturates at the machine limit, never at `content_length`.
pub struct ScrollState {
    pub offset: usize,
    pub content_length: usize,
    pub viewport_height: usize,
}

impl ScrollState {
    pub fn new() -> (s: ScrollState)
        ensures
            s.offset == 0,
            s.content_length == 0,
            s.viewport_height == 0,
    {
        ScrollState { offset: 0, content_length: 0, viewport_height: 0 }
    }

    /// One step down: the offset grows by one, saturating only at the machine
    /// limit.  No ceiling at `content_length` is enforced.
    pub fn scroll_down(&mut self)
        ensures
            final(self).offset == old(self).offset.saturating_add(1),
            final(self).content_length == old(self).content_length,
            final(self).viewport_height == old(self).viewport_height,
    {
        self.offset = self.offset.saturating_add(1);
    }

    /// One step up: the offset shrinks by one when it is at least one, and is
    /// otherwise left untouched, so it never goes below zero.
    pub fn scroll_up(&mut self)
        ensures
            final(self).offset == if old(self).offset >= 1 {
                (old(self).offset - 1) as usize
            } else {
                old(self).offset
            },
            final(self).content_length == old(self).content_length,
            final(self).viewport_height == old(self).viewport_height,
    {
        if self.offset >= 1 {
            self.offset = self.offset - 1;
        }
    }

    /// Recalibrates the total content length after a render; the offset is
    /// left as it is.
    pub fn set_content_length(&mut self, len: usize)
        ensures
            final(self).offset == old(self).offset,
            final(self).content_length == len,
            final(self).viewport_height == old(self).viewport_height,
    {
        self.content_length = len;
    }

    /// Records the externally supplied viewport height.
    pub fn set_viewport_height(&mut self, height: usize)
        ensures
            final(self).offset == old(self).offset,
            final(self).content_length == old(self).content_length,
            final(self).viewport_height == height,
    {
        self.viewport_height = height;
    }
}

} // verus!
