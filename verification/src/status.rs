//! A single-mode viewport engine: the split-screen geometry only, with the
//! zoom anchored explicitly by the caller.  It shares the ghost model in
//! [`crate::geometry`] with the full compositor.

use vstd::prelude::*;

use crate::geometry::Frame;
use crate::geometry::Placement;
use crate::geometry::clamp_border;
use crate::geometry::BORDER_STEP;
use crate::geometry::MAX_DIM;
use crate::geometry::MAX_ZOOM;
use crate::geometry::zoomed_in;
use crate::geometry::zoomed_out;

verus! {

/// The viewer state: zoom, pan offset, split border and canvas size.
#[derive(Debug, Clone, Copy, PartialEq, Eq, Structural)]
pub struct Status {
    pub zoom: usize,
    pub offset_x: i32,
    pub offset_y: i32,
    pub border: i32,
    pub width: i32,
    pub height: i32,
}

/// The placement of one video pane; see [`crate::compositor::Position`].
#[derive(Debug, Clone, Copy)]
pub struct Position {
    pub xpos: i64,
    pub ypos: i64,
    pub width: i64,
    pub height: i64,
    pub crop_right: i64,
    pub crop_left: i64,
}

impl View for Position {
    type V = Placement;

    open spec fn view(&self) -> Placement {
        Placement {
            xpos: self.xpos as int,
            ypos: self.ypos as int,
            width: self.width as int,
            height: self.height as int,
            crop_right: self.crop_right as int,
            crop_left: self.crop_left as int,
        }
    }
}

/// Default canvas width.
pub const WIDTH: i32 = 1280;

/// Default canvas height.
pub const HEIGHT: i32 = 720;

/// Default split border position: the middle of the default canvas.
pub const HALF_WIDTH: i32 = 640;

impl Status {
    /// The numeric state, as the ghost model sees it.
    pub open spec fn frame(self) -> Frame {
        Frame {
            width: self.width as int,
            height: self.height as int,
            zoom: self.zoom as int,
            offset_x: self.offset_x as int,
            offset_y: self.offset_y as int,
            border: self.border as int,
        }
    }

    /// A valid state; constructors establish it and mutators preserve it.
    pub open spec fn wf(self) -> bool {
        self.frame().wf()
    }

    /// The two pane placements this state denotes.
    pub open spec fn panes(self) -> (Placement, Placement) {
        (self.frame().split_pane0(), self.frame().split_pane1())
    }
}

impl Default for Status {
    fn default() -> (r: Self)
        ensures
            r == (Status {
                zoom: 100,
                offset_x: 0,
                offset_y: 0,
                border: HALF_WIDTH,
                width: WIDTH,
                height: HEIGHT,
            }),
            r.wf(),
    {
        Self {
            zoom: 100,
            offset_x: 0,
            offset_y: 0,
            border: HALF_WIDTH,
            width: WIDTH,
            height: HEIGHT,
        }
    }
}

impl Status {
    /// A viewer state over a `width` by `height` canvas, at default zoom
    /// and pan, with the border in the middle.
    pub fn new(width: i32, height: i32) -> (r: Self)
        requires
            0 <= width <= MAX_DIM,
            0 <= height <= MAX_DIM,
        ensures
            r == (Status {
                zoom: 100,
                offset_x: 0,
                offset_y: 0,
                border: (width / 2) as i32,
                width,
                height,
            }),
            r.wf(),
    {
        Self { width, height, border: width / 2, ..Default::default() }
    }

    /// Restore zoom, pan offset and border to their construction-time
    /// defaults; the canvas size is untouched.
    pub fn reset(&mut self)
        requires
            old(self).wf(),
        ensures
            final(self).zoom == 100,
            final(self).offset_x == 0,
            final(self).offset_y == 0,
            final(self).border == old(self).width / 2,
            final(self).width == old(self).width,
            final(self).height == old(self).height,
            final(self).wf(),
    {
        self.zoom = 100;
        self.offset_x = 0;
        self.offset_y = 0;
        self.border = self.width / 2;
    }

    /// Restore only the border to its construction-time default.
    pub fn reset_border(&mut self)
        requires
            old(self).wf(),
        ensures
            *final(self) == (Status { border: (old(self).width / 2) as i32, ..*old(self) }),
            final(self).wf(),
    {
        self.border = self.width / 2;
    }

    /// Restore only zoom and pan offset to their construction-time
    /// defaults; the border is untouched.
    pub fn reset_position(&mut self)
        requires
            old(self).wf(),
        ensures
            *final(self) == (Status { zoom: 100, offset_x: 0, offset_y: 0, ..*old(self) }),
            final(self).wf(),
    {
        self.zoom = 100;
        self.offset_x = 0;
        self.offset_y = 0;
    }

    /// Move the viewport by `x_step` pixels horizontally and `y_step`
    /// pixels vertically, without clamping.
    pub fn move_pos(&mut self, x_step: i32, y_step: i32)
        requires
            old(self).wf(),
            i32::MIN <= old(self).offset_x + x_step <= i32::MAX,
            i32::MIN <= old(self).offset_y + y_step <= i32::MAX,
        ensures
            final(self).offset_x == old(self).offset_x + x_step,
            final(self).offset_y == old(self).offset_y + y_step,
            final(self).zoom == old(self).zoom,
            final(self).border == old(self).border,
            final(self).width == old(self).width,
            final(self).height == old(self).height,
            final(self).wf(),
    {
        self.offset_x = self.offset_x + x_step;
        self.offset_y = self.offset_y + y_step;
    }

    /// Set the pan offset absolutely.
    pub fn move_pos_to(&mut self, x: i32, y: i32)
        requires
            old(self).wf(),
        ensures
            *final(self) == (Status { offset_x: x, offset_y: y, ..*old(self) }),
            final(self).wf(),
    {
        self.offset_x = x;
        self.offset_y = y;
    }

    /// Move the border by `offset` pixels, clamped to the canvas.
    pub fn move_border(&mut self, offset: i32)
        requires
            old(self).wf(),
            i32::MIN <= old(self).border + offset <= i32::MAX,
        ensures
            final(self).border == clamp_border(
                old(self).border + offset,
                old(self).width as int,
            ),
            final(self).zoom == old(self).zoom,
            final(self).offset_x == old(self).offset_x,
            final(self).offset_y == old(self).offset_y,
            final(self).width == old(self).width,
            final(self).height == old(self).height,
            final(self).wf(),
    {
        self.move_border_to(self.border + offset);
    }

    /// Set the border position, clamped into `[0, width]`.
    pub fn move_border_to(&mut self, new_border: i32)
        requires
            old(self).wf(),
        ensures
            final(self).border == clamp_border(
                new_border as int,
                old(self).width as int,
            ),
            0 <= final(self).border <= final(self).width,
            final(self).zoom == old(self).zoom,
            final(self).offset_x == old(self).offset_x,
            final(self).offset_y == old(self).offset_y,
            final(self).width == old(self).width,
            final(self).height == old(self).height,
            final(self).wf(),
    {
        if new_border < 0 {
            self.border = 0
        } else if new_border > self.width {
            self.border = self.width
        } else {
            self.border = new_border
        }
    }

    /// Raise the zoom by one step, capped at [`MAX_ZOOM`]; nothing else
    /// changes.
    pub fn zoom_in(&mut self)
        requires
            old(self).wf(),
        ensures
            final(self).zoom == zoomed_in(old(self).zoom as int),
            final(self).offset_x == old(self).offset_x,
            final(self).offset_y == old(self).offset_y,
            final(self).border == old(self).border,
            final(self).width == old(self).width,
            final(self).height == old(self).height,
            final(self).wf(),
    {
        let z = self.zoom + BORDER_STEP;
        self.zoom = if z <= MAX_ZOOM {
            z
        } else {
            MAX_ZOOM
        };
    }

    /// Lower the zoom by one step, floored at 1; nothing else changes.
    pub fn zoom_out(&mut self)
        requires
            old(self).wf(),
        ensures
            final(self).zoom == zoomed_out(old(self).zoom as int),
            final(self).offset_x == old(self).offset_x,
            final(self).offset_y == old(self).offset_y,
            final(self).border == old(self).border,
            final(self).width == old(self).width,
            final(self).height == old(self).height,
            final(self).wf(),
    {
        self.zoom = if self.zoom >= BORDER_STEP + 1 {
            self.zoom - BORDER_STEP
        } else {
            1
        };
    }

    /// The horizontal pan offset after re-centering around an anchor at
    /// `x`; the anchor is measured from the canvas center.
    pub open spec fn recentered_x(self, x: int, zooming_in: bool) -> int {
        if zooming_in {
            self.offset_x - self.frame().split_anchor_dx(x)
        } else {
            self.offset_x + self.frame().split_anchor_dx(x)
        }
    }

    /// The vertical pan offset after re-centering around an anchor at `y`.
    pub open spec fn recentered_y(self, y: int, zooming_in: bool) -> int {
        if zooming_in {
            self.offset_y - self.frame().anchor_dy(y)
        } else {
            self.offset_y + self.frame().anchor_dy(y)
        }
    }

    /// Whether re-centering around `(x, y)` keeps both offsets
    /// representable.
    pub open spec fn can_recenter(self, x: int, y: int, zooming_in: bool) -> bool {
        &&& i32::MIN <= self.recentered_x(x, zooming_in) <= i32::MAX
        &&& i32::MIN <= self.recentered_y(y, zooming_in) <= i32::MAX
    }

    /// Raise the zoom by one step, re-centering the pan around the given
    /// anchor point.
    pub fn zoom_in_center_at(&mut self, x: i32, y: i32)
        requires
            old(self).wf(),
            old(self).can_recenter(x as int, y as int, true),
        ensures
            final(self).zoom == zoomed_in(old(self).zoom as int),
            final(self).offset_x == old(self).recentered_x(x as int, true),
            final(self).offset_y == old(self).recentered_y(y as int, true),
            final(self).border == old(self).border,
            final(self).width == old(self).width,
            final(self).height == old(self).height,
            final(self).wf(),
    {
        self.zoom_in();
        self.fix_offset_when_zoom(x, y, true);
    }

    /// Lower the zoom by one step, re-centering the pan around the given
    /// anchor point.
    pub fn zoom_out_center_at(&mut self, x: i32, y: i32)
        requires
            old(self).wf(),
            old(self).can_recenter(x as int, y as int, false),
        ensures
            final(self).zoom == zoomed_out(old(self).zoom as int),
            final(self).offset_x == old(self).recentered_x(x as int, false),
            final(self).offset_y == old(self).recentered_y(y as int, false),
            final(self).border == old(self).border,
            final(self).width == old(self).width,
            final(self).height == old(self).height,
            final(self).wf(),
    {
        self.zoom_out();
        self.fix_offset_when_zoom(x, y, false);
    }

    /// Apply the re-centering: subtract the anchor delta when zooming in,
    /// add it back when zooming out.
    fn fix_offset_when_zoom(&mut self, x: i32, y: i32, zooming_in: bool)
        requires
            old(self).wf(),
            old(self).can_recenter(x as int, y as int, zooming_in),
        ensures
            final(self).offset_x == old(self).recentered_x(x as int, zooming_in),
            final(self).offset_y == old(self).recentered_y(y as int, zooming_in),
            final(self).zoom == old(self).zoom,
            final(self).border == old(self).border,
            final(self).width == old(self).width,
            final(self).height == old(self).height,
            final(self).wf(),
    {
        let diff: i64 = x as i64 - (self.width / 2) as i64;
        let new_offset: i64 = diff / (BORDER_STEP as i64);
        if zooming_in {
            self.offset_x = (self.offset_x as i64 - new_offset) as i32;
        } else {
            self.offset_x = (self.offset_x as i64 + new_offset) as i32;
        }

        let diff: i64 = y as i64 - (self.height / 2) as i64;
        let new_offset: i64 = diff / (BORDER_STEP as i64);
        if zooming_in {
            self.offset_y = (self.offset_y as i64 - new_offset) as i32;
        } else {
            self.offset_y = (self.offset_y as i64 + new_offset) as i32;
        }
    }

    /// The placements of the two video panes for the current state, pane 0
    /// first.  Total over every valid state; both rectangles are always
    /// non-negative.
    pub fn get_positions(&self) -> (r: (Position, Position))
        requires
            self.wf(),
        ensures
            r.0@ == self.panes().0,
            r.1@ == self.panes().1,
            r.0@.width >= 0,
            r.0@.height >= 0,
            r.1@.width >= 0,
            r.1@.height >= 0,
    {
        proof {
            crate::geometry::lemma_panes_nonnegative(self.frame());
            crate::geometry::lemma_viewport_bounds(self.frame());
        }
        let width = self.width as i64;
        let height = self.height as i64;
        let border = self.border as i64;
        let viewport_width: i64 = width * (self.zoom as i64) / 100;
        let viewport_height: i64 = height * (self.zoom as i64) / 100;
        let viewport_offset_x: i64 = self.offset_x as i64 - (viewport_width - width) / 2;
        let viewport_offset_y: i64 = self.offset_y as i64 - (viewport_height - height) / 2;

        let pos0 = Position {
            xpos: if viewport_offset_x < border {
                viewport_offset_x
            } else {
                0
            },
            ypos: viewport_offset_y,
            width: if viewport_offset_x < border {
                if border - viewport_offset_x > viewport_width {
                    viewport_width
                } else {
                    border - viewport_offset_x
                }
            } else {
                0
            },
            height: viewport_height,
            crop_right: if viewport_width + viewport_offset_x < border {
                0
            } else if viewport_offset_x > border {
                width
            } else {
                crate::geometry::scale_back_crop(
                    viewport_width + viewport_offset_x - border,
                    width,
                    viewport_width,
                )
            },
            crop_left: 0,
        };

        let pos1 = Position {
            xpos: if viewport_offset_x > border {
                viewport_offset_x
            } else {
                border
            },
            ypos: viewport_offset_y,
            width: {
                let raw = viewport_width + viewport_offset_x - border;
                if raw <= 0 {
                    0
                } else if raw > viewport_width {
                    viewport_width
                } else {
                    raw
                }
            },
            height: viewport_height,
            crop_right: 0,
            crop_left: if viewport_width + viewport_offset_x < border {
                width
            } else if viewport_offset_x > border {
                0
            } else {
                crate::geometry::scale_back_crop(border - viewport_offset_x, width, viewport_width)
            },
        };

        (pos0, pos1)
    }
}

} // verus!
