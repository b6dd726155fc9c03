//! The viewport compositor: owns the viewer state (display mode, zoom,
//! pan offset, split border and canvas size) and derives the placement of
//! the two video panes from it.
//!
//! Every mutator keeps the state valid (see [`Compositor::wf`]) and is
//! described exactly, field by field, against the ghost model in
//! [`crate::geometry`].

use vstd::prelude::*;

use crate::geometry::Frame;
use crate::geometry::Placement;
use crate::geometry::clamp_border;
use crate::geometry::BORDER_STEP;
use crate::geometry::MAX_DIM;
use crate::geometry::MAX_ZOOM;
use crate::geometry::trunc_div;
use crate::geometry::trunc_mod;
use crate::geometry::zoomed_in;
use crate::geometry::zoomed_out;

verus! {

/// How the two videos share the canvas: both over the full canvas with a
/// movable split line, or each in its own half.
#[derive(Debug, Clone, Copy, PartialEq, Eq, Structural)]
pub enum Mode {
    Split,
    SideBySide,
}

impl Default for Mode {
    fn default() -> (r: Self)
        ensures
            r == Mode::Split,
    {
        Mode::Split
    }
}

/// The compositor state.  Fields are public so that callers can snapshot
/// and compare states cheaply, but they are meant to be changed through the
/// mutators only, which keep the state valid.
#[derive(Debug, Clone, Copy, PartialEq, Eq, Structural)]
pub struct Compositor {
    pub mode: Mode,
    pub zoom: usize,
    pub offset_x: i32,
    pub offset_y: i32,
    pub border: i32,
    pub width: i32,
    pub height: i32,
}

/// The placement of one video pane, as handed to the renderer: where the
/// pane is drawn on the canvas, how large, and how many source pixels to
/// crop from each side.  Fields are 64-bit because an extreme pan or zoom
/// of a valid state can push a coordinate beyond the 32-bit range.
#[derive(Debug, Clone, Copy)]
pub struct Position {
    pub xpos: i64,
    pub ypos: i64,
    pub width: i64,
    pub height: i64,
    pub crop_right: i64,
    pub crop_left: i64,
}

impl View for Position {
    type V = Placement;

    open spec fn view(&self) -> Placement {
        Placement {
            xpos: self.xpos as int,
            ypos: self.ypos as int,
            width: self.width as int,
            height: self.height as int,
            crop_right: self.crop_right as int,
            crop_left: self.crop_left as int,
        }
    }
}

/// Default canvas size, matching the default input video resolution.
pub const WIDTH: i32 = 1280;

/// Default canvas height.
pub const HEIGHT: i32 = 720;

/// Default split border position: the middle of the default canvas.
pub const HALF_WIDTH: i32 = 640;

impl Compositor {
    /// The numeric part of the state, as the ghost model sees it.
    pub open spec fn frame(self) -> Frame {
        Frame {
            width: self.width as int,
            height: self.height as int,
            zoom: self.zoom as int,
            offset_x: self.offset_x as int,
            offset_y: self.offset_y as int,
            border: self.border as int,
        }
    }

    /// A valid compositor state: canvas dimensions and zoom within their
    /// bounds and the border inside the canvas.  Constructors establish
    /// this and every mutator preserves it.
    pub open spec fn wf(self) -> bool {
        self.frame().wf()
    }

    /// The two pane placements this state denotes, by mode.
    pub open spec fn panes(self) -> (Placement, Placement) {
        match self.mode {
            Mode::Split => (self.frame().split_pane0(), self.frame().split_pane1()),
            Mode::SideBySide => (self.frame().sbs_pane0(), self.frame().sbs_pane1()),
        }
    }
}

impl Default for Compositor {
    fn default() -> (r: Self)
        ensures
            r == (Compositor {
                mode: Mode::Split,
                zoom: 100,
                offset_x: 0,
                offset_y: 0,
                border: HALF_WIDTH,
                width: WIDTH,
                height: HEIGHT,
            }),
            r.wf(),
    {
        Self {
            mode: Mode::default(),
            zoom: 100,
            offset_x: 0,
            offset_y: 0,
            border: HALF_WIDTH,
            width: WIDTH,
            height: HEIGHT,
        }
    }
}

impl Compositor {
    /// A compositor over a `width` by `height` canvas, in the given mode,
    /// at default zoom and pan, with the border in the middle.
    pub fn new(mode: Mode, width: i32, height: i32) -> (r: Self)
        requires
            0 <= width <= MAX_DIM,
            0 <= height <= MAX_DIM,
        ensures
            r == Compositor::new_spec(mode, width, height),
            r.wf(),
    {
        Self { mode, width, height, border: width / 2, ..Default::default() }
    }

    /// A side-by-side compositor over a `width` by `height` canvas.
    pub fn new_side_by_side(width: i32, height: i32) -> (r: Self)
        requires
            0 <= width <= MAX_DIM,
            0 <= height <= MAX_DIM,
        ensures
            r == Compositor::new_spec(Mode::SideBySide, width, height),
            r.wf(),
    {
        Self { mode: Mode::SideBySide, width, height, border: width / 2, ..Default::default() }
    }

    /// A split compositor over a `width` by `height` canvas.
    pub fn new_split(width: i32, height: i32) -> (r: Self)
        requires
            0 <= width <= MAX_DIM,
            0 <= height <= MAX_DIM,
        ensures
            r == Compositor::new_spec(Mode::Split, width, height),
            r.wf(),
    {
        Self { mode: Mode::Split, width, height, border: width / 2, ..Default::default() }
    }

    /// The state [`Compositor::new`] constructs.
    pub open spec fn new_spec(mode: Mode, width: i32, height: i32) -> Compositor {
        Compositor {
            mode,
            zoom: 100,
            offset_x: 0,
            offset_y: 0,
            border: (width / 2) as i32,
            width,
            height,
        }
    }

    /// Switch to split mode; no other field changes.
    pub fn split_mode(&mut self)
        ensures
            *final(self) == (Compositor { mode: Mode::Split, ..*old(self) }),
    {
        self.mode = Mode::Split;
    }

    /// Switch to side-by-side mode; no other field changes.
    pub fn side_by_side_mode(&mut self)
        ensures
            *final(self) == (Compositor { mode: Mode::SideBySide, ..*old(self) }),
    {
        self.mode = Mode::SideBySide;
    }

    /// Whether the compositor is in split mode.
    pub fn is_split_mode(&self) -> (r: bool)
        ensures
            r == (self.mode == Mode::Split),
    {
        self.mode == Mode::Split
    }

    /// Whether the compositor is in side-by-side mode.
    pub fn is_side_by_side_mode(&self) -> (r: bool)
        ensures
            r == (self.mode == Mode::SideBySide),
    {
        self.mode == Mode::SideBySide
    }

    /// Restore zoom, pan offset and border to their construction-time
    /// defaults; mode and canvas size are untouched.
    pub fn reset(&mut self)
        requires
            old(self).wf(),
        ensures
            final(self).zoom == 100,
            final(self).offset_x == 0,
            final(self).offset_y == 0,
            final(self).border == old(self).width / 2,
            final(self).mode == old(self).mode,
            final(self).width == old(self).width,
            final(self).height == old(self).height,
            final(self).wf(),
    {
        self.zoom = 100;
        self.offset_x = 0;
        self.offset_y = 0;
        self.border = self.width / 2;
    }

    /// Restore only the border to its construction-time default.
    pub fn reset_border(&mut self)
        requires
            old(self).wf(),
        ensures
            *final(self) == (Compositor { border: (old(self).width / 2) as i32, ..*old(self) }),
            final(self).wf(),
    {
        self.border = self.width / 2;
    }

    /// Restore only zoom and pan offset to their construction-time
    /// defaults; the border is untouched.
    pub fn reset_position(&mut self)
        requires
            old(self).wf(),
        ensures
            *final(self) == (Compositor {
                zoom: 100,
                offset_x: 0,
                offset_y: 0,
                ..*old(self)
            }),
            final(self).wf(),
    {
        self.zoom = 100;
        self.offset_x = 0;
        self.offset_y = 0;
    }

    /// Move the viewport by `x_step` pixels horizontally and `y_step`
    /// pixels vertically.  The offsets are not clamped: the viewport may be
    /// pushed arbitrarily far off-canvas, as long as the sums stay
    /// representable.
    pub fn move_pos(&mut self, x_step: i32, y_step: i32)
        requires
            old(self).wf(),
            i32::MIN <= old(self).offset_x + x_step <= i32::MAX,
            i32::MIN <= old(self).offset_y + y_step <= i32::MAX,
        ensures
            final(self).offset_x == old(self).offset_x + x_step,
            final(self).offset_y == old(self).offset_y + y_step,
            final(self).mode == old(self).mode,
            final(self).zoom == old(self).zoom,
            final(self).border == old(self).border,
            final(self).width == old(self).width,
            final(self).height == old(self).height,
            final(self).wf(),
    {
        self.offset_x = self.offset_x + x_step;
        self.offset_y = self.offset_y + y_step;
    }

    /// Set the pan offset absolutely.
    pub fn move_pos_to(&mut self, x: i32, y: i32)
        requires
            old(self).wf(),
        ensures
            *final(self) == (Compositor { offset_x: x, offset_y: y, ..*old(self) }),
            final(self).wf(),
    {
        self.offset_x = x;
        self.offset_y = y;
    }

    /// Move the border by `offset` pixels, clamped to the canvas.
    pub fn move_border(&mut self, offset: i32)
        requires
            old(self).wf(),
            i32::MIN <= old(self).border + offset <= i32::MAX,
        ensures
            final(self).border == clamp_border(old(self).border + offset, old(self).width as int),
            final(self).mode == old(self).mode,
            final(self).zoom == old(self).zoom,
            final(self).offset_x == old(self).offset_x,
            final(self).offset_y == old(self).offset_y,
            final(self).width == old(self).width,
            final(self).height == old(self).height,
            final(self).wf(),
    {
        self.move_border_to(self.border + offset);
    }

    /// Set the border position, clamped into `[0, width]`.
    pub fn move_border_to(&mut self, new_border: i32)
        requires
            old(self).wf(),
        ensures
            final(self).border == clamp_border(new_border as int, old(self).width as int),
            0 <= final(self).border <= final(self).width,
            final(self).mode == old(self).mode,
            final(self).zoom == old(self).zoom,
            final(self).offset_x == old(self).offset_x,
            final(self).offset_y == old(self).offset_y,
            final(self).width == old(self).width,
            final(self).height == old(self).height,
            final(self).wf(),
    {
        if new_border < 0 {
            self.border = 0
        } else if new_border > self.width {
            self.border = self.width
        } else {
            self.border = new_border
        }
    }
}

impl Compositor {
    /// How far the pan offset moves per zoom step to keep an anchor at `x`
    /// visually stationary, by the current mode.
    pub open spec fn anchor_dx(self, x: int) -> int {
        match self.mode {
            Mode::Split => self.frame().split_anchor_dx(x),
            Mode::SideBySide => self.frame().sbs_anchor_dx(x),
        }
    }

    /// The vertical counterpart of [`Compositor::anchor_dx`], identical in
    /// both modes.
    pub open spec fn anchor_dy(self, y: int) -> int {
        self.frame().anchor_dy(y)
    }

    /// The horizontal pan offset after re-centering around an anchor at
    /// `x`: moved against the anchor when zooming in, toward it when
    /// zooming out.
    pub open spec fn recentered_x(self, x: int, zooming_in: bool) -> int {
        if zooming_in {
            self.offset_x - self.anchor_dx(x)
        } else {
            self.offset_x + self.anchor_dx(x)
        }
    }

    /// The vertical pan offset after re-centering around an anchor at `y`.
    pub open spec fn recentered_y(self, y: int, zooming_in: bool) -> int {
        if zooming_in {
            self.offset_y - self.anchor_dy(y)
        } else {
            self.offset_y + self.anchor_dy(y)
        }
    }

    /// Whether the re-centering around `(x, y)` is defined (in side-by-side
    /// mode the anchor is folded modulo half the canvas width, so the
    /// canvas must be at least two pixels wide) and keeps both offsets
    /// representable.
    pub open spec fn can_recenter(self, x: int, y: int, zooming_in: bool) -> bool {
        &&& self.mode == Mode::SideBySide ==> self.width >= 2
        &&& i32::MIN <= self.recentered_x(x, zooming_in) <= i32::MAX
        &&& i32::MIN <= self.recentered_y(y, zooming_in) <= i32::MAX
    }

    /// `post` is `pre` after one zoom-in step re-centered at `(x, y)`.
    pub open spec fn zoom_in_centered(pre: Compositor, post: Compositor, x: int, y: int) -> bool {
        &&& post.zoom == zoomed_in(pre.zoom as int)
        &&& post.offset_x == pre.recentered_x(x, true)
        &&& post.offset_y == pre.recentered_y(y, true)
        &&& post.mode == pre.mode
        &&& post.border == pre.border
        &&& post.width == pre.width
        &&& post.height == pre.height
    }

    /// `post` is `pre` after one zoom-out step re-centered at `(x, y)`.
    pub open spec fn zoom_out_centered(pre: Compositor, post: Compositor, x: int, y: int) -> bool {
        &&& post.zoom == zoomed_out(pre.zoom as int)
        &&& post.offset_x == pre.recentered_x(x, false)
        &&& post.offset_y == pre.recentered_y(y, false)
        &&& post.mode == pre.mode
        &&& post.border == pre.border
        &&& post.width == pre.width
        &&& post.height == pre.height
    }

    /// Apply the mode-dependent re-centering: subtract the anchor delta
    /// when zooming in, add it back when zooming out.
    fn fix_offset_when_zoom(&mut self, x: i32, y: i32, zooming_in: bool)
        requires
            old(self).wf(),
            old(self).can_recenter(x as int, y as int, zooming_in),
        ensures
            final(self).offset_x == old(self).recentered_x(x as int, zooming_in),
            final(self).offset_y == old(self).recentered_y(y as int, zooming_in),
            final(self).mode == old(self).mode,
            final(self).zoom == old(self).zoom,
            final(self).border == old(self).border,
            final(self).width == old(self).width,
            final(self).height == old(self).height,
            final(self).wf(),
    {
        match self.mode {
            Mode::Split => {
                self.fix_offset_when_zoom_split(x, y, zooming_in);
            }
            Mode::SideBySide => {
                self.fix_offset_when_zoom_side_by_side(x, y, zooming_in);
            }
        }
    }

    /// Split-mode re-centering: the anchor is measured from the canvas
    /// center.
    fn fix_offset_when_zoom_split(&mut self, x: i32, y: i32, zooming_in: bool)
        requires
            old(self).wf(),
            old(self).mode == Mode::Split,
            old(self).can_recenter(x as int, y as int, zooming_in),
        ensures
            final(self).offset_x == old(self).recentered_x(x as int, zooming_in),
            final(self).offset_y == old(self).recentered_y(y as int, zooming_in),
            final(self).mode == old(self).mode,
            final(self).zoom == old(self).zoom,
            final(self).border == old(self).border,
            final(self).width == old(self).width,
            final(self).height == old(self).height,
            final(self).wf(),
    {
        let diff: i64 = x as i64 - (self.width / 2) as i64;
        let new_offset: i64 = diff / (BORDER_STEP as i64);
        if zooming_in {
            self.offset_x = (self.offset_x as i64 - new_offset) as i32;
        } else {
            self.offset_x = (self.offset_x as i64 + new_offset) as i32;
        }

        let diff: i64 = y as i64 - (self.height / 2) as i64;
        let new_offset: i64 = diff / (BORDER_STEP as i64);
        if zooming_in {
            self.offset_y = (self.offset_y as i64 - new_offset) as i32;
        } else {
            self.offset_y = (self.offset_y as i64 + new_offset) as i32;
        }
    }

    /// Side-by-side re-centering: the anchor is first folded into the
    /// coordinate space of a single pane.
    fn fix_offset_when_zoom_side_by_side(&mut self, x: i32, y: i32, zooming_in: bool)
        requires
            old(self).wf(),
            old(self).mode == Mode::SideBySide,
            old(self).can_recenter(x as int, y as int, zooming_in),
        ensures
            final(self).offset_x == old(self).recentered_x(x as int, zooming_in),
            final(self).offset_y == old(self).recentered_y(y as int, zooming_in),
            final(self).mode == old(self).mode,
            final(self).zoom == old(self).zoom,
            final(self).border == old(self).border,
            final(self).width == old(self).width,
            final(self).height == old(self).height,
            final(self).wf(),
    {
        let x: i64 = (x as i64) % ((self.width / 2) as i64);
        let diff: i64 = x - (self.width / 4) as i64;
        let new_offset: i64 = diff / (BORDER_STEP as i64);
        if zooming_in {
            self.offset_x = (self.offset_x as i64 - new_offset) as i32;
        } else {
            self.offset_x = (self.offset_x as i64 + new_offset) as i32;
        }

        let diff: i64 = y as i64 - (self.height / 2) as i64;
        let new_offset: i64 = diff / (BORDER_STEP as i64);
        if zooming_in {
            self.offset_y = (self.offset_y as i64 - new_offset) as i32;
        } else {
            self.offset_y = (self.offset_y as i64 + new_offset) as i32;
        }
    }

    /// Raise the zoom by one step, capped at [`MAX_ZOOM`], re-centering
    /// around the given anchor point (a cursor or scroll location).
    pub fn zoom_in_center_at(&mut self, x: i32, y: i32)
        requires
            old(self).wf(),
            old(self).can_recenter(x as int, y as int, true),
        ensures
            Compositor::zoom_in_centered(*old(self), *final(self), x as int, y as int),
            final(self).wf(),
    {
        let z = self.zoom + BORDER_STEP;
        self.zoom = if z <= MAX_ZOOM {
            z
        } else {
            MAX_ZOOM
        };
        self.fix_offset_when_zoom(x, y, true);
    }

    /// Lower the zoom by one step, floored at 1, re-centering around the
    /// given anchor point.
    pub fn zoom_out_center_at(&mut self, x: i32, y: i32)
        requires
            old(self).wf(),
            old(self).can_recenter(x as int, y as int, false),
        ensures
            Compositor::zoom_out_centered(*old(self), *final(self), x as int, y as int),
            final(self).wf(),
    {
        self.zoom = if self.zoom >= BORDER_STEP + 1 {
            self.zoom - BORDER_STEP
        } else {
            1
        };
        self.fix_offset_when_zoom(x, y, false);
    }

    /// Raise the zoom by one step, anchored at the center of the canvas in
    /// split mode and at the center of the left pane in side-by-side mode;
    /// the pan offset does not move.
    pub fn zoom_in(&mut self)
        requires
            old(self).wf(),
            old(self).mode == Mode::SideBySide ==> old(self).width >= 2,
        ensures
            final(self).zoom == zoomed_in(old(self).zoom as int),
            final(self).offset_x == old(self).offset_x,
            final(self).offset_y == old(self).offset_y,
            final(self).mode == old(self).mode,
            final(self).border == old(self).border,
            final(self).width == old(self).width,
            final(self).height == old(self).height,
            final(self).wf(),
    {
        proof {
            lemma_center_anchor_zero(*self);
        }
        let scale: i32 = if self.is_split_mode() {
            2
        } else {
            4
        };
        self.zoom_in_center_at(self.width / scale, self.height / 2);
    }

    /// Lower the zoom by one step, anchored as in [`Compositor::zoom_in`];
    /// the pan offset does not move.
    pub fn zoom_out(&mut self)
        requires
            old(self).wf(),
            old(self).mode == Mode::SideBySide ==> old(self).width >= 2,
        ensures
            final(self).zoom == zoomed_out(old(self).zoom as int),
            final(self).offset_x == old(self).offset_x,
            final(self).offset_y == old(self).offset_y,
            final(self).mode == old(self).mode,
            final(self).border == old(self).border,
            final(self).width == old(self).width,
            final(self).height == old(self).height,
            final(self).wf(),
    {
        proof {
            lemma_center_anchor_zero(*self);
        }
        let scale: i32 = if self.is_split_mode() {
            2
        } else {
            4
        };
        self.zoom_out_center_at(self.width / scale, self.height / 2);
    }
}

impl Compositor {
    /// The placements of the two video panes for the current state, pane 0
    /// first.  Total over every valid state: degenerate states (a viewport
    /// panned fully off-canvas, a border at an edge, a minimal zoom) yield
    /// hidden or clipped panes, never a negative rectangle and never a
    /// failure.
    pub fn get_positions(&self) -> (r: (Position, Position))
        requires
            self.wf(),
        ensures
            r.0@ == self.panes().0,
            r.1@ == self.panes().1,
            r.0@.width >= 0,
            r.0@.height >= 0,
            r.1@.width >= 0,
            r.1@.height >= 0,
    {
        proof {
            crate::geometry::lemma_panes_nonnegative(self.frame());
        }
        match self.mode {
            Mode::Split => self.get_positions_split(),
            Mode::SideBySide => self.get_positions_side_by_side(),
        }
    }

    /// Split mode: one shared viewport, divided at the border line.
    fn get_positions_split(&self) -> (r: (Position, Position))
        requires
            self.wf(),
        ensures
            r.0@ == self.frame().split_pane0(),
            r.1@ == self.frame().split_pane1(),
    {
        proof {
            crate::geometry::lemma_viewport_bounds(self.frame());
        }
        let width = self.width as i64;
        let height = self.height as i64;
        let border = self.border as i64;
        let viewport_width: i64 = width * (self.zoom as i64) / 100;
        let viewport_height: i64 = height * (self.zoom as i64) / 100;
        let viewport_offset_x: i64 = self.offset_x as i64 - (viewport_width - width) / 2;
        let viewport_offset_y: i64 = self.offset_y as i64 - (viewport_height - height) / 2;

        let pos0 = Position {
            xpos: if viewport_offset_x < border {
                viewport_offset_x
            } else {
                0
            },
            ypos: viewport_offset_y,
            width: if viewport_offset_x < border {
                if border - viewport_offset_x > viewport_width {
                    viewport_width
                } else {
                    border - viewport_offset_x
                }
            } else {
                0
            },
            height: viewport_height,
            crop_right: if viewport_width + viewport_offset_x < border {
                0
            } else if viewport_offset_x > border {
                width
            } else {
                crate::geometry::scale_back_crop(
                    viewport_width + viewport_offset_x - border,
                    width,
                    viewport_width,
                )
            },
            crop_left: 0,
        };

        let pos1 = Position {
            xpos: if viewport_offset_x > border {
                viewport_offset_x
            } else {
                border
            },
            ypos: viewport_offset_y,
            width: {
                let raw = viewport_width + viewport_offset_x - border;
                if raw <= 0 {
                    0
                } else if raw > viewport_width {
                    viewport_width
                } else {
                    raw
                }
            },
            height: viewport_height,
            crop_right: 0,
            crop_left: if viewport_width + viewport_offset_x < border {
                width
            } else if viewport_offset_x > border {
                0
            } else {
                crate::geometry::scale_back_crop(border - viewport_offset_x, width, viewport_width)
            },
        };

        (pos0, pos1)
    }

    /// Side-by-side mode: each video in its own half of the canvas.
    fn get_positions_side_by_side(&self) -> (r: (Position, Position))
        requires
            self.wf(),
        ensures
            r.0@ == self.frame().sbs_pane0(),
            r.1@ == self.frame().sbs_pane1(),
    {
        proof {
            crate::geometry::lemma_viewport_bounds(self.frame());
        }
        let width = self.width as i64;
        let height = self.height as i64;
        let viewport_width: i64 = width * (self.zoom as i64) / 100;
        let viewport_height: i64 = height * (self.zoom as i64) / 100;

        let half_width = width / 2;
        let half_viewport_width = viewport_width / 2;

        let pos_height = viewport_height / 2;
        let pos_ypos = self.offset_y as i64 + (height - pos_height) / 2;

        let pos_xpos = self.offset_x as i64 + (width - viewport_width) / 4;

        let pos0 = Position {
            xpos: if pos_xpos > half_width {
                0
            } else {
                pos_xpos
            },
            ypos: pos_ypos,
            width: if pos_xpos + half_viewport_width > half_width {
                if pos_xpos < half_width {
                    half_width - pos_xpos
                } else {
                    0
                }
            } else {
                half_viewport_width
            },
            height: pos_height,
            crop_right: if pos_xpos + half_viewport_width > half_width {
                crate::geometry::unscale_crop(
                    pos_xpos + half_viewport_width - half_width,
                    width,
                    half_viewport_width,
                )
            } else {
                0
            },
            crop_left: 0,
        };

        let pos1 = Position {
            xpos: if pos_xpos < 0 {
                half_width
            } else {
                pos_xpos + half_width
            },
            ypos: pos_ypos,
            width: if pos_xpos < 0 {
                if half_viewport_width > pos_xpos && half_viewport_width + pos_xpos > 0 {
                    half_viewport_width + pos_xpos
                } else {
                    0
                }
            } else {
                half_viewport_width
            },
            height: pos_height,
            crop_right: 0,
            crop_left: if pos_xpos > 0 || pos_xpos < -half_viewport_width {
                0
            } else {
                crate::geometry::unscale_crop(-pos_xpos, width, half_viewport_width)
            },
        };

        (pos0, pos1)
    }
}

/// In split mode the two pane widths of a valid state always sum to the
/// viewport width: the border and the pan offset only divide the visible
/// pixels between the panes.
pub proof fn lemma_split_panes_width_sum(c: Compositor)
    requires
        c.wf(),
        c.mode == Mode::Split,
    ensures
        c.panes().0.width + c.panes().1.width == c.frame().viewport_width(),
{
    crate::geometry::lemma_split_width_sum(c.frame());
}

/// Pure horizontal panning in split mode conserves the summed width of the
/// two panes whenever the viewport covers the canvas: wherever the split
/// line or the pan point sits, pixels leaving one pane enter the other.
pub proof fn lemma_pan_preserves_width_sum(c1: Compositor, c2: Compositor)
    requires
        c1.wf(),
        c2.wf(),
        c1.mode == Mode::Split,
        c2 == (Compositor { offset_x: c2.offset_x, ..c1 }),
        c1.frame().viewport_width() >= c1.width,
    ensures
        c1.panes().0.width + c1.panes().1.width == c2.panes().0.width + c2.panes().1.width,
{
    crate::geometry::lemma_split_width_sum(c1.frame());
    crate::geometry::lemma_split_width_sum(c2.frame());
}

/// One zoom-in step and one zoom-out step around the same anchor point
/// cancel exactly — zoom, pan offset and every other field return to their
/// starting values — as long as the starting zoom is not within one step of
/// the cap.
pub proof fn lemma_zoom_center_round_trip(
    c0: Compositor,
    c1: Compositor,
    c2: Compositor,
    x: int,
    y: int,
)
    requires
        c0.wf(),
        c0.zoom + BORDER_STEP <= MAX_ZOOM,
        Compositor::zoom_in_centered(c0, c1, x, y),
        Compositor::zoom_out_centered(c1, c2, x, y),
    ensures
        c2 == c0,
{
}

/// Zooming anchored at the canvas center (split mode) or at the center of
/// the left pane (side-by-side mode) needs no pan correction: the anchor
/// sits exactly on the reference line the correction measures from.
proof fn lemma_center_anchor_zero(c: Compositor)
    requires
        c.wf(),
        c.mode == Mode::SideBySide ==> c.width >= 2,
    ensures
        c.mode == Mode::Split ==> c.anchor_dx(c.width as int / 2) == 0,
        c.mode == Mode::SideBySide ==> c.anchor_dx(c.width as int / 4) == 0,
        c.anchor_dy(c.height as int / 2) == 0,
{
    if c.mode == Mode::SideBySide {
        let w = c.width as int;
        assert(w / 4 < w / 2);
        vstd::arithmetic::div_mod::lemma_small_mod((w / 4) as nat, (w / 2) as nat);
        assert(trunc_mod(w / 4, w / 2) == w / 4);
    }
}

} // verus!
