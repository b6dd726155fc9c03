//! Mathematical model of the viewport geometry.
//!
//! A [`Frame`] gathers the numeric state of a viewport (canvas size, zoom
//! percentage, pan offset and split border) as unbounded integers, and the
//! spec functions here derive from it the placement rectangle and crop
//! amounts of each video pane.  The executable types in the rest of the
//! crate state their contracts in terms of this model.

use vstd::prelude::*;

verus! {

/// Zoom percentage change of a single zoom step, and the divisor used to
/// re-center the pan offset when zooming around an anchor point.
pub const BORDER_STEP: usize = 10;

/// Largest accepted zoom percentage (10_000x magnification).
pub const MAX_ZOOM: usize = 1_000_000;

/// Largest accepted canvas dimension, in pixels.
pub const MAX_DIM: i32 = 1_000_000;

/// Quotient of `a / b` rounded toward zero, as Rust's `/` computes it on
/// signed integers (ghost `/` alone rounds toward negative infinity).
pub open spec fn trunc_div(a: int, b: int) -> int
    recommends
        b > 0,
{
    if a >= 0 {
        a / b
    } else {
        -((-a) / b)
    }
}

/// Remainder of `a / b` with the sign of `a`, as Rust's `%` computes it on
/// signed integers.
pub open spec fn trunc_mod(a: int, b: int) -> int
    recommends
        b > 0,
{
    if a >= 0 {
        a % b
    } else {
        -((-a) % b)
    }
}

/// The placement of one video pane on the canvas: where the pane is drawn,
/// how large it is drawn, and how many source pixels are cut from each side
/// before scaling.
pub struct Placement {
    pub xpos: int,
    pub ypos: int,
    pub width: int,
    pub height: int,
    pub crop_right: int,
    pub crop_left: int,
}

/// The numeric state a placement is derived from.
pub struct Frame {
    pub width: int,
    pub height: int,
    pub zoom: int,
    pub offset_x: int,
    pub offset_y: int,
    pub border: int,
}

impl Frame {
    /// A valid viewport state: canvas dimensions and zoom within their
    /// bounds, border inside the canvas, pan offsets representable.
    pub open spec fn wf(self) -> bool {
        &&& 0 <= self.width <= MAX_DIM
        &&& 0 <= self.height <= MAX_DIM
        &&& 1 <= self.zoom <= MAX_ZOOM
        &&& 0 <= self.border <= self.width
        &&& i32::MIN <= self.offset_x <= i32::MAX
        &&& i32::MIN <= self.offset_y <= i32::MAX
    }

    /// Canvas width scaled by the zoom percentage, truncated to a pixel.
    pub open spec fn viewport_width(self) -> int {
        self.width * self.zoom / 100
    }

    /// Canvas height scaled by the zoom percentage, truncated to a pixel.
    pub open spec fn viewport_height(self) -> int {
        self.height * self.zoom / 100
    }

    /// Left edge of the zoomed viewport: zoom growth is split evenly around
    /// the canvas center, then the pan offset is applied.
    pub open spec fn viewport_offset_x(self) -> int {
        self.offset_x - trunc_div(self.viewport_width() - self.width, 2)
    }

    /// Top edge of the zoomed viewport.
    pub open spec fn viewport_offset_y(self) -> int {
        self.offset_y - trunc_div(self.viewport_height() - self.height, 2)
    }
}

/// A displayed crop amount converted back to source-video pixels: the crop
/// properties consumed downstream are measured before the zoom scale factor
/// is applied.  A viewport of zero width carries no visible pixels, so its
/// crop is zero.
pub open spec fn scale_back(cropped: int, width: int, viewport_width: int) -> int {
    if viewport_width > 0 {
        cropped * width / viewport_width
    } else {
        0
    }
}

/// A side-by-side crop amount converted back to source pixels; an
/// unreasonable result of a full source width or more means no effective
/// crop, and a pane of zero drawn width carries none either.
pub open spec fn unscale(cropped: int, width: int, half_viewport_width: int) -> int {
    if half_viewport_width > 0 {
        let s = cropped * width / half_viewport_width;
        if s < width {
            s
        } else {
            0
        }
    } else {
        0
    }
}

/// A border request clamped into the canvas range `[0, width]`.
pub open spec fn clamp_border(v: int, width: int) -> int {
    if v < 0 {
        0
    } else if v > width {
        width
    } else {
        v
    }
}

/// The zoom percentage after one zoom-in step.
pub open spec fn zoomed_in(z: int) -> int {
    if z + BORDER_STEP <= MAX_ZOOM {
        z + BORDER_STEP
    } else {
        MAX_ZOOM as int
    }
}

/// The zoom percentage after one zoom-out step.
pub open spec fn zoomed_out(z: int) -> int {
    if z - BORDER_STEP >= 1 {
        z - BORDER_STEP
    } else {
        1
    }
}

impl Frame {
    /// Split mode, left pane: everything left of the border line.
    pub open spec fn split_pane0(self) -> Placement {
        let v = self.viewport_width();
        let o = self.viewport_offset_x();
        let b = self.border;
        Placement {
            xpos: if o < b {
                o
            } else {
                0
            },
            ypos: self.viewport_offset_y(),
            width: if o < b {
                if b - o > v {
                    v
                } else {
                    b - o
                }
            } else {
                0
            },
            height: self.viewport_height(),
            crop_right: if v + o < b {
                0
            } else if o > b {
                self.width
            } else {
                scale_back(v + o - b, self.width, v)
            },
            crop_left: 0,
        }
    }

    /// Split mode, right pane: everything right of the border line.  The
    /// visible width is the part of the viewport beyond the border, clamped
    /// to `[0, viewport_width]`.
    pub open spec fn split_pane1(self) -> Placement {
        let v = self.viewport_width();
        let o = self.viewport_offset_x();
        let b = self.border;
        Placement {
            xpos: if o > b {
                o
            } else {
                b
            },
            ypos: self.viewport_offset_y(),
            width: {
                let raw = v + o - b;
                if raw <= 0 {
                    0
                } else if raw > v {
                    v
                } else {
                    raw
                }
            },
            height: self.viewport_height(),
            crop_right: 0,
            crop_left: if v + o < b {
                self.width
            } else if o > b {
                0
            } else {
                scale_back(b - o, self.width, v)
            },
        }
    }

    /// Half the canvas width: the fixed midline of side-by-side mode.
    pub open spec fn half_width(self) -> int {
        self.width / 2
    }

    /// Half the zoomed viewport width: the drawn width of one side-by-side
    /// pane.
    pub open spec fn half_viewport_width(self) -> int {
        self.viewport_width() / 2
    }

    /// Drawn height of a side-by-side pane.
    pub open spec fn pane_height(self) -> int {
        self.viewport_height() / 2
    }

    /// Vertical placement shared by both side-by-side panes: the half-height
    /// pane is centered on the canvas, then the pan offset is applied.
    pub open spec fn pane_ypos(self) -> int {
        self.offset_y + trunc_div(self.height - self.pane_height(), 2)
    }

    /// Horizontal base position of a side-by-side pane inside its half of
    /// the canvas: growth is measured against the half-canvas pane width,
    /// hence the quarter.
    pub open spec fn pane_xpos(self) -> int {
        self.offset_x + trunc_div(self.width - self.viewport_width(), 4)
    }

    /// Side-by-side mode, left pane: drawn inside the left half of the
    /// canvas, clipped at the midline.
    pub open spec fn sbs_pane0(self) -> Placement {
        let hw = self.half_width();
        let hv = self.half_viewport_width();
        let px = self.pane_xpos();
        Placement {
            xpos: if px > hw {
                0
            } else {
                px
            },
            ypos: self.pane_ypos(),
            width: if px + hv > hw {
                if px < hw {
                    hw - px
                } else {
                    0
                }
            } else {
                hv
            },
            height: self.pane_height(),
            crop_right: if px + hv > hw {
                unscale(px + hv - hw, self.width, hv)
            } else {
                0
            },
            crop_left: 0,
        }
    }

    /// Side-by-side mode, right pane: the mirror of the left pane, entered
    /// from the midline and cropped on its left edge.
    pub open spec fn sbs_pane1(self) -> Placement {
        let hw = self.half_width();
        let hv = self.half_viewport_width();
        let px = self.pane_xpos();
        Placement {
            xpos: if px < 0 {
                hw
            } else {
                px + hw
            },
            ypos: self.pane_ypos(),
            width: if px < 0 {
                if hv > px && hv + px > 0 {
                    hv + px
                } else {
                    0
                }
            } else {
                hv
            },
            height: self.pane_height(),
            crop_right: 0,
            crop_left: if px > 0 || px < -hv {
                0
            } else {
                unscale(-px, self.width, hv)
            },
        }
    }
}

impl Frame {
    /// How far the pan offset moves per zoom step so that an anchor point
    /// at `x` stays visually stationary, in split mode: the distance from
    /// the canvas center, divided by the step size.
    pub open spec fn split_anchor_dx(self, x: int) -> int {
        trunc_div(x - self.width / 2, BORDER_STEP as int)
    }

    /// The same horizontal correction in side-by-side mode: the anchor is
    /// first folded into the coordinate space of a single pane, then
    /// measured against the quarter line.
    pub open spec fn sbs_anchor_dx(self, x: int) -> int {
        trunc_div(trunc_mod(x, self.width / 2) - self.width / 4, BORDER_STEP as int)
    }

    /// The vertical correction, identical in both modes.
    pub open spec fn anchor_dy(self, y: int) -> int {
        trunc_div(y - self.height / 2, BORDER_STEP as int)
    }
}

/// Executable form of [`scale_back`], over 64-bit intermediates that the
/// callers keep within range.
pub(crate) fn scale_back_crop(cropped: i64, width: i64, viewport_width: i64) -> (r: i64)
    requires
        0 <= cropped <= 20_000_000_000,
        0 <= width <= 1_000_000,
        0 <= viewport_width,
    ensures
        r == scale_back(cropped as int, width as int, viewport_width as int),
{
    if viewport_width > 0 {
        proof {
            assert(0 <= cropped * width <= 20_000_000_000_000_000) by (nonlinear_arith)
                requires
                    0 <= cropped <= 20_000_000_000,
                    0 <= width <= 1_000_000,
            ;
        }
        cropped * width / viewport_width
    } else {
        0
    }
}

/// Executable form of [`unscale`], over 64-bit intermediates that the
/// callers keep within range.
pub(crate) fn unscale_crop(cropped: i64, width: i64, half_viewport_width: i64) -> (r: i64)
    requires
        0 <= cropped <= 20_000_000_000,
        0 <= width <= 1_000_000,
        0 <= half_viewport_width,
    ensures
        r == unscale(cropped as int, width as int, half_viewport_width as int),
{
    if half_viewport_width > 0 {
        proof {
            assert(0 <= cropped * width <= 20_000_000_000_000_000) by (nonlinear_arith)
                requires
                    0 <= cropped <= 20_000_000_000,
                    0 <= width <= 1_000_000,
            ;
        }
        let u = cropped * width / half_viewport_width;
        if u < width {
            u
        } else {
            0
        }
    } else {
        0
    }
}

/// The zoomed viewport of a valid frame never shrinks below zero and stays
/// within ten billion pixels, so every derived quantity fits comfortably in
/// 64-bit arithmetic.
pub proof fn lemma_viewport_bounds(f: Frame)
    requires
        f.wf(),
    ensures
        0 <= f.width * f.zoom <= 1_000_000_000_000,
        0 <= f.height * f.zoom <= 1_000_000_000_000,
        0 <= f.viewport_width() <= 10_000_000_000,
        0 <= f.viewport_height() <= 10_000_000_000,
{
    assert(0 <= f.width * f.zoom <= 1_000_000_000_000) by (nonlinear_arith)
        requires
            0 <= f.width <= 1_000_000,
            0 <= f.zoom <= 1_000_000,
    ;
    assert(0 <= f.height * f.zoom <= 1_000_000_000_000) by (nonlinear_arith)
        requires
            0 <= f.height <= 1_000_000,
            0 <= f.zoom <= 1_000_000,
    ;
}

/// Both panes of a valid frame are placed with non-negative width and
/// height, in either mode: degenerate states hide a pane rather than
/// producing a negative rectangle.
pub proof fn lemma_panes_nonnegative(f: Frame)
    requires
        f.wf(),
    ensures
        f.split_pane0().width >= 0,
        f.split_pane0().height >= 0,
        f.split_pane1().width >= 0,
        f.split_pane1().height >= 0,
        f.sbs_pane0().width >= 0,
        f.sbs_pane0().height >= 0,
        f.sbs_pane1().width >= 0,
        f.sbs_pane1().height >= 0,
{
    lemma_viewport_bounds(f);
}

/// In split mode the two pane widths always sum to the full viewport
/// width: the border and the pan offset only decide how the visible pixels
/// are divided between the panes, never how many there are.
pub proof fn lemma_split_width_sum(f: Frame)
    requires
        f.wf(),
    ensures
        f.split_pane0().width + f.split_pane1().width == f.viewport_width(),
{
    lemma_viewport_bounds(f);
}

} // verus!
