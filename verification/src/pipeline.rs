//! Adjustments applied to a pane placement just before it is handed to a
//! video mixer, working around renderer backends that cannot express some
//! degenerate placements.

use vstd::prelude::*;

use crate::compositor::Position;
use crate::geometry::Placement;

verus! {

/// The placement after the renderer workarounds: a fully hidden pane is
/// parked at full size just past the right canvas edge, and, for backends
/// without crop support, a crop of the whole source width is pulled back by
/// ten pixels.
pub open spec fn fixed_pos(p: Placement, width: int, compositor_supports_crop: bool) -> Placement {
    let q = if p.width == 0 {
        Placement { width, xpos: width, ..p }
    } else {
        p
    };
    if !compositor_supports_crop {
        let q2 = if q.crop_right == width {
            Placement { crop_right: width - 10, ..q }
        } else {
            q
        };
        if q2.crop_left == width {
            Placement { crop_left: width - 10, ..q2 }
        } else {
            q2
        }
    } else {
        q
    }
}

/// Rewrite `pos` in place as [`fixed_pos`] describes, `width` being the
/// canvas width.
pub fn fix_pos(pos: &mut Position, width: i32, compositor_supports_crop: bool)
    ensures
        final(pos)@ == fixed_pos(old(pos)@, width as int, compositor_supports_crop),
{
    let w = width as i64;
    // Some mixers cannot place a zero-width pane: park the hidden pane at
    // full size just past the right canvas edge instead.
    if pos.width == 0 {
        pos.width = w;
        pos.xpos = w;
    }

    // Some compositors mishandle a crop of the whole source width: pull it
    // back by ten pixels so the pane stays inside its box.
    if !compositor_supports_crop {
        if pos.crop_right == w {
            pos.crop_right = w - 10;
        }
        if pos.crop_left == w {
            pos.crop_left = w - 10;
        }
    }
}

} // verus!
