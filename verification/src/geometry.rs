use vstd::prelude::*;

verus! {

/// Number of placement slots on the atlas template.
pub const SLOT_COUNT: usize = 5;

/// Width of the tip card canvas.
pub const TIP_WIDTH: u32 = 796;

/// Height of the tip card canvas.
pub const TIP_HEIGHT: u32 = 1024;

/// Width the painting source is cropped to.
pub const PAINTING_WIDTH: u32 = 243;

/// Height the painting source is cropped to.
pub const PAINTING_HEIGHT: u32 = 324;

/// Horizontal offset of the painting on its template.
pub const PAINTING_X: i64 = 264;

/// Vertical offset of the painting on its template.
pub const PAINTING_Y: i64 = 19;

/// A placement region on the atlas template: its top-left corner and
/// its dimensions, in template pixels.
#[derive(Clone, Copy, Debug, PartialEq, Eq, Structural)]
pub struct SlotRect {
    pub x: u32,
    pub y: u32,
    pub w: u32,
    pub h: u32,
}

/// The fixed placement table: where each of the five source images is
/// put on the atlas template, in slot order.
pub open spec fn slot_spec(i: int) -> SlotRect {
    if i == 0 {
        SlotRect { x: 0, y: 0, w: 341, h: 559 }
    } else if i == 1 {
        SlotRect { x: 346, y: 0, w: 284, h: 559 }
    } else if i == 2 {
        SlotRect { x: 641, y: 58, w: 274, h: 243 }
    } else if i == 3 {
        SlotRect { x: 184, y: 620, w: 411, h: 364 }
    } else {
        SlotRect { x: 632, y: 320, w: 372, h: 672 }
    }
}

/// The slot table entry for slot `i`. Every slot is nonempty and lies
/// within a 1013 by 1015 pixel template.
pub fn slot(i: usize) -> (r: SlotRect)
    requires
        i < SLOT_COUNT,
    ensures
        r == slot_spec(i as int),
        1 <= r.w,
        1 <= r.h,
        r.x + r.w <= 1013,
        r.y + r.h <= 1015,
{
    if i == 0 {
        SlotRect { x: 0, y: 0, w: 341, h: 559 }
    } else if i == 1 {
        SlotRect { x: 346, y: 0, w: 284, h: 559 }
    } else if i == 2 {
        SlotRect { x: 641, y: 58, w: 274, h: 243 }
    } else if i == 3 {
        SlotRect { x: 184, y: 620, w: 411, h: 364 }
    } else {
        SlotRect { x: 632, y: 320, w: 372, h: 672 }
    }
}

} // verus!
