//! Where the candidate window anchors: the screen rectangle of the composition range. Some
//! applications cannot measure it now and then (layout not done yet, self-drawn edit boxes
//! answering all zeros); the last rectangle measured for this composition is kept then,
//! since jumping to the mouse would make the window hop, and only without any earlier
//! measurement does the mouse position serve.

use vstd::prelude::*;
use crate::geometry::{Point, Rect};

verus! {

/// A measured range rectangle is usable when it has width or height.
pub open spec fn usable(rect: Rect) -> bool {
    rect.right > rect.left || rect.bottom > rect.top
}

/// The measured rectangle, kept only when it has width or height.
pub fn usable_range_rect(measured: Option<Rect>) -> (r: Option<Rect>)
    ensures
        r == (match measured {
            Some(rect) => if usable(rect) { Some(rect) } else { None },
            None => None,
        }),
{
    match measured {
        Some(rect) => {
            if rect.right > rect.left || rect.bottom > rect.top {
                Some(rect)
            } else {
                None
            }
        },
        None => None,
    }
}

/// A line-high anchor at the mouse position.
pub fn mouse_anchor(mouse: Point) -> (r: Rect)
    requires
        mouse.y + 16 <= i32::MAX,
    ensures
        r == (Rect { left: mouse.x, top: mouse.y, right: mouse.x, bottom: (mouse.y + 16) as i32 }),
{
    Rect { left: mouse.x, top: mouse.y, right: mouse.x, bottom: mouse.y + 16 }
}

/// The measured rectangle when usable, else the earlier one, else a box at the mouse.
pub open spec fn anchor_rect_spec(measured: Option<Rect>, previous: Option<Rect>, mouse: Point) -> Rect {
    match measured {
        Some(m) if usable(m) => m,
        _ => match previous {
            Some(p) => p,
            None => Rect { left: mouse.x, top: mouse.y, right: mouse.x, bottom: (mouse.y + 16) as i32 },
        },
    }
}

/// The anchor of the candidate window: the measured range rectangle when usable, else the
/// rectangle measured earlier in this composition, else a line-high box at the mouse.
pub fn anchor_rect(measured: Option<Rect>, previous: Option<Rect>, mouse: Point) -> (r: Rect)
    requires
        mouse.y + 16 <= i32::MAX,
    ensures
        r == anchor_rect_spec(measured, previous, mouse),
{
    match usable_range_rect(measured) {
        Some(rect) => rect,
        None => match previous {
            Some(p) => p,
            None => mouse_anchor(mouse),
        },
    }
}

} // verus!
