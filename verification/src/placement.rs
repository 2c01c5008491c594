//! Whether the candidate window sits above or below the caret line, and at which point.
//!
//! Deciding the side only by "does it fit this frame" makes the window jump up and down on
//! one line, since its height changes with every frame. So the side used last time is
//! remembered, and kept while the caret stays on the same line and that side still fits.

use vstd::prelude::*;
use crate::geometry::{Rect, clamp_i32, max_i32, clamp_spec, max_spec, in_i32};

verus! {

/// Gap between the caret line and the candidate window (logical pixels).
pub const CARET_GAP: i32 = 2;

/// The previous placement, read and written by [`place`].
#[derive(Clone, Copy, Debug)]
pub struct Placement {
    /// Top and bottom edge of the caret line at that time (physical screen pixels). A new
    /// anchor that overlaps it vertically is on the same line.
    pub line: (i32, i32),
    /// The window was put above the caret.
    pub above: bool,
}

/// Every intermediate value of [`place_in`] fits in `i32`.
pub open spec fn place_in_arith_ok(work: Rect, anchor: Rect, content: (i32, i32)) -> bool {
    &&& in_i32(work.right - content.0)
    &&& in_i32(anchor.bottom + CARET_GAP)
    &&& in_i32(anchor.bottom + CARET_GAP + content.1)
    &&& in_i32(anchor.top - CARET_GAP)
    &&& in_i32(anchor.top - CARET_GAP - content.1)
    &&& in_i32(work.bottom - content.1)
}

/// The x of the content: the anchor's left edge held inside the work area, moved left so the
/// content fits when it can.
pub open spec fn place_x(work: Rect, anchor: Rect, content: (i32, i32)) -> int {
    clamp_spec(anchor.left as int, work.left as int, max_spec(work.right - content.0, work.left as int))
}

/// y when placed below the caret.
pub open spec fn below_y(anchor: Rect) -> int {
    anchor.bottom + CARET_GAP
}

/// y when placed above the caret.
pub open spec fn above_y(anchor: Rect, content: (i32, i32)) -> int {
    anchor.top - CARET_GAP - content.1
}

/// The content fits below the caret inside the work area.
pub open spec fn fits_below(work: Rect, anchor: Rect, content: (i32, i32)) -> bool {
    below_y(anchor) + content.1 <= work.bottom
}

/// The content fits above the caret inside the work area.
pub open spec fn fits_above(work: Rect, anchor: Rect, content: (i32, i32)) -> bool {
    above_y(anchor, content) >= work.top
}

/// The side chosen: the sticky side while it still fits; otherwise below, and above only
/// when below does not fit and above does.
pub open spec fn use_above(work: Rect, anchor: Rect, content: (i32, i32), sticky: Option<bool>) -> bool {
    let fa = fits_above(work, anchor, content);
    let fb = fits_below(work, anchor, content);
    match sticky {
        Some(true) if fa => true,
        Some(false) if fb => false,
        _ => !fb && fa,
    }
}

/// The y of the content for the chosen side; when neither side fits, the content is pushed
/// up from the bottom of the work area but never above its top.
pub open spec fn place_y(work: Rect, anchor: Rect, content: (i32, i32), sticky: Option<bool>) -> int {
    if use_above(work, anchor, content, sticky) {
        above_y(anchor, content)
    } else if fits_below(work, anchor, content) {
        below_y(anchor)
    } else {
        max_spec(work.bottom - content.1, work.top as int)
    }
}

/// The side remembered for `anchor`: the last placement's side when the anchor overlaps
/// its line vertically, none after a line change or before the first placement.
pub open spec fn sticky_side_spec(last: Option<Placement>, anchor: Rect) -> Option<bool> {
    match last {
        Some(p) => if anchor.top < p.line.1 && p.line.0 < anchor.bottom {
            Some(p.above)
        } else {
            None
        },
        None => None,
    }
}

/// The side used last time, or `None` once the anchor moved to another line.
pub fn sticky_side(last: &Option<Placement>, anchor: Rect) -> (r: Option<bool>)
    ensures
        r == sticky_side_spec(*last, anchor),
{
    match last {
        Some(p) => {
            if anchor.top < p.line.1 && p.line.0 < anchor.bottom {
                Some(p.above)
            } else {
                None
            }
        },
        None => None,
    }
}

/// The computing half: the content's top-left corner and whether it sits above the caret.
/// `sticky` is the side used last time on the same line.
pub fn place_in(work: Rect, anchor: Rect, content: (i32, i32), sticky: Option<bool>) -> (r: ((i32, i32), bool))
    requires
        place_in_arith_ok(work, anchor, content),
    ensures
        r.0.0 == place_x(work, anchor, content),
        r.0.1 == place_y(work, anchor, content, sticky),
        r.1 == use_above(work, anchor, content, sticky),
{
    let x = clamp_i32(anchor.left, work.left, max_i32(work.right - content.0, work.left));
    let below = anchor.bottom + CARET_GAP;
    let above = anchor.top - CARET_GAP - content.1;
    let fits_below = below + content.1 <= work.bottom;
    let fits_above = above >= work.top;
    let use_above = match sticky {
        Some(true) if fits_above => true,
        Some(false) if fits_below => false,
        _ => !fits_below && fits_above,
    };
    let y = if use_above {
        above
    } else if fits_below {
        below
    } else {
        max_i32(work.bottom - content.1, work.top)
    };
    ((x, y), use_above)
}

/// The content's top-left corner: below the caret by default, above when below does not fit,
/// otherwise inside the work area; the side of the last placement on the same line is kept
/// while it fits. `work` is the work area of the monitor nearest the anchor. The choice is
/// recorded in `last`.
pub fn place(last: &mut Option<Placement>, work: Rect, anchor: Rect, content: (i32, i32)) -> (r: (i32, i32))
    requires
        place_in_arith_ok(work, anchor, content),
    ensures
        r.0 == place_x(work, anchor, content),
        r.1 == place_y(work, anchor, content, sticky_side_spec(*old(last), anchor)),
        *final(last) == Some(Placement {
            line: (anchor.top, anchor.bottom),
            above: use_above(work, anchor, content, sticky_side_spec(*old(last), anchor)),
        }),
{
    let sticky = sticky_side(last, anchor);
    let (position, above) = place_in(work, anchor, content, sticky);
    *last = Some(Placement { line: (anchor.top, anchor.bottom), above });
    position
}

/// The placed content lies inside the work area whenever it is no larger than the work area
/// and the caret line lies inside it vertically.
pub proof fn lemma_placement_inside_work_area(work: Rect, anchor: Rect, content: (i32, i32), sticky: Option<bool>)
    requires
        place_in_arith_ok(work, anchor, content),
        0 <= content.0 <= work.right - work.left,
        0 <= content.1 <= work.bottom - work.top,
        work.top <= anchor.top <= anchor.bottom <= work.bottom,
    ensures
        work.left <= place_x(work, anchor, content),
        place_x(work, anchor, content) + content.0 <= work.right,
        work.top <= place_y(work, anchor, content, sticky),
        place_y(work, anchor, content, sticky) + content.1 <= work.bottom,
{
}

/// Without a remembered side the window goes below the caret, at the gap under the caret line,
/// whenever it fits there; it goes above only when below does not fit.
pub proof fn lemma_below_by_default(work: Rect, anchor: Rect, content: (i32, i32))
    ensures
        fits_below(work, anchor, content) ==> !use_above(work, anchor, content, None)
            && place_y(work, anchor, content, None) == anchor.bottom + CARET_GAP,
        use_above(work, anchor, content, None) ==> !fits_below(work, anchor, content),
{
}

/// A remembered side that still fits is kept, whatever the other side offers.
pub proof fn lemma_sticky_side_kept_while_it_fits(work: Rect, anchor: Rect, content: (i32, i32), side: bool)
    requires
        side ==> fits_above(work, anchor, content),
        !side ==> fits_below(work, anchor, content),
    ensures
        use_above(work, anchor, content, Some(side)) == side,
{
}

/// After `place` on one line, a later placement whose anchor overlaps that line keeps the
/// chosen side as long as that side still fits, however the content's height changed.
pub proof fn lemma_same_line_keeps_side(
    prev: Option<Placement>,
    work: Rect,
    anchor: Rect,
    content: (i32, i32),
    next_work: Rect,
    next_anchor: Rect,
    next_content: (i32, i32),
)
    requires
        next_anchor.top < anchor.bottom,
        anchor.top < next_anchor.bottom,
        use_above(work, anchor, content, sticky_side_spec(prev, anchor)) ==> fits_above(
            next_work,
            next_anchor,
            next_content,
        ),
        !use_above(work, anchor, content, sticky_side_spec(prev, anchor)) ==> fits_below(
            next_work,
            next_anchor,
            next_content,
        ),
    ensures
        ({
            let chosen = use_above(work, anchor, content, sticky_side_spec(prev, anchor));
            let remembered = Some(Placement { line: (anchor.top, anchor.bottom), above: chosen });
            use_above(next_work, next_anchor, next_content, sticky_side_spec(remembered, next_anchor))
                == chosen
        }),
{
}

/// Whenever one side of the caret fits, the chosen side is one that fits: a remembered side
/// that no longer fits gives way to the other side, and the window then lies wholly above or
/// wholly below the caret line, never over it. Only when neither side fits does the window go
/// elsewhere.
pub proof fn lemma_chosen_side_fits(work: Rect, anchor: Rect, content: (i32, i32), sticky: Option<bool>)
    requires
        0 <= content.1,
    ensures
        use_above(work, anchor, content, sticky) ==> above_y(anchor, content) >= work.top,
        fits_above(work, anchor, content) || fits_below(work, anchor, content) ==> (if use_above(
            work,
            anchor,
            content,
            sticky,
        ) {
            above_y(anchor, content) >= work.top && place_y(work, anchor, content, sticky) + content.1
                <= anchor.top - CARET_GAP
        } else {
            below_y(anchor) + content.1 <= work.bottom && place_y(work, anchor, content, sticky)
                >= anchor.bottom + CARET_GAP
        }),
        sticky == Some(false) && !fits_below(work, anchor, content) && fits_above(work, anchor, content)
            ==> use_above(work, anchor, content, sticky),
        sticky == Some(true) && !fits_above(work, anchor, content) && fits_below(work, anchor, content)
            ==> !use_above(work, anchor, content, sticky),
{
}

} // verus!
