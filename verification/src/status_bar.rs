//! The floating status bar: its four cells, its first position at the bottom-right corner of
//! the primary work area, and keeping its content inside the work area it is on.

use vstd::prelude::*;
use crate::geometry::{Rect, clamp_i32, max_i32, clamp_spec, max_spec, in_i32};
use crate::theme::ColorScheme;

verus! {

/// Gap between the status bar and the screen edge (logical pixels).
pub const EDGE_GAP: i32 = 8;

/// What the status bar shows at one time.
#[derive(Clone, Debug)]
pub struct StatusView {
    /// English mode (`false` is Chinese).
    pub english: bool,
    /// The configuration key of the shuangpin scheme when one is on.
    pub scheme: Option<String>,
    /// Full-width punctuation is on for the current mode.
    pub full_width: bool,
    /// The colour scheme shared with the candidate window and the settings.
    pub color_scheme: ColorScheme,
    /// Remembered top-left corner of the content (physical pixels); `None` the first time.
    pub anchor: Option<(i32, i32)>,
}

/// One cell of the status bar, left to right.
#[derive(Clone, Debug, PartialEq, Eq)]
pub enum StatusCell {
    /// The drag handle.
    Logo,
    /// The mode stamp, with the compact mark of the shuangpin scheme.
    Mode { text: String, scheme: Option<String> },
    /// A text cell drawn in the brand colour when `active`, grey otherwise.
    Text { text: String, active: bool },
    /// The settings gear.
    Gear,
}

/// The text of the mode cell: `A` in English mode, `中` in Chinese mode.
pub open spec fn mode_text_spec(english: bool) -> Seq<char> {
    if english {
        "A"@
    } else {
        "中"@
    }
}

/// The text of the punctuation cell: full-width `，。` when on, half-width `,.` when off.
pub open spec fn punctuation_text_spec(full_width: bool) -> Seq<char> {
    if full_width {
        "，。"@
    } else {
        ",."@
    }
}

/// The four cells the renderer draws: drag logo, mode text (with the scheme mark in Chinese
/// mode only), punctuation (brand colour when full-width is on), settings gear.
/// `scheme_mark` is the compact mark of `view.scheme` (for example `鹤` for `xiaohe`), if any.
pub fn status_cells(view: &StatusView, scheme_mark: Option<String>) -> (r: Vec<StatusCell>)
    ensures
        r.len() == 4,
        r[0] is Logo,
        r[1] matches StatusCell::Mode { text, scheme } && text@ == mode_text_spec(view.english)
            && scheme == (if view.english { None } else { scheme_mark }),
        r[2] matches StatusCell::Text { text, active } && text@ == punctuation_text_spec(view.full_width)
            && active == view.full_width,
        r[3] is Gear,
{
    let scheme = if view.english {
        None
    } else {
        scheme_mark
    };
    let mode = if view.english {
        String::from_str("A")
    } else {
        String::from_str("中")
    };
    let punctuation = if view.full_width {
        String::from_str("，。")
    } else {
        String::from_str(",.")
    };
    let mut cells: Vec<StatusCell> = Vec::new();
    cells.push(StatusCell::Logo);
    cells.push(StatusCell::Mode { text: mode, scheme });
    cells.push(StatusCell::Text { text: punctuation, active: view.full_width });
    cells.push(StatusCell::Gear);
    cells
}

/// Where the status bar is: the content's top-left corner once known.
#[derive(Clone, Copy, Debug)]
pub struct StatusPlacement {
    /// Remembered top-left corner of the content (physical pixels).
    pub pos: Option<(i32, i32)>,
}

impl StatusPlacement {
    /// No position yet.
    pub fn new() -> (r: Self)
        ensures
            r.pos is None,
    {
        StatusPlacement { pos: None }
    }

    /// On each update: the configured corner is taken only while no position is known yet.
    pub fn adopt(&mut self, configured: Option<(i32, i32)>)
        ensures
            final(self).pos == (if old(self).pos is None { configured } else { old(self).pos }),
    {
        if self.pos.is_none() {
            self.pos = configured;
        }
    }

    /// The corner before clamping: the remembered one, else the default corner of the primary
    /// work area `primary`.
    pub fn proposed_anchor(&self, primary: Rect, content: (i32, i32), margin: i32) -> (r: (i32, i32))
        requires
            self.pos is None ==> default_anchor_ok(primary, content, margin),
        ensures
            self.pos matches Some(p) ==> r == p,
            self.pos is None ==> r.0 == default_anchor_spec(primary, content, margin).0
                && r.1 == default_anchor_spec(primary, content, margin).1,
    {
        match self.pos {
            Some(p) => p,
            None => default_anchor(primary, content, margin),
        }
    }

    /// Clamps `proposed` into `work` (the work area of the monitor it is on), remembers the
    /// result and returns it.
    pub fn anchor(&mut self, work: Rect, proposed: (i32, i32), content: (i32, i32), margin: i32) -> (r: (i32, i32))
        requires
            clamp_anchor_ok(work, content, margin),
        ensures
            r.0 == clamp_anchor_spec(work, proposed, content, margin).0,
            r.1 == clamp_anchor_spec(work, proposed, content, margin).1,
            final(self).pos == Some(r),
    {
        let r = clamp_anchor(work, proposed, content, margin);
        self.pos = Some(r);
        r
    }
}

/// The client x of a mouse message: the low 16 bits of `lparam`, signed.
pub open spec fn client_x_spec(lparam: isize) -> int {
    let low = (lparam & 0xffff) as int;
    if low >= 0x8000 {
        low - 0x10000
    } else {
        low
    }
}

/// The client x carried by a mouse message's `lparam` (signed, so positions left of the
/// window are negative).
pub fn client_x(lparam: isize) -> (r: i32)
    ensures
        r == client_x_spec(lparam),
{
    let low = lparam & 0xffff;
    assert(0 <= low <= 0xffff) by (bit_vector)
        requires
            low == lparam & 0xffff,
    ;
    let low = low as i32;
    if low >= 0x8000 {
        low - 0x10000
    } else {
        low
    }
}

/// `a / b` rounded toward zero, as Rust's integer division does.
pub open spec fn trunc_div(a: int, b: int) -> int {
    if a >= 0 {
        a / b
    } else {
        -((-a) / b)
    }
}

/// The gap kept to the screen edge: the edge gap scaled with the shadow margin, never less
/// than the edge gap itself.
pub open spec fn edge_gap_spec(margin: int) -> int {
    max_spec(trunc_div(EDGE_GAP * margin, 16), EDGE_GAP as int)
}

/// The first position: bottom-right corner of the primary work area, leaving margin and gap.
pub open spec fn default_anchor_spec(work: Rect, content: (i32, i32), margin: i32) -> (int, int) {
    let gap = edge_gap_spec(margin as int);
    (work.right - margin - gap - content.0, work.bottom - margin - gap - content.1)
}

/// `default_anchor` computes without leaving `i32`.
pub open spec fn default_anchor_ok(work: Rect, content: (i32, i32), margin: i32) -> bool {
    let gap = edge_gap_spec(margin as int);
    &&& in_i32(EDGE_GAP * margin)
    &&& in_i32(work.right - margin)
    &&& in_i32(work.right - margin - gap)
    &&& in_i32(work.right - margin - gap - content.0)
    &&& in_i32(work.bottom - margin)
    &&& in_i32(work.bottom - margin - gap)
    &&& in_i32(work.bottom - margin - gap - content.1)
}

/// The gap to the screen edge for a shadow margin.
pub fn edge_gap(margin: i32) -> (r: i32)
    requires
        in_i32(EDGE_GAP * margin),
    ensures
        r == edge_gap_spec(margin as int),
{
    let scaled = EDGE_GAP * margin;
    let divided = if scaled >= 0 {
        scaled / 16
    } else {
        -((-(scaled as i64) / 16) as i32)
    };
    max_i32(divided, EDGE_GAP)
}

/// Where the status bar appears the first time: the bottom-right corner of `work` (the primary
/// monitor's work area), leaving room for the margin and the gap.
pub fn default_anchor(work: Rect, content: (i32, i32), margin: i32) -> (r: (i32, i32))
    requires
        default_anchor_ok(work, content, margin),
    ensures
        r.0 == default_anchor_spec(work, content, margin).0,
        r.1 == default_anchor_spec(work, content, margin).1,
{
    let gap = edge_gap(margin);
    (work.right - margin - gap - content.0, work.bottom - margin - gap - content.1)
}

/// The content's corner held inside `work` (the work area of the monitor the corner is on) so
/// the whole content stays visible, margin included.
pub open spec fn clamp_anchor_spec(work: Rect, anchor: (i32, i32), content: (i32, i32), margin: i32) -> (int, int) {
    (
        clamp_spec(anchor.0 as int, work.left + margin, max_spec(work.right - margin - content.0, work.left + margin)),
        clamp_spec(anchor.1 as int, work.top + margin, max_spec(work.bottom - margin - content.1, work.top + margin)),
    )
}

/// `clamp_anchor` computes without leaving `i32`.
pub open spec fn clamp_anchor_ok(work: Rect, content: (i32, i32), margin: i32) -> bool {
    &&& in_i32(work.left + margin)
    &&& in_i32(work.top + margin)
    &&& in_i32(work.right - margin)
    &&& in_i32(work.right - margin - content.0)
    &&& in_i32(work.bottom - margin)
    &&& in_i32(work.bottom - margin - content.1)
}

/// Holds the content's top-left corner inside the work area it is on, so the whole content is
/// visible.
pub fn clamp_anchor(work: Rect, anchor: (i32, i32), content: (i32, i32), margin: i32) -> (r: (i32, i32))
    requires
        clamp_anchor_ok(work, content, margin),
    ensures
        r.0 == clamp_anchor_spec(work, anchor, content, margin).0,
        r.1 == clamp_anchor_spec(work, anchor, content, margin).1,
{
    let left = work.left + margin;
    let top = work.top + margin;
    let x = clamp_i32(anchor.0, left, max_i32(work.right - margin - content.0, left));
    let y = clamp_i32(anchor.1, top, max_i32(work.bottom - margin - content.1, top));
    (x, y)
}

/// A clamped corner keeps the content, with its margin, inside the work area whenever the
/// content and margins fit in it; a corner already inside is left where it is.
pub proof fn lemma_clamped_anchor_is_visible(work: Rect, anchor: (i32, i32), content: (i32, i32), margin: i32)
    requires
        0 <= content.0,
        0 <= content.1,
        work.left + margin + content.0 <= work.right - margin,
        work.top + margin + content.1 <= work.bottom - margin,
    ensures
        ({
            let r = clamp_anchor_spec(work, anchor, content, margin);
            &&& work.left + margin <= r.0
            &&& r.0 + content.0 + margin <= work.right
            &&& work.top + margin <= r.1
            &&& r.1 + content.1 + margin <= work.bottom
        }),
        (work.left + margin <= anchor.0 && anchor.0 + content.0 + margin <= work.right
            && work.top + margin <= anchor.1 && anchor.1 + content.1 + margin <= work.bottom)
            ==> clamp_anchor_spec(work, anchor, content, margin) == (anchor.0 as int, anchor.1 as int),
{
}

/// The first position keeps the content and its shadow at least the edge gap away from the
/// right and bottom edges of the work area.
pub proof fn lemma_default_anchor_keeps_gap(work: Rect, content: (i32, i32), margin: i32)
    ensures
        default_anchor_spec(work, content, margin).0 + content.0 + margin + EDGE_GAP <= work.right,
        default_anchor_spec(work, content, margin).1 + content.1 + margin + EDGE_GAP <= work.bottom,
{
}

} // verus!
