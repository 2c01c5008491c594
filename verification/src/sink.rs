//! The output end of the candidate window: the router only produces frames; drawing is left
//! to an implementation of [`CandidateSink`] (on Windows, the UI thread).

use vstd::prelude::*;
use crate::geometry::Rect;
use crate::render_data::Frame;

verus! {

/// Where the router's frames go.
pub trait CandidateSink: Send {
    /// Put the candidate window below `rect` (the screen rectangle of the composition) and
    /// redraw it with `frame`.
    fn show(&self, frame: Frame, rect: Rect);

    /// Hide the candidate window.
    fn hide_window(&self);

    /// Switch the candidate window's font; called when installed and after a configuration
    /// reload, only when the setting changed.
    fn set_font(&self, font: String);
}

/// A sink that draws nothing.
pub struct NoopSink;

impl CandidateSink for NoopSink {
    fn show(&self, _frame: Frame, _rect: Rect) {
    }

    fn hide_window(&self) {
    }

    fn set_font(&self, _font: String) {
    }
}

} // verus!
