//! The settings the router uses, taken from the configuration file.

use vstd::prelude::*;
use crate::strings::{trim, is_trim_of};
use crate::theme::ThemeMode;

verus! {

/// The settings the router uses.
#[derive(Debug)]
pub struct RouterConfig {
    /// Candidates per page (`[general] page_size`).
    pub page_size: usize,
    /// Candidate-window appearance (`[general] theme`).
    pub theme: ThemeMode,
    /// Font family of the candidate window (`[general] font`), trimmed; empty for the system font.
    pub font: String,
    /// Page keys, previous / next (`[general] page_keys`).
    pub page_keys: (char, char),
    /// Full-width punctuation in Chinese mode while not composing.
    pub full_width: bool,
    /// The same for English mode.
    pub english_full_width: bool,
    /// The floating status bar is on (`[status_bar] enabled`).
    pub status_enabled: bool,
    /// The status bar's remembered position, only when both `x` and `y` are set.
    pub status_pos: Option<(i32, i32)>,
}

impl RouterConfig {
    /// Builds the router's settings from the configuration values: the font is trimmed and
    /// the status-bar position exists only when both coordinates do.
    pub fn from_values(
        page_size: usize,
        theme: ThemeMode,
        font: &str,
        page_keys: (char, char),
        full_width: bool,
        english_full_width: bool,
        status_enabled: bool,
        status_x: Option<i32>,
        status_y: Option<i32>,
    ) -> (r: Self)
        ensures
            r.page_size == page_size,
            r.theme == theme,
            is_trim_of(font@, r.font@),
            r.page_keys == page_keys,
            r.full_width == full_width,
            r.english_full_width == english_full_width,
            r.status_enabled == status_enabled,
            r.status_pos == (match (status_x, status_y) {
                (Some(x), Some(y)) => Some((x, y)),
                _ => None,
            }),
    {
        let status_pos = match (status_x, status_y) {
            (Some(x), Some(y)) => Some((x, y)),
            _ => None,
        };
        RouterConfig {
            page_size,
            theme,
            font: String::from_str(trim(font)),
            page_keys,
            full_width,
            english_full_width,
            status_enabled,
            status_pos,
        }
    }
}

} // verus!
