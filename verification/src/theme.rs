//! Light / dark resolution, colour schemes and the DPI bookkeeping shared by the windows.

use vstd::prelude::*;

verus! {

/// The configured appearance of the candidate window.
#[derive(Clone, Copy, Debug, PartialEq, Eq, Structural)]
pub enum ThemeMode {
    Light,
    Dark,
    System,
}

/// The colour scheme shared by the candidate window, the status bar and the settings.
#[derive(Clone, Copy, Debug, PartialEq, Eq, Structural)]
pub enum ColorScheme {
    Cream,
    Zizai,
    Latte,
    Forest,
}

/// One of the renderer's eight palettes: a scheme in its light or dark variant.
#[derive(Clone, Copy, Debug, PartialEq, Eq, Structural)]
pub struct PaletteChoice {
    pub scheme: ColorScheme,
    pub dark: bool,
}

/// Dark or light for `mode`; `System` follows the system setting `system_dark`.
pub open spec fn resolve_dark_spec(mode: ThemeMode, system_dark: bool) -> bool {
    match mode {
        ThemeMode::Light => false,
        ThemeMode::Dark => true,
        ThemeMode::System => system_dark,
    }
}

/// Dark or light for the configured mode; `system_dark` is what the system prefers (read by
/// the caller only when needed).
pub fn resolve_dark(mode: ThemeMode, system_dark: bool) -> (r: bool)
    ensures
        r == resolve_dark_spec(mode, system_dark),
{
    match mode {
        ThemeMode::Light => false,
        ThemeMode::Dark => true,
        ThemeMode::System => system_dark,
    }
}

/// Whether reading the system setting is needed to resolve `mode`.
pub fn needs_system_theme(mode: ThemeMode) -> (r: bool)
    ensures
        r == (mode == ThemeMode::System),
{
    match mode {
        ThemeMode::System => true,
        _ => false,
    }
}

/// The palette of `scheme` in its light or dark variant.
pub fn palette_for(scheme: ColorScheme, dark: bool) -> (r: PaletteChoice)
    ensures
        r == (PaletteChoice { scheme, dark }),
{
    PaletteChoice { scheme, dark }
}

/// The DPI a window starts with: the system DPI, never below 96.
pub fn initial_dpi(system_dpi: u32) -> (r: u32)
    ensures
        r == (if system_dpi >= 96 { system_dpi } else { 96 }),
{
    if system_dpi >= 96 {
        system_dpi
    } else {
        96
    }
}

/// The DPI after a window reported `reported`: `0` means the query failed and the previous
/// value stays.
pub fn effective_dpi(reported: u32, previous: u32) -> (r: u32)
    ensures
        r == (if reported == 0 { previous } else { reported }),
{
    if reported == 0 {
        previous
    } else {
        reported
    }
}

/// The settings window's applied look: light or dark, and the colour scheme its visuals use.
#[derive(Clone, Copy, Debug)]
pub struct ThemeFollower {
    pub dark: bool,
    pub applied_scheme: ColorScheme,
}

/// What following the system does this frame.
#[derive(Clone, Copy, Debug, PartialEq, Eq, Structural)]
pub struct FollowStep {
    /// Rebuild both visuals for the new colour scheme.
    pub apply_visuals: bool,
    /// Switch the window (and its drawn title bar) to the current lightness.
    pub switch_theme: bool,
}

impl ThemeFollower {
    /// Follows the system: the visuals are rebuilt when the configured scheme changed, and the
    /// window's theme is switched when the system lightness or the scheme changed.
    pub fn follow(&mut self, now_dark: bool, scheme: ColorScheme) -> (r: FollowStep)
        ensures
            r.apply_visuals == (scheme != old(self).applied_scheme),
            r.switch_theme == (now_dark != old(self).dark || scheme != old(self).applied_scheme),
            final(self).applied_scheme == scheme,
            r.switch_theme ==> final(self).dark == now_dark,
            !r.switch_theme ==> final(self).dark == old(self).dark,
    {
        let scheme_changed = scheme != self.applied_scheme;
        if scheme_changed {
            self.applied_scheme = scheme;
        }
        let switch_theme = now_dark != self.dark || scheme_changed;
        if switch_theme {
            self.dark = now_dark;
        }
        FollowStep { apply_visuals: scheme_changed, switch_theme }
    }
}

/// Once followed, a second look with nothing changed does nothing.
pub proof fn lemma_follow_is_stable(now_dark: bool, scheme: ColorScheme)
    ensures
        ({
            let after = ThemeFollower { dark: now_dark, applied_scheme: scheme };
            &&& !(scheme != after.applied_scheme)
            &&& !(now_dark != after.dark || scheme != after.applied_scheme)
        }),
{
}

} // verus!
