//! The candidate window's light and dark colours, as Win32 `COLORREF` values (0x00BBGGRR).

use vstd::prelude::*;

verus! {

/// The `COLORREF` of an RGB colour: red in the low byte, then green, then blue.
pub open spec fn colorref(r: u8, g: u8, b: u8) -> u32 {
    (r + 256 * g + 65536 * b) as u32
}

/// Packs an RGB colour into a `COLORREF`.
pub fn rgb(r: u8, g: u8, b: u8) -> (c: u32)
    ensures
        c == colorref(r, g, b),
        c & 0xff == r,
        (c >> 8) & 0xff == g,
        (c >> 16) & 0xff == b,
        c >> 24 == 0,
{
    let c = (r as u32) | ((g as u32) << 8) | ((b as u32) << 16);
    assert(c == r + 256 * g + 65536 * b && c & 0xff == r && (c >> 8) & 0xff == g && (c >> 16) & 0xff == b
        && c >> 24 == 0) by (bit_vector)
        requires
            c == (r as u32) | ((g as u32) << 8) | ((b as u32) << 16),
    ;
    c
}

/// One set of colours of the candidate window.
#[derive(Clone, Copy, Debug, PartialEq, Eq, Structural)]
pub struct Palette {
    pub accent_color: u32,
    pub text_color: u32,
    pub gloss_color: u32,
    pub pos_color: u32,
    pub fresh_color: u32,
    pub index_color: u32,
    pub caret_color: u32,
    pub correction_color: u32,
    pub background: u32,
    pub highlight: u32,
}

impl Palette {
    /// Light: warm white ground, cobalt accent, mint caret.
    pub fn light() -> (p: Self)
        ensures
            p.accent_color == colorref(0x31, 0x57, 0xd8),
            p.text_color == colorref(0x17, 0x20, 0x33),
            p.gloss_color == colorref(0x66, 0x70, 0x85),
            p.pos_color == colorref(0x98, 0xa2, 0xb3),
            p.fresh_color == colorref(0xf5, 0x9e, 0x0b),
            p.index_color == colorref(0x98, 0xa2, 0xb3),
            p.caret_color == colorref(0x55, 0xd6, 0xc2),
            p.correction_color == colorref(0xe4, 0x6d, 0x6d),
            p.background == colorref(0xf7, 0xf6, 0xf2),
            p.highlight == colorref(0xe8, 0xee, 0xff),
    {
        Palette {
            accent_color: rgb(0x31, 0x57, 0xd8),
            text_color: rgb(0x17, 0x20, 0x33),
            gloss_color: rgb(0x66, 0x70, 0x85),
            pos_color: rgb(0x98, 0xa2, 0xb3),
            fresh_color: rgb(0xf5, 0x9e, 0x0b),
            index_color: rgb(0x98, 0xa2, 0xb3),
            caret_color: rgb(0x55, 0xd6, 0xc2),
            correction_color: rgb(0xe4, 0x6d, 0x6d),
            background: rgb(0xf7, 0xf6, 0xf2),
            highlight: rgb(0xe8, 0xee, 0xff),
        }
    }

    /// Dark: midnight-blue ground; the semantic colours match the light set.
    pub fn dark() -> (p: Self)
        ensures
            p.accent_color == colorref(0x6b, 0x8b, 0xff),
            p.text_color == colorref(0xf7, 0xf6, 0xf2),
            p.gloss_color == colorref(0xb8, 0xc0, 0xd0),
            p.pos_color == colorref(0x7f, 0x8a, 0x9e),
            p.fresh_color == colorref(0xfb, 0xbf, 0x24),
            p.index_color == colorref(0x7f, 0x8a, 0x9e),
            p.caret_color == colorref(0x55, 0xd6, 0xc2),
            p.correction_color == colorref(0xf3, 0x8b, 0x8b),
            p.background == colorref(0x17, 0x20, 0x33),
            p.highlight == colorref(0x25, 0x37, 0x5f),
    {
        Palette {
            accent_color: rgb(0x6b, 0x8b, 0xff),
            text_color: rgb(0xf7, 0xf6, 0xf2),
            gloss_color: rgb(0xb8, 0xc0, 0xd0),
            pos_color: rgb(0x7f, 0x8a, 0x9e),
            fresh_color: rgb(0xfb, 0xbf, 0x24),
            index_color: rgb(0x7f, 0x8a, 0x9e),
            caret_color: rgb(0x55, 0xd6, 0xc2),
            correction_color: rgb(0xf3, 0x8b, 0x8b),
            background: rgb(0x17, 0x20, 0x33),
            highlight: rgb(0x25, 0x37, 0x5f),
        }
    }
}

} // verus!
