//! The Chinese / English mode icon next to the tray: the glyph is drawn white on black by GDI,
//! then the coverage of each pixel becomes its alpha and the colour becomes the taskbar's
//! glyph colour (non-premultiplied, as in an ICO).

use vstd::prelude::*;

verus! {

/// Glyph colour on a light taskbar (near black) and on a dark one (white), as 0x00RRGGBB.
pub const GLYPH_ON_LIGHT: u32 = 0x0019_1919;
pub const GLYPH_ON_DARK: u32 = 0x00FF_FFFF;

/// The glyph follows the taskbar's lightness (not the applications'): near black on a light
/// taskbar, white on a dark one.
pub fn glyph_color(light_taskbar: bool) -> (r: u32)
    ensures
        r == (if light_taskbar { GLYPH_ON_LIGHT } else { GLYPH_ON_DARK }),
{
    if light_taskbar {
        GLYPH_ON_LIGHT
    } else {
        GLYPH_ON_DARK
    }
}

/// The icon's side: the system's small-icon size held within 16 to 64 pixels.
pub fn icon_size(small_icon_metric: i32) -> (r: i32)
    ensures
        r == (if small_icon_metric < 16 { 16 } else if small_icon_metric > 64 { 64 } else { small_icon_metric }),
        16 <= r <= 64,
{
    if small_icon_metric < 16 {
        16
    } else if small_icon_metric > 64 {
        64
    } else {
        small_icon_metric
    }
}

/// The character shown for the mode: `英` in English mode, `中` in Chinese mode.
pub open spec fn mode_char_spec(english: bool) -> char {
    if english {
        '英'
    } else {
        '中'
    }
}

/// The glyph drawn in the icon and the button's text.
pub fn mode_char(english: bool) -> (r: char)
    ensures
        r == mode_char_spec(english),
{
    if english {
        '英'
    } else {
        '中'
    }
}

/// Writes `text` (UTF-16) into the fixed description field `field`, cut to the field's length;
/// the rest of the field keeps what it held.
pub fn fill_description(field: &mut Vec<u16>, text: &Vec<u16>)
    ensures
        final(field)@.len() == old(field)@.len(),
        forall|i: int| 0 <= i < old(field)@.len() ==> #[trigger] final(field)@[i] == (if i < text@.len() {
            text@[i]
        } else {
            old(field)@[i]
        }),
{
    let n = if text.len() < field.len() {
        text.len()
    } else {
        field.len()
    };
    let mut i: usize = 0;
    while i < n
        invariant
            n <= text@.len(),
            n <= field@.len(),
            n == text@.len() || n == old(field)@.len(),
            i <= n,
            field@.len() == old(field)@.len(),
            forall|j: int| 0 <= j < field@.len() ==> #[trigger] field@[j] == (if j < i {
                text@[j]
            } else {
                old(field)@[j]
            }),
        decreases n - i,
    {
        field.set(i, text[i]);
        i = i + 1;
    }
}

/// The coverage of a GDI pixel (0x00RRGGBB): its brightest channel.
pub open spec fn coverage(p: u32) -> u32 {
    let b = p & 0xff;
    let g = (p >> 8) & 0xff;
    let r = (p >> 16) & 0xff;
    let m = if b >= g { b } else { g };
    if m >= r { m } else { r }
}

/// The icon pixel for a drawn pixel: transparent where nothing was drawn, otherwise the
/// coverage as alpha over the glyph colour.
pub open spec fn icon_pixel(drawn: u32, rgb: u32) -> u32 {
    if coverage(drawn) == 0 {
        0
    } else {
        (coverage(drawn) << 24) | rgb
    }
}

fn coverage_exec(p: u32) -> (r: u32)
    ensures
        r == coverage(p),
        r <= 0xff,
{
    let b = p & 0xff;
    let g = (p >> 8) & 0xff;
    let r = (p >> 16) & 0xff;
    assert(b <= 0xff && g <= 0xff && r <= 0xff) by (bit_vector)
        requires
            b == p & 0xff,
            g == (p >> 8) & 0xff,
            r == (p >> 16) & 0xff,
    ;
    let m = if b >= g {
        b
    } else {
        g
    };
    if m >= r {
        m
    } else {
        r
    }
}

/// Turns the glyph GDI drew (white on black) into the icon's pixels: coverage into alpha,
/// colour into `rgb`.
pub fn coverage_to_alpha(pixels: &mut Vec<u32>, rgb: u32)
    ensures
        final(pixels)@.len() == old(pixels)@.len(),
        forall|i: int| 0 <= i < old(pixels)@.len() ==> #[trigger] final(pixels)@[i] == icon_pixel(old(pixels)@[i], rgb),
{
    let mut i: usize = 0;
    while i < pixels.len()
        invariant
            i <= pixels@.len(),
            pixels@.len() == old(pixels)@.len(),
            forall|j: int| 0 <= j < i ==> #[trigger] pixels@[j] == icon_pixel(old(pixels)@[j], rgb),
            forall|j: int| i <= j < pixels@.len() ==> #[trigger] pixels@[j] == old(pixels)@[j],
        decreases pixels.len() - i,
    {
        let drawn = pixels[i];
        let c = coverage_exec(drawn);
        let value = if c == 0 {
            0
        } else {
            (c << 24) | rgb
        };
        pixels.set(i, value);
        i = i + 1;
    }
}

/// A drawn pixel keeps its coverage: the alpha of the icon pixel is the coverage, and the
/// colour is the glyph colour wherever anything was drawn.
pub proof fn lemma_icon_pixel_alpha(drawn: u32, rgb: u32)
    requires
        rgb <= 0x00ff_ffff,
    ensures
        icon_pixel(drawn, rgb) >> 24 == coverage(drawn),
        coverage(drawn) != 0 ==> icon_pixel(drawn, rgb) & 0x00ff_ffff == rgb,
{
    let c = coverage(drawn);
    assert(c <= 0xff) by (bit_vector)
        requires
            c == (if (if drawn & 0xff >= (drawn >> 8) & 0xff { drawn & 0xff } else { (drawn >> 8) & 0xff }) >= (drawn >> 16) & 0xff {
                if drawn & 0xff >= (drawn >> 8) & 0xff { drawn & 0xff } else { (drawn >> 8) & 0xff }
            } else {
                (drawn >> 16) & 0xff
            }),
    ;
    if c == 0 {
        assert(0u32 >> 24 == 0) by (bit_vector);
    } else {
        assert(((c << 24) | rgb) >> 24 == c && ((c << 24) | rgb) & 0x00ff_ffff == rgb) by (bit_vector)
            requires
                c <= 0xff,
                rgb <= 0x00ff_ffff,
        ;
    }
}

} // verus!
