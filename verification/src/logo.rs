//! Recolouring the brand logo: each source pixel is matched to the nearest of four semantic
//! source colours, and in dark mode the rounded-square ring of the original artwork becomes
//! the accent colour.
//!
//! The artwork is laid out on a 1024 x 1024 grid; a pixel `(x, y)` of a `width` x `height`
//! image sits at `(1024 x / width, 1024 y / height)` on that grid. The geometry below is
//! stated exactly over those rational points, scaled by the image size to stay in integers.

use vstd::prelude::*;
use crate::wide::{wide_add, wide_from, wide_le, wide_mul};

verus! {

/// Squared difference of two channel values.
pub open spec fn sq_delta(a: u8, b: u8) -> int {
    (a - b) * (a - b)
}

/// Squared Euclidean distance of two RGB colours.
pub open spec fn color_distance_spec(left: [u8; 3], right: [u8; 3]) -> int {
    sq_delta(left[0], right[0]) + sq_delta(left[1], right[1]) + sq_delta(left[2], right[2])
}

proof fn lemma_sq_delta_bound(a: u8, b: u8)
    ensures
        0 <= sq_delta(a, b) <= 255 * 255,
{
    assert(0 <= (a - b) * (a - b) <= 255 * 255) by (nonlinear_arith)
        requires
            0 <= a <= 255,
            0 <= b <= 255,
    ;
}

fn sq_delta_exec(a: u8, b: u8) -> (r: u32)
    ensures
        r == sq_delta(a, b),
{
    proof {
        lemma_sq_delta_bound(a, b);
    }
    let d: i32 = a as i32 - b as i32;
    assert(d * d == sq_delta(a, b));
    assert(0 <= d * d <= 255 * 255);
    (d * d) as u32
}

/// Squared Euclidean distance of two RGB colours.
pub fn color_distance(left: [u8; 3], right: [u8; 3]) -> (r: u32)
    ensures
        r == color_distance_spec(left, right),
{
    proof {
        lemma_sq_delta_bound(left[0], right[0]);
        lemma_sq_delta_bound(left[1], right[1]);
        lemma_sq_delta_bound(left[2], right[2]);
    }
    sq_delta_exec(left[0], right[0]) + sq_delta_exec(left[1], right[1]) + sq_delta_exec(left[2], right[2])
}

/// `v` held inside `[lo, hi]`.
pub open spec fn clamp_int(v: int, lo: int, hi: int) -> int {
    if v < lo {
        lo
    } else if v > hi {
        hi
    } else {
        v
    }
}

/// Whether the point `(px / sw, py / sh)` lies in the rectangle `[left, right] x [top, bottom]`
/// with corners rounded to `radius`: inside the rectangle, and within `radius` of the nearest
/// point of the rectangle shrunk by `radius`. Both sides are multiplied by `sw` and `sh`.
pub open spec fn rounded_rect_contains_spec(
    px: int,
    py: int,
    sw: int,
    sh: int,
    left: int,
    top: int,
    right: int,
    bottom: int,
    radius: int,
) -> bool {
    if px < left * sw || px > right * sw || py < top * sh || py > bottom * sh {
        false
    } else {
        let nx = clamp_int(px, (left + radius) * sw, (right - radius) * sw);
        let ny = clamp_int(py, (top + radius) * sh, (bottom - radius) * sh);
        (px - nx) * (px - nx) * (sh * sh) + (py - ny) * (py - ny) * (sw * sw) <= radius * radius * (sw
            * sw) * (sh * sh)
    }
}

/// Parameters of a rounded rectangle on the 1024 grid that the exact test accepts.
pub open spec fn rect_params_ok(left: u64, top: u64, right: u64, bottom: u64, radius: u64) -> bool {
    &&& left + radius <= right - radius
    &&& top + radius <= bottom - radius
    &&& right <= 1024
    &&& bottom <= 1024
    &&& radius <= 1024
}

/// Whether the point `(px / sw, py / sh)` lies in the rectangle with rounded corners; see
/// [`rounded_rect_contains_spec`].
pub fn rounded_rect_contains(
    px: u128,
    py: u128,
    sw: u64,
    sh: u64,
    left: u64,
    top: u64,
    right: u64,
    bottom: u64,
    radius: u64,
) -> (r: bool)
    requires
        0 < sw,
        0 < sh,
        px <= 1024 * (u64::MAX as int),
        py <= 1024 * (u64::MAX as int),
        rect_params_ok(left, top, right, bottom, radius),
    ensures
        r == rounded_rect_contains_spec(
            px as int,
            py as int,
            sw as int,
            sh as int,
            left as int,
            top as int,
            right as int,
            bottom as int,
            radius as int,
        ),
{
    let sw = sw as u128;
    let sh = sh as u128;
    proof {
        let m = u64::MAX as int;
        assert(left * sw <= 1024 * m) by (nonlinear_arith)
            requires left <= 1024, sw <= m;
        assert(right * sw <= 1024 * m) by (nonlinear_arith)
            requires right <= 1024, sw <= m;
        assert(top * sh <= 1024 * m) by (nonlinear_arith)
            requires top <= 1024, sh <= m;
        assert(bottom * sh <= 1024 * m) by (nonlinear_arith)
            requires bottom <= 1024, sh <= m;
        assert((left + radius) * sw <= 1024 * m) by (nonlinear_arith)
            requires left + radius <= 1024, sw <= m;
        assert((right - radius) * sw <= 1024 * m) by (nonlinear_arith)
            requires 0 <= right - radius <= 1024, sw <= m;
        assert((top + radius) * sh <= 1024 * m) by (nonlinear_arith)
            requires top + radius <= 1024, sh <= m;
        assert((bottom - radius) * sh <= 1024 * m) by (nonlinear_arith)
            requires 0 <= bottom - radius <= 1024, sh <= m;
        assert((left + radius) * sw <= (right - radius) * sw) by (nonlinear_arith)
            requires left + radius <= right - radius, 0 <= sw;
        assert((top + radius) * sh <= (bottom - radius) * sh) by (nonlinear_arith)
            requires top + radius <= bottom - radius, 0 <= sh;
    }
    let left_s = left as u128 * sw;
    let right_s = right as u128 * sw;
    let top_s = top as u128 * sh;
    let bottom_s = bottom as u128 * sh;
    if px < left_s || px > right_s || py < top_s || py > bottom_s {
        return false;
    }
    let lo_x = (left + radius) as u128 * sw;
    let hi_x = (right - radius) as u128 * sw;
    let lo_y = (top + radius) as u128 * sh;
    let hi_y = (bottom - radius) as u128 * sh;
    let nx = if px < lo_x {
        lo_x
    } else if px > hi_x {
        hi_x
    } else {
        px
    };
    let ny = if py < lo_y {
        lo_y
    } else if py > hi_y {
        hi_y
    } else {
        py
    };
    let dx = if px >= nx {
        px - nx
    } else {
        nx - px
    };
    let dy = if py >= ny {
        py - ny
    } else {
        ny - py
    };
    assert((radius as int) * (radius as int) <= 1024 * 1024) by (nonlinear_arith)
        requires
            radius <= 1024,
    ;
    let rr = (radius as u128) * (radius as u128);
    let x_term = wide_mul(&wide_mul(&wide_mul(&wide_from(dx), dx), sh), sh);
    let y_term = wide_mul(&wide_mul(&wide_mul(&wide_from(dy), dy), sw), sw);
    let lhs = wide_add(&x_term, &y_term);
    let rhs = wide_mul(&wide_mul(&wide_mul(&wide_mul(&wide_from(rr), sw), sw), sh), sh);
    proof {
        assert(dx * dx == (px - nx) * (px - nx)) by (nonlinear_arith)
            requires dx == px - nx || dx == nx - px;
        assert(dy * dy == (py - ny) * (py - ny)) by (nonlinear_arith)
            requires dy == py - ny || dy == ny - py;
        assert(dx * dx * sh * sh == (dx * dx) * (sh * sh)) by (nonlinear_arith);
        assert(dy * dy * sw * sw == (dy * dy) * (sw * sw)) by (nonlinear_arith);
        assert(rr * sw * sw * sh * sh == radius * radius * (sw * sw) * (sh * sh)) by (nonlinear_arith)
            requires rr == radius * radius;
    }
    wide_le(&lhs, &rhs)
}

/// Whether pixel `(x, y)` of a `width` x `height` logo lies on the ring of the original
/// rounded square: inside the outer square (64..960, radius 208 on the 1024 grid) and not
/// inside the inner one (120..904, radius 152). An image without width or height has no ring.
pub open spec fn border_pixel_spec(x: int, y: int, width: int, height: int) -> bool {
    if width <= 0 || height <= 0 {
        false
    } else {
        rounded_rect_contains_spec(1024 * x, 1024 * y, width, height, 64, 64, 960, 960, 208)
            && !rounded_rect_contains_spec(1024 * x, 1024 * y, width, height, 120, 120, 904, 904, 152)
    }
}

proof fn lemma_scale_lt(a: int, b: int, k: int)
    requires
        k > 0,
    ensures
        (a * k < b * k) == (a < b),
        (a * k <= b * k) == (a <= b),
        (a * k > b * k) == (a > b),
{
    assert((a * k < b * k) == (a < b)) by (nonlinear_arith)
        requires
            k > 0,
    ;
    assert((a * k <= b * k) == (a <= b)) by (nonlinear_arith)
        requires
            k > 0,
    ;
    assert((a * k > b * k) == (a > b)) by (nonlinear_arith)
        requires
            k > 0,
    ;
}

proof fn lemma_term_scale(d: int, s: int, k: int)
    ensures
        (d * k) * (d * k) * ((s * k) * (s * k)) == d * d * (s * s) * (k * k * k * k),
{
    assert((d * k) * (d * k) == (d * d) * (k * k)) by (nonlinear_arith);
    assert((s * k) * (s * k) == (s * s) * (k * k)) by (nonlinear_arith);
    assert((d * d) * (k * k) * ((s * s) * (k * k)) == d * d * (s * s) * (k * k * k * k)) by (nonlinear_arith);
}

/// Scaling the point and the image by the same factor does not change containment.
proof fn lemma_rounded_rect_scale(px: int, py: int, sw: int, sh: int, l: int, t: int, r: int, b: int, rad: int, k: int)
    requires
        k > 0,
        sw > 0,
        sh > 0,
    ensures
        rounded_rect_contains_spec(px * k, py * k, sw * k, sh * k, l, t, r, b, rad)
            == rounded_rect_contains_spec(px, py, sw, sh, l, t, r, b, rad),
{
    assert(l * (sw * k) == (l * sw) * k) by (nonlinear_arith);
    assert(r * (sw * k) == (r * sw) * k) by (nonlinear_arith);
    assert(t * (sh * k) == (t * sh) * k) by (nonlinear_arith);
    assert(b * (sh * k) == (b * sh) * k) by (nonlinear_arith);
    assert((l + rad) * (sw * k) == ((l + rad) * sw) * k) by (nonlinear_arith);
    assert((r - rad) * (sw * k) == ((r - rad) * sw) * k) by (nonlinear_arith);
    assert((t + rad) * (sh * k) == ((t + rad) * sh) * k) by (nonlinear_arith);
    assert((b - rad) * (sh * k) == ((b - rad) * sh) * k) by (nonlinear_arith);
    lemma_scale_lt(px, l * sw, k);
    lemma_scale_lt(px, r * sw, k);
    lemma_scale_lt(py, t * sh, k);
    lemma_scale_lt(py, b * sh, k);
    lemma_scale_lt(px, (l + rad) * sw, k);
    lemma_scale_lt(px, (r - rad) * sw, k);
    lemma_scale_lt(py, (t + rad) * sh, k);
    lemma_scale_lt(py, (b - rad) * sh, k);
    let nx = clamp_int(px, (l + rad) * sw, (r - rad) * sw);
    let ny = clamp_int(py, (t + rad) * sh, (b - rad) * sh);
    let nxk = clamp_int(px * k, (l + rad) * (sw * k), (r - rad) * (sw * k));
    let nyk = clamp_int(py * k, (t + rad) * (sh * k), (b - rad) * (sh * k));
    assert(nxk == nx * k);
    assert(nyk == ny * k);
    let lhs = (px - nx) * (px - nx) * (sh * sh) + (py - ny) * (py - ny) * (sw * sw);
    let rhs = rad * rad * (sw * sw) * (sh * sh);
    assert(px * k - nxk == (px - nx) * k) by (nonlinear_arith)
        requires
            nxk == nx * k,
    ;
    assert(py * k - nyk == (py - ny) * k) by (nonlinear_arith)
        requires
            nyk == ny * k,
    ;
    lemma_term_scale(px - nx, sh, k);
    lemma_term_scale(py - ny, sw, k);
    assert((px - nx) * (px - nx) * (sh * sh) * (k * k * k * k) + (py - ny) * (py - ny) * (sw * sw) * (k
        * k * k * k) == lhs * (k * k * k * k)) by (nonlinear_arith)
        requires
            lhs == (px - nx) * (px - nx) * (sh * sh) + (py - ny) * (py - ny) * (sw * sw),
    ;
    assert(rad * rad * ((sw * k) * (sw * k)) * ((sh * k) * (sh * k)) == rhs * (k * k * k * k)) by (nonlinear_arith)
        requires
            rhs == rad * rad * (sw * sw) * (sh * sh),
    ;
    assert(k * k * k * k > 0) by (nonlinear_arith)
        requires
            k > 0,
    ;
    lemma_scale_lt(lhs, rhs, k * k * k * k);
}

/// The ring is the same at every resolution: a pixel of an image `k` times larger in both
/// directions, at `k` times the position, is on the ring exactly when the original pixel is.
pub proof fn lemma_border_scales(x: int, y: int, width: int, height: int, k: int)
    requires
        k > 0,
    ensures
        border_pixel_spec(x * k, y * k, width * k, height * k) == border_pixel_spec(x, y, width, height),
{
    if width > 0 && height > 0 {
        assert(width * k > 0 && height * k > 0) by (nonlinear_arith)
            requires
                width > 0,
                height > 0,
                k > 0,
        ;
        assert(1024 * (x * k) == (1024 * x) * k) by (nonlinear_arith);
        assert(1024 * (y * k) == (1024 * y) * k) by (nonlinear_arith);
        lemma_rounded_rect_scale(1024 * x, 1024 * y, width, height, 64, 64, 960, 960, 208, k);
        lemma_rounded_rect_scale(1024 * x, 1024 * y, width, height, 120, 120, 904, 904, 152, k);
    } else {
        assert(!(width * k > 0 && height * k > 0)) by (nonlinear_arith)
            requires
                !(width > 0 && height > 0),
                k > 0,
        ;
    }
}

/// Whether a logo pixel lies on the ring that dark mode paints in the accent colour.
pub fn border_pixel(x: usize, y: usize, width: usize, height: usize) -> (r: bool)
    ensures
        r == border_pixel_spec(x as int, y as int, width as int, height as int),
{
    if width == 0 || height == 0 {
        return false;
    }
    let px = 1024 * (x as u128);
    let py = 1024 * (y as u128);
    rounded_rect_contains(px, py, width as u64, height as u64, 64, 64, 960, 960, 208)
        && !rounded_rect_contains(px, py, width as u64, height as u64, 120, 120, 904, 904, 152)
}

/// The four source colours of the artwork, in the order they are matched: warm white, mint,
/// the blue at the top of the gradient and the blue at its bottom.
pub open spec fn semantic_color(i: int) -> [u8; 3] {
    if i == 0 {
        [247u8, 246u8, 242u8]
    } else if i == 1 {
        [85u8, 214u8, 194u8]
    } else if i == 2 {
        [49u8, 87u8, 216u8]
    } else {
        [36u8, 79u8, 219u8]
    }
}

/// `i` is the first of the four source colours nearest to `rgb`.
pub open spec fn is_first_nearest(rgb: [u8; 3], i: int) -> bool {
    &&& 0 <= i < 4
    &&& forall|j: int| 0 <= j < 4 ==> color_distance_spec(rgb, semantic_color(i)) <= color_distance_spec(rgb, #[trigger] semantic_color(j))
    &&& forall|j: int| 0 <= j < i ==> color_distance_spec(rgb, #[trigger] semantic_color(j)) > color_distance_spec(rgb, semantic_color(i))
}

fn semantic_color_exec(i: usize) -> (r: [u8; 3])
    requires
        i < 4,
    ensures
        r == semantic_color(i as int),
{
    if i == 0 {
        [247u8, 246u8, 242u8]
    } else if i == 1 {
        [85u8, 214u8, 194u8]
    } else if i == 2 {
        [49u8, 87u8, 216u8]
    } else {
        [36u8, 79u8, 219u8]
    }
}

/// The index of the source colour nearest to `rgb`; the first one on ties.
pub fn nearest_semantic(rgb: [u8; 3]) -> (r: usize)
    ensures
        is_first_nearest(rgb, r as int),
{
    let mut best: usize = 0;
    let mut best_distance = color_distance(rgb, semantic_color_exec(0));
    let mut i: usize = 1;
    while i < 4
        invariant
            1 <= i <= 4,
            best < i,
            best_distance == color_distance_spec(rgb, semantic_color(best as int)),
            forall|j: int| 0 <= j < i ==> best_distance <= color_distance_spec(rgb, #[trigger] semantic_color(j)),
            forall|j: int| 0 <= j < best ==> color_distance_spec(rgb, #[trigger] semantic_color(j)) > best_distance,
        decreases 4 - i,
    {
        let d = color_distance(rgb, semantic_color_exec(i));
        if d < best_distance {
            best = i;
            best_distance = d;
        }
        i = i + 1;
    }
    best
}

/// What becomes of one logo pixel when the logo is recoloured.
#[derive(Clone, Copy, Debug, PartialEq, Eq, Structural)]
pub enum LogoRole {
    /// Nearest to the warm white: stays warm white.
    WarmWhite,
    /// Nearest to the mint: takes the palette's caret colour.
    Mint,
    /// A blue pixel on the ring of the rounded square in dark mode: takes the accent colour.
    Border,
    /// Any other blue pixel: takes the vertical gradient of the palette.
    Gradient,
}

/// The first of the four source colours nearest to `rgb`.
pub open spec fn nearest_spec(rgb: [u8; 3]) -> int {
    choose|i: int| is_first_nearest(rgb, i)
}

/// The first nearest source colour is unique.
pub proof fn lemma_first_nearest_unique(rgb: [u8; 3], i: int, j: int)
    requires
        is_first_nearest(rgb, i),
        is_first_nearest(rgb, j),
    ensures
        i == j,
{
    if i < j {
        assert(color_distance_spec(rgb, semantic_color(i)) > color_distance_spec(rgb, semantic_color(j)));
        assert(color_distance_spec(rgb, semantic_color(j)) <= color_distance_spec(rgb, semantic_color(i)));
    } else if j < i {
        assert(color_distance_spec(rgb, semantic_color(j)) > color_distance_spec(rgb, semantic_color(i)));
        assert(color_distance_spec(rgb, semantic_color(i)) <= color_distance_spec(rgb, semantic_color(j)));
    }
}

/// The role of a pixel with colour `rgb` at `(x, y)`.
pub open spec fn logo_role_spec(rgb: [u8; 3], x: int, y: int, width: int, height: int, dark: bool) -> LogoRole {
    let nearest = nearest_spec(rgb);
    if nearest == 0 {
        LogoRole::WarmWhite
    } else if nearest == 1 {
        LogoRole::Mint
    } else if dark && border_pixel_spec(x, y, width, height) {
        LogoRole::Border
    } else {
        LogoRole::Gradient
    }
}

/// Every pixel gets the role of its first nearest source colour: warm white stays warm white,
/// mint is mint, and a pixel of either blue is on the ring exactly when the logo is dark and
/// the pixel lies on the ring, gradient otherwise. In light mode nothing is ring.
pub proof fn lemma_role_by_nearest_colour(rgb: [u8; 3], i: int, x: int, y: int, width: int, height: int, dark: bool)
    requires
        is_first_nearest(rgb, i),
    ensures
        i == 0 ==> logo_role_spec(rgb, x, y, width, height, dark) == LogoRole::WarmWhite,
        i == 1 ==> logo_role_spec(rgb, x, y, width, height, dark) == LogoRole::Mint,
        i >= 2 && dark && border_pixel_spec(x, y, width, height) ==> logo_role_spec(rgb, x, y, width, height, dark)
            == LogoRole::Border,
        i >= 2 && !(dark && border_pixel_spec(x, y, width, height)) ==> logo_role_spec(rgb, x, y, width, height, dark)
            == LogoRole::Gradient,
        !dark ==> logo_role_spec(rgb, x, y, width, height, dark) != LogoRole::Border,
{
    lemma_first_nearest_unique(rgb, i, nearest_spec(rgb));
}

/// The RGB of whole pixel `k` of an RGBA buffer.
pub open spec fn pixel_rgb(source: Seq<u8>, k: int) -> [u8; 3] {
    [source[4 * k], source[4 * k + 1], source[4 * k + 2]]
}

/// The role of one pixel: its nearest source colour decides, and blue pixels on the ring become
/// the accent in dark mode.
pub fn logo_role(rgb: [u8; 3], x: usize, y: usize, width: usize, height: usize, dark: bool) -> (r: LogoRole)
    ensures
        r == logo_role_spec(rgb, x as int, y as int, width as int, height as int, dark),
{
    let nearest = nearest_semantic(rgb);
    proof {
        lemma_first_nearest_unique(rgb, nearest as int, nearest_spec(rgb));
    }
    if nearest == 0 {
        LogoRole::WarmWhite
    } else if nearest == 1 {
        LogoRole::Mint
    } else if dark && border_pixel(x, y, width, height) {
        LogoRole::Border
    } else {
        LogoRole::Gradient
    }
}

/// The roles of every whole RGBA pixel of `source` (row-major, `width` pixels per row); a
/// trailing partial pixel is ignored.
pub fn logo_roles(source: &Vec<u8>, width: usize, height: usize, dark: bool) -> (r: Vec<LogoRole>)
    requires
        source.len() >= 4 ==> 0 < width,
    ensures
        r.len() == source.len() / 4,
        forall|k: int| 0 <= k < r.len() ==> #[trigger] r[k] == logo_role_spec(
            pixel_rgb(source@, k),
            k % (width as int),
            k / (width as int),
            width as int,
            height as int,
            dark,
        ),
{
    let count = source.len() / 4;
    let mut roles: Vec<LogoRole> = Vec::new();
    let mut index: usize = 0;
    while index < count
        invariant
            count == source.len() / 4,
            index <= count,
            roles.len() == index,
            index < count ==> 0 < width,
            forall|k: int| 0 <= k < index ==> #[trigger] roles[k] == logo_role_spec(
                pixel_rgb(source@, k),
                k % (width as int),
                k / (width as int),
                width as int,
                height as int,
                dark,
            ),
        decreases count - index,
    {
        let base = 4 * index;
        let rgb = [source[base], source[base + 1], source[base + 2]];
        assert(rgb == pixel_rgb(source@, index as int));
        let role = logo_role(rgb, index % width, index / width, width, height, dark);
        roles.push(role);
        index = index + 1;
    }
    roles
}

/// The colour type of a decoded PNG frame.
#[derive(Clone, Copy, Debug, PartialEq, Eq, Structural)]
pub enum PngColor {
    Grayscale,
    Rgb,
    Indexed,
    GrayscaleAlpha,
    Rgba,
}

/// The first frame of a PNG image as the `png` crate decodes it.
#[derive(Debug)]
pub struct DecodedFrame {
    pub width: u32,
    pub height: u32,
    pub color: PngColor,
    /// Bits per sample.
    pub bit_depth: u8,
    /// The frame's samples, row-major, `buffer_size()` bytes.
    pub pixels: Vec<u8>,
}

/// The plain values of a decoded frame: width, height, colour type, bit depth and samples.
pub open spec fn frame_view(f: DecodedFrame) -> (u32, u32, PngColor, u8, Seq<u8>) {
    (f.width, f.height, f.color, f.bit_depth, f.pixels@)
}

/// What the `png` crate decodes from `bytes` with its default settings (header, one output
/// buffer, first frame): width, height, colour type, bit depth and samples, or `None` when it
/// reports an error.
pub uninterp spec fn png_first_frame(bytes: Seq<u8>) -> Option<(u32, u32, PngColor, u8, Seq<u8>)>;

/// Decodes the first frame of the PNG `bytes`.
///
/// Runs the `png` crate's decoder (`Decoder::new`, `Reader::read_info`, a buffer of
/// `Reader::output_buffer_size` bytes, `Reader::next_frame`, cut to `OutputInfo::buffer_size`)
/// and moves the result into plain values. The contract only names the result as a function
/// of the bytes; what the decoder computes is not restated.
#[verifier::external_body]
fn decode_png(bytes: &[u8]) -> (r: Option<DecodedFrame>)
    ensures
        match r {
            Some(f) => png_first_frame(bytes@) == Some(frame_view(f)),
            None => png_first_frame(bytes@) is None,
        },
{
    let mut reader = png::Decoder::new(std::io::Cursor::new(bytes)).read_info().ok()?;
    let mut pixels = vec![0; reader.output_buffer_size()?];
    let info = reader.next_frame(&mut pixels).ok()?;
    pixels.truncate(info.buffer_size());
    let color = match info.color_type {
        png::ColorType::Grayscale => PngColor::Grayscale,
        png::ColorType::Rgb => PngColor::Rgb,
        png::ColorType::Indexed => PngColor::Indexed,
        png::ColorType::GrayscaleAlpha => PngColor::GrayscaleAlpha,
        png::ColorType::Rgba => PngColor::Rgba,
    };
    Some(DecodedFrame { width: info.width, height: info.height, color, bit_depth: info.bit_depth as u8, pixels })
}

/// The logo's pixels and size: only an 8-bit RGBA image is accepted.
pub open spec fn logo_image_spec(bytes: Seq<u8>) -> Option<(Seq<u8>, u32, u32)> {
    match png_first_frame(bytes) {
        Some(frame) => accept_rgba8_spec(frame),
        None => None,
    }
}

/// The samples and size of a decoded frame, when it is 8-bit RGBA; `None` for any other colour
/// type or bit depth.
pub open spec fn accept_rgba8_spec(frame: (u32, u32, PngColor, u8, Seq<u8>)) -> Option<(Seq<u8>, u32, u32)> {
    let (w, h, color, depth, pixels) = frame;
    if color == PngColor::Rgba && depth == 8 {
        Some((pixels, w, h))
    } else {
        None
    }
}

/// Keeps a decoded frame only when it is 8-bit RGBA, as the logo mask must be.
pub fn accept_rgba8(frame: DecodedFrame) -> (r: Option<(Vec<u8>, u32, u32)>)
    ensures
        match r {
            Some((pixels, w, h)) => accept_rgba8_spec(frame_view(frame)) == Some((pixels@, w, h)),
            None => accept_rgba8_spec(frame_view(frame)) is None,
        },
{
    if frame.color == PngColor::Rgba && frame.bit_depth == 8 {
        Some((frame.pixels, frame.width, frame.height))
    } else {
        None
    }
}

/// Decodes the logo mask: its RGBA samples, width and height, or `None` when the bytes are not
/// an 8-bit RGBA PNG.
pub fn logo_image(bytes: &[u8]) -> (r: Option<(Vec<u8>, u32, u32)>)
    ensures
        match r {
            Some((pixels, w, h)) => logo_image_spec(bytes@) == Some((pixels@, w, h)),
            None => logo_image_spec(bytes@) is None,
        },
{
    match decode_png(bytes) {
        Some(frame) => accept_rgba8(frame),
        None => None,
    }
}

/// The colour a pixel of role `role` takes: warm white stays, mint takes the caret colour, the
/// ring takes the accent, and the rest takes `gradient`, the gradient colour of its row.
pub open spec fn role_color(role: LogoRole, caret: [u8; 3], accent: [u8; 3], gradient: [u8; 3]) -> [u8; 3] {
    match role {
        LogoRole::WarmWhite => semantic_color(0),
        LogoRole::Mint => caret,
        LogoRole::Border => accent,
        LogoRole::Gradient => gradient,
    }
}

/// The four samples of whole pixel `k` of an RGBA buffer.
pub open spec fn rgba_at(s: Seq<u8>, k: int) -> (u8, u8, u8, u8) {
    (s[4 * k], s[4 * k + 1], s[4 * k + 2], s[4 * k + 3])
}

/// Pixel `k` of the recoloured logo: the colour of its role, and the source's alpha.
pub open spec fn themed_pixel_spec(
    source: Seq<u8>,
    k: int,
    width: int,
    height: int,
    dark: bool,
    caret: [u8; 3],
    accent: [u8; 3],
    gradient: Seq<[u8; 3]>,
) -> (u8, u8, u8, u8) {
    let role = logo_role_spec(pixel_rgb(source, k), k % width, k / width, width, height, dark);
    let c = role_color(role, caret, accent, gradient[k / width]);
    (c[0], c[1], c[2], source[4 * k + 3])
}

/// Recolours the logo mask for a palette: every whole RGBA pixel of `source` (row-major,
/// `width` per row) gets the colour of its role and keeps its alpha. `caret` and `accent` are
/// the palette's colours; `gradient[y]` is the gradient colour of row `y`, one for every row the
/// source spans.
pub fn themed_logo_pixels(
    source: &Vec<u8>,
    width: usize,
    height: usize,
    dark: bool,
    caret: [u8; 3],
    accent: [u8; 3],
    gradient: &Vec<[u8; 3]>,
) -> (r: Vec<u8>)
    requires
        source.len() >= 4 ==> 0 < width,
        source.len() / 4 <= width * gradient.len(),
    ensures
        r.len() == 4 * (source.len() / 4),
        forall|k: int| 0 <= k < source.len() / 4 ==> #[trigger] rgba_at(r@, k) == themed_pixel_spec(
            source@,
            k,
            width as int,
            height as int,
            dark,
            caret,
            accent,
            gradient@,
        ),
{
    let count = source.len() / 4;
    let mut out: Vec<u8> = Vec::new();
    let mut index: usize = 0;
    while index < count
        invariant
            count == source.len() / 4,
            count <= width * gradient.len(),
            index <= count,
            out.len() == 4 * index,
            index < count ==> 0 < width,
            forall|k: int| 0 <= k < index ==> #[trigger] rgba_at(out@, k) == themed_pixel_spec(
                source@,
                k,
                width as int,
                height as int,
                dark,
                caret,
                accent,
                gradient@,
            ),
        decreases count - index,
    {
        let base = 4 * index;
        let rgb = [source[base], source[base + 1], source[base + 2]];
        assert(rgb == pixel_rgb(source@, index as int));
        let row = index / width;
        assert(row < gradient.len()) by (nonlinear_arith)
            requires
                row == index / width,
                index < count,
                count <= width * gradient.len(),
                0 < width,
        ;
        let role = logo_role(rgb, index % width, row, width, height, dark);
        let color = match role {
            LogoRole::WarmWhite => [247u8, 246u8, 242u8],
            LogoRole::Mint => caret,
            LogoRole::Border => accent,
            LogoRole::Gradient => gradient[row],
        };
        assert(color == role_color(role, caret, accent, gradient@[row as int]));
        let ghost before = out@;
        out.push(color[0]);
        out.push(color[1]);
        out.push(color[2]);
        out.push(source[base + 3]);
        assert forall|k: int| 0 <= k < index implies #[trigger] rgba_at(out@, k) == rgba_at(before, k) by {
            assert(4 * k + 3 < 4 * index);
        }
        assert(rgba_at(out@, index as int) == themed_pixel_spec(
            source@,
            index as int,
            width as int,
            height as int,
            dark,
            caret,
            accent,
            gradient@,
        ));
        index = index + 1;
    }
    out
}

} // verus!
