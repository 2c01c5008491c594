//! Putting the renderer's bitmap on a layered window: the renderer gives premultiplied RGBA,
//! the DIB wants premultiplied BGRA, so only the channel order changes.

use vstd::prelude::*;

verus! {

/// A bitmap of this size can be put on a window.
pub fn presentable(width: i32, height: i32) -> (r: bool)
    ensures
        r == (width > 0 && height > 0),
{
    width > 0 && height > 0
}

/// The window's top-left corner for a bitmap whose content starts `content_offset` into it,
/// placed so that the content's corner is `content_pos`.
pub fn window_origin(content_pos: (i32, i32), content_offset: (i32, i32)) -> (r: (i32, i32))
    requires
        i32::MIN <= content_pos.0 - content_offset.0 <= i32::MAX,
        i32::MIN <= content_pos.1 - content_offset.1 <= i32::MAX,
    ensures
        r.0 == content_pos.0 - content_offset.0,
        r.1 == content_pos.1 - content_offset.1,
{
    (content_pos.0 - content_offset.0, content_pos.1 - content_offset.1)
}

/// Byte `i` of the canvas after pixel `i / 4` was copied from an RGBA source.
pub open spec fn bgra_byte(src: Seq<u8>, i: int) -> u8 {
    let k = i / 4;
    let c = i % 4;
    if c == 0 {
        src[4 * k + 2]
    } else if c == 1 {
        src[4 * k + 1]
    } else if c == 2 {
        src[4 * k]
    } else {
        src[4 * k + 3]
    }
}

/// Copies whole RGBA pixels of `src` into the BGRA canvas `dst`, pixel by pixel while both have
/// one; the rest of `dst` is left as it is.
pub fn copy_rgba_to_bgra(dst: &mut Vec<u8>, src: &Vec<u8>)
    ensures
        final(dst)@.len() == old(dst)@.len(),
        forall|i: int| 0 <= i < old(dst)@.len() ==> #[trigger] final(dst)@[i] == (if i / 4 < src@.len() / 4
            && i / 4 < old(dst)@.len() / 4 {
            bgra_byte(src@, i)
        } else {
            old(dst)@[i]
        }),
{
    let pixels = if dst.len() / 4 < src.len() / 4 {
        dst.len() / 4
    } else {
        src.len() / 4
    };
    let mut k: usize = 0;
    while k < pixels
        invariant
            pixels == (if old(dst)@.len() / 4 < src@.len() / 4 { old(dst)@.len() / 4 } else { src@.len() / 4 }),
            k <= pixels,
            pixels <= dst@.len() / 4,
            pixels <= src@.len() / 4,
            dst@.len() == old(dst)@.len(),
            forall|i: int| 0 <= i < dst@.len() ==> #[trigger] dst@[i] == (if i / 4 < k {
                bgra_byte(src@, i)
            } else {
                old(dst)@[i]
            }),
        decreases pixels - k,
    {
        let dlen = dst.len();
        assert(4 * k + 3 < dst@.len() && 4 * k + 3 < src@.len()) by (nonlinear_arith)
            requires
                k < pixels,
                pixels <= dst@.len() / 4,
                pixels <= src@.len() / 4,
        ;
        assert(4 * k < dlen);
        let base = 4 * k;
        let ghost before = dst@;
        let r = src[base];
        let g = src[base + 1];
        let b = src[base + 2];
        let a = src[base + 3];
        dst.set(base, b);
        dst.set(base + 1, g);
        dst.set(base + 2, r);
        dst.set(base + 3, a);
        assert forall|i: int| 0 <= i < dst@.len() implies #[trigger] dst@[i] == (if i / 4 < k + 1 {
            bgra_byte(src@, i)
        } else {
            old(dst)@[i]
        }) by {
            if base <= i < base + 4 {
                assert(i / 4 == k);
                assert(i % 4 == i - base);
            } else {
                assert(i / 4 != k);
                assert(dst@[i] == before[i]);
            }
        }
        k = k + 1;
    }
}

} // verus!
