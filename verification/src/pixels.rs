//! RGBA8 pixel buffers: byte `4 * (y * width + x) + c` holds channel `c`
//! of the pixel at column `x`, row `y`.
use vstd::prelude::*;
use vstd::arithmetic::div_mod::{lemma_fundamental_div_mod, lemma_fundamental_div_mod_converse};

use crate::arith::{min, min_u32, sat_add, sat_sub};

verus! {

/// Column of the pixel that byte `i` belongs to.
pub open spec fn px_x(width: int, i: int) -> int {
    (i / 4) % width
}

/// Row of the pixel that byte `i` belongs to.
pub open spec fn px_y(width: int, i: int) -> int {
    (i / 4) / width
}

/// Byte `i` belongs to a pixel in columns `x0..x1` and rows `y0..y1`.
pub open spec fn in_box(width: int, x0: int, y0: int, x1: int, y1: int, i: int) -> bool {
    &&& x0 <= px_x(width, i) < x1
    &&& y0 <= px_y(width, i) < y1
}

/// Byte `4 * (y * width + x) + c` is channel `c` of the pixel at `(x, y)`.
pub proof fn lemma_pixel_coords(width: int, x: int, y: int, c: int)
    requires
        0 <= x < width,
        0 <= y,
        0 <= c < 4,
    ensures
        ((y * width + x) * 4 + c) / 4 == y * width + x,
        ((y * width + x) * 4 + c) % 4 == c,
        px_x(width, (y * width + x) * 4 + c) == x,
        px_y(width, (y * width + x) * 4 + c) == y,
{
    let p = y * width + x;
    assert(p >= 0) by (nonlinear_arith)
        requires
            0 <= x,
            0 <= y,
            0 < width,
            p == y * width + x,
    ;
    lemma_fundamental_div_mod_converse(p * 4 + c, 4, p, c);
    lemma_fundamental_div_mod_converse(p, width, y, x);
}

/// `rect` cut to a `width` x `height` buffer, as `(x0, y0, x1, y1)`.
pub open spec fn clip(width: int, height: int, rect: [u32; 4]) -> (int, int, int, int) {
    (
        min(rect[0] as int, width),
        min(rect[1] as int, height),
        min(sat_add(rect[0] as int, rect[2] as int), width),
        min(sat_add(rect[1] as int, rect[3] as int), height),
    )
}

/// Byte `i` belongs to a pixel of `rect` cut to the buffer.
pub open spec fn covers(width: int, height: int, rect: [u32; 4], i: int) -> bool {
    let (x0, y0, x1, y1) = clip(width, height, rect);
    x0 < x1 && y0 < y1 && in_box(width, x0, y0, x1, y1, i)
}

/// A buffer of `len` bytes holds every row of `rect` cut to a `width` x
/// `height` image (rows `width * 4` bytes apart, `width * 4` fitting a `u32`).
pub open spec fn fill_fits(width: int, height: int, rect: [u32; 4], len: int) -> bool {
    let (x0, y0, x1, y1) = clip(width, height, rect);
    (x0 < x1 && y0 < y1) ==> (width * 4 <= u32::MAX && ((y1 - 1) * width + x1) * 4 <= len)
}

/// Paints every pixel of `rect` (cut to the buffer) with `color`.
pub fn fill_rect_region(pixels: &mut Vec<u8>, width: u32, height: u32, rect: [u32; 4], color: [u8; 4])
    requires
        fill_fits(width as int, height as int, rect, old(pixels)@.len() as int),
    ensures
        final(pixels)@.len() == old(pixels)@.len(),
        forall|i: int|
            0 <= i < old(pixels)@.len() ==> #[trigger] final(pixels)@[i] == if covers(
                width as int,
                height as int,
                rect,
                i,
            ) {
                color[i % 4]
            } else {
                old(pixels)@[i]
            },
{
    let x0 = min_u32(rect[0], width);
    let y0 = min_u32(rect[1], height);
    let x1 = min_u32(rect[0].saturating_add(rect[2]), width);
    let y1 = min_u32(rect[1].saturating_add(rect[3]), height);
    if x1 <= x0 || y1 <= y0 {
        return;
    }
    let n0 = pixels.len();
    let ghost w = width as int;
    let ghost orig = pixels@;
    let ghost len = orig.len();
    let row_stride = (width * 4) as usize;
    let mut y = y0;
    while y < y1
        invariant
            x0 < x1 <= w,
            y0 <= y <= y1,
            w == width,
            row_stride == w * 4,
            ((y1 - 1) * w + x1) * 4 <= len,
            len == n0,
            (x0 as int, y0 as int, x1 as int, y1 as int) == clip(w, height as int, rect),
            pixels@.len() == len,
            forall|i: int|
                0 <= i < len ==> #[trigger] pixels@[i] == if in_box(w, x0 as int, y0 as int, x1 as int, y as int, i) {
                    color[i % 4]
                } else {
                    orig[i]
                },
        decreases y1 - y,
    {
        assert(y as int * row_stride <= ((y1 - 1) * w + x1) * 4) by (nonlinear_arith)
            requires
                y < y1,
                row_stride == w * 4,
                0 <= x1,
                0 <= w,
        ;
        let row_start = y as usize * row_stride;
        assert(row_start == y * w * 4) by (nonlinear_arith)
            requires
                row_start == y * row_stride,
                row_stride == w * 4,
        ;
        let mut x = x0;
        while x < x1
            invariant
                x0 <= x <= x1 <= w,
                y0 <= y < y1,
                w == width,
                row_start == y * w * 4,
                ((y1 - 1) * w + x1) * 4 <= len,
                len == n0,
                pixels@.len() == len,
                forall|i: int|
                    0 <= i < len ==> #[trigger] pixels@[i] == if in_box(w, x0 as int, y0 as int, x1 as int, y as int, i)
                        || in_box(w, x0 as int, y as int, x as int, y + 1, i) {
                        color[i % 4]
                    } else {
                        orig[i]
                    },
            decreases x1 - x,
        {
            let ghost before = pixels@;
            assert(row_start + x * 4 + 3 < len && row_start + x * 4 == (y * w + x) * 4) by (nonlinear_arith)
                requires
                    row_start == y * w * 4,
                    x < x1,
                    y < y1,
                    ((y1 - 1) * w + x1) * 4 <= len,
                    0 <= w,
            ;
            let idx = row_start + (x as usize) * 4;
            pixels.set(idx, color[0]);
            pixels.set(idx + 1, color[1]);
            pixels.set(idx + 2, color[2]);
            pixels.set(idx + 3, color[3]);
            proof {
                assert forall|i: int| 0 <= i < len implies #[trigger] pixels@[i] == if in_box(
                    w,
                    x0 as int,
                    y0 as int,
                    x1 as int,
                    y as int,
                    i,
                ) || in_box(w, x0 as int, y as int, x + 1, y + 1, i) {
                    color[i % 4]
                } else {
                    orig[i]
                } by {
                    if idx <= i < idx + 4 {
                        let c = i - idx;
                        lemma_pixel_coords(w, x as int, y as int, c);
                    } else {
                        assert(pixels@[i] == before[i]);
                        let p = i / 4;
                        if px_y(w, i) == y && px_x(w, i) == x {
                            lemma_fundamental_div_mod(i, 4);
                            lemma_fundamental_div_mod(p, w);
                            assert(false) by (nonlinear_arith)
                                requires
                                    p == i / 4,
                                    i == 4 * p + i % 4,
                                    0 <= i % 4 < 4,
                                    p == w * (p / w) + p % w,
                                    p / w == y,
                                    p % w == x,
                                    idx == (y * w + x) * 4,
                                    !(idx <= i < idx + 4),
                            ;
                        }
                    }
                }
            }
            x = x + 1;
        }
        y = y + 1;
    }
}

/// Every byte index splits into the pixel it belongs to and its channel.
pub proof fn lemma_byte_decompose(width: int, i: int)
    requires
        0 < width,
        0 <= i,
    ensures
        i == (px_y(width, i) * width + px_x(width, i)) * 4 + i % 4,
        0 <= px_x(width, i) < width,
        0 <= px_y(width, i),
        0 <= i % 4 < 4,
{
    let p = i / 4;
    lemma_fundamental_div_mod(i, 4);
    lemma_fundamental_div_mod(p, width);
    assert(i == (px_y(width, i) * width + px_x(width, i)) * 4 + i % 4) by (nonlinear_arith)
        requires
            i == 4 * p + i % 4,
            p == width * (p / width) + p % width,
            px_y(width, i) == p / width,
            px_x(width, i) == p % width,
    ;
    assert(0 <= p) by (nonlinear_arith)
        requires
            i == 4 * p + i % 4,
            0 <= i % 4 < 4,
            0 <= i,
    ;
    assert(0 <= p / width) by (nonlinear_arith)
        requires
            0 <= p,
            0 < width,
    ;
}

/// Columns and rows that `blit_rgba_region` copies: the source size, the
/// destination rectangle and what is left of the destination, whichever is
/// smallest.
pub open spec fn copy_dims(dst_width: int, dst_height: int, dst_rect: [u32; 4], src_width: int, src_height: int) -> (
    int,
    int,
) {
    (
        min(min(dst_rect[2] as int, src_width), sat_sub(dst_width, dst_rect[0] as int)),
        min(min(dst_rect[3] as int, src_height), sat_sub(dst_height, dst_rect[1] as int)),
    )
}

/// Whether `blit_rgba_region` copies anything: the source is non-empty and
/// holds all its pixels, and the copied area is non-empty.
pub open spec fn blit_copies(
    dst_width: int,
    dst_height: int,
    dst_rect: [u32; 4],
    src_len: int,
    src_width: int,
    src_height: int,
) -> bool {
    let (cw, ch) = copy_dims(dst_width, dst_height, dst_rect, src_width, src_height);
    &&& src_width > 0
    &&& src_height > 0
    &&& src_len >= src_width * src_height * 4
    &&& cw > 0
    &&& ch > 0
}

/// Copies the top-left part of an RGBA image of `src_width` x `src_height`
/// pixels into the destination at `dst_rect`'s origin, as much as fits in
/// `dst_rect`, the source and the destination. Does nothing when the source
/// is empty or shorter than its size says.
pub fn blit_rgba_region(
    dst_pixels: &mut Vec<u8>,
    dst_width: u32,
    dst_height: u32,
    dst_rect: [u32; 4],
    src_pixels: &[u8],
    src_width: u32,
    src_height: u32,
)
    requires
        (src_width > 0 && src_height > 0) ==> src_width * src_height * 4 <= usize::MAX,
        blit_copies(dst_width as int, dst_height as int, dst_rect, src_pixels@.len() as int, src_width as int, src_height as int)
            ==> ({
            let (cw, ch) = copy_dims(dst_width as int, dst_height as int, dst_rect, src_width as int, src_height as int);
            &&& ((dst_rect[1] + ch - 1) * dst_width + dst_rect[0]) * 4 <= u32::MAX
            &&& ((dst_rect[1] + ch - 1) * dst_width + dst_rect[0] + cw) * 4 <= old(dst_pixels)@.len()
            &&& (ch - 1) * src_width * 4 <= u32::MAX
            &&& cw * 4 <= u32::MAX
        }),
    ensures
        final(dst_pixels)@.len() == old(dst_pixels)@.len(),
        forall|i: int|
            0 <= i < old(dst_pixels)@.len() ==> #[trigger] final(dst_pixels)@[i] == {
                let (cw, ch) = copy_dims(dst_width as int, dst_height as int, dst_rect, src_width as int, src_height as int);
                if blit_copies(dst_width as int, dst_height as int, dst_rect, src_pixels@.len() as int, src_width as int, src_height as int)
                    && in_box(dst_width as int, dst_rect[0] as int, dst_rect[1] as int, dst_rect[0] + cw, dst_rect[1] + ch, i) {
                    src_pixels@[((px_y(dst_width as int, i) - dst_rect[1]) * src_width + (px_x(dst_width as int, i) - dst_rect[0])) * 4 + i % 4]
                } else {
                    old(dst_pixels)@[i]
                }
            },
{
    if src_width == 0 || src_height == 0 {
        return;
    }
    if src_pixels.len() < (src_width as usize) * (src_height as usize) * 4 {
        return;
    }
    let copy_w = min_u32(min_u32(dst_rect[2], src_width), dst_width.saturating_sub(dst_rect[0]));
    let copy_h = min_u32(min_u32(dst_rect[3], src_height), dst_height.saturating_sub(dst_rect[1]));
    if copy_w == 0 || copy_h == 0 {
        return;
    }
    let n0 = dst_pixels.len();
    let src_len = src_pixels.len();
    let ghost orig = dst_pixels@;
    let ghost len = orig.len();
    let ghost w = dst_width as int;
    let ghost sw = src_width as int;
    let ghost rx = dst_rect[0] as int;
    let ghost ry = dst_rect[1] as int;
    let ghost src = src_pixels@;
    assert(copy_h * sw <= src_height * sw) by (nonlinear_arith)
        requires
            copy_h <= src_height,
            0 <= sw,
    ;
    let mut y: u32 = 0;
    while y < copy_h
        invariant
            0 < copy_w <= w - rx,
            0 < copy_h,
            y <= copy_h,
            ry + copy_h <= dst_height,
            copy_w <= sw,
            copy_h * sw <= src_height * sw,
            src_height * sw * 4 <= src.len(),
            src == src_pixels@,
            w == dst_width,
            sw == src_width,
            rx == dst_rect[0],
            ry == dst_rect[1],
            len == n0,
            ((ry + copy_h - 1) * w + rx) * 4 <= u32::MAX,
            ((ry + copy_h - 1) * w + rx + copy_w) * 4 <= len,
            (copy_h - 1) * sw * 4 <= u32::MAX,
            copy_w * 4 <= u32::MAX,
            src_len == src.len(),
            dst_pixels@.len() == len,
            forall|i: int|
                0 <= i < len ==> #[trigger] dst_pixels@[i] == if in_box(w, rx, ry, rx + copy_w, ry + y, i) {
                    src[((px_y(w, i) - ry) * sw + (px_x(w, i) - rx)) * 4 + i % 4]
                } else {
                    orig[i]
                },
        decreases copy_h - y,
    {
        let ghost r = ry + y;
        assert(((ry + y) * w + rx) * 4 <= ((ry + copy_h - 1) * w + rx) * 4
            && y * sw * 4 <= (copy_h - 1) * sw * 4
            && (ry + y) * w * 4 + rx * 4 == ((ry + y) * w + rx) * 4
            && y * sw * 4 + copy_w * 4 <= src_height * sw * 4) by (nonlinear_arith)
            requires
                y < copy_h,
                0 <= w,
                0 <= sw,
                0 <= rx,
                copy_w <= sw,
                copy_h * sw <= src_height * sw,
        ;
        let dst_row = ((dst_rect[1] + y) * dst_width * 4 + dst_rect[0] * 4) as usize;
        let src_row = (y * src_width * 4) as usize;
        let row_len = (copy_w * 4) as usize;
        let mut k: usize = 0;
        while k < row_len
            invariant
                0 < copy_w <= w - rx,
                y < copy_h,
                ry + copy_h <= dst_height,
                copy_w <= sw,
                w == dst_width,
                sw == src_width,
                rx == dst_rect[0],
                ry == dst_rect[1],
                src == src_pixels@,
                len == n0,
                dst_row == ((ry + y) * w + rx) * 4,
                src_row == y * sw * 4,
                row_len == copy_w * 4,
                k <= row_len,
                dst_row + row_len <= len,
                src_row + row_len <= src.len(),
                src_len == src.len(),
                dst_pixels@.len() == len,
                forall|i: int|
                    0 <= i < len ==> #[trigger] dst_pixels@[i] == if in_box(w, rx, ry, rx + copy_w, ry + y, i) {
                        src[((px_y(w, i) - ry) * sw + (px_x(w, i) - rx)) * 4 + i % 4]
                    } else if dst_row <= i < dst_row + k {
                        src[src_row + (i - dst_row)]
                    } else {
                        orig[i]
                    },
            decreases row_len - k,
        {
            let ghost before = dst_pixels@;
            let v = src_pixels[src_row + k];
            dst_pixels.set(dst_row + k, v);
            proof {
                assert forall|i: int| 0 <= i < len implies #[trigger] dst_pixels@[i] == if in_box(
                    w,
                    rx,
                    ry,
                    rx + copy_w,
                    ry + y,
                    i,
                ) {
                    src[((px_y(w, i) - ry) * sw + (px_x(w, i) - rx)) * 4 + i % 4]
                } else if dst_row <= i < dst_row + k + 1 {
                    src[src_row + (i - dst_row)]
                } else {
                    orig[i]
                } by {
                    if i == dst_row + k {
                        lemma_byte_decompose(w, i);
                        lemma_byte_decompose(w, dst_row as int);
                        let px = px_y(w, dst_row as int);
                        assert(dst_row as int == ((ry + y) * w + rx) * 4 + 0);
                        lemma_pixel_coords(w, rx, ry + y, 0);
                        assert(px_y(w, i) >= ry + y) by (nonlinear_arith)
                            requires
                                i == (px_y(w, i) * w + px_x(w, i)) * 4 + i % 4,
                                0 <= px_x(w, i) < w,
                                0 <= i % 4 < 4,
                                i >= ((ry + y) * w + rx) * 4,
                                0 <= rx,
                        ;
                    } else {
                        assert(dst_pixels@[i] == before[i]);
                    }
                }
            }
            k = k + 1;
        }
        proof {
            assert forall|i: int| 0 <= i < len implies #[trigger] dst_pixels@[i] == if in_box(
                w,
                rx,
                ry,
                rx + copy_w,
                ry + y + 1,
                i,
            ) {
                src[((px_y(w, i) - ry) * sw + (px_x(w, i) - rx)) * 4 + i % 4]
            } else {
                orig[i]
            } by {
                lemma_byte_decompose(w, i);
                let pyi = px_y(w, i);
                let pxi = px_x(w, i);
                let c = i % 4;
                if pyi == ry + y && rx <= pxi < rx + copy_w {
                    assert(dst_row <= i < dst_row + row_len && i - dst_row == (pxi - rx) * 4 + c) by (nonlinear_arith)
                        requires
                            i == (pyi * w + pxi) * 4 + c,
                            dst_row == ((ry + y) * w + rx) * 4,
                            pyi == ry + y,
                            rx <= pxi < rx + copy_w,
                            0 <= c < 4,
                            row_len == copy_w * 4,
                    ;
                    assert(src_row + (i - dst_row) == ((pyi - ry) * sw + (pxi - rx)) * 4 + c) by (nonlinear_arith)
                        requires
                            src_row == y * sw * 4,
                            i - dst_row == (pxi - rx) * 4 + c,
                            pyi == ry + y,
                    ;
                } else if dst_row <= i < dst_row + row_len {
                    assert(pyi == ry + y && rx <= pxi < rx + copy_w) by (nonlinear_arith)
                        requires
                            i == (pyi * w + pxi) * 4 + c,
                            dst_row == ((ry + y) * w + rx) * 4,
                            dst_row <= i < dst_row + row_len,
                            row_len == copy_w * 4,
                            0 < copy_w <= w - rx,
                            0 <= rx,
                            0 <= pxi < w,
                            0 <= c < 4,
                            0 <= pyi,
                            0 <= ry + y,
                    ;
                }
            }
        }
        y = y + 1;
    }
}

/// A `width` by `height` RGBA image can be taken from a buffer of `len`
/// bytes: the image is not empty and the buffer holds all its pixels (the
/// needed length saturating at `usize::MAX`).
pub open spec fn rgba_buffer_ok(width: int, height: int, len: int) -> bool {
    width != 0 && height != 0 && len >= min(width * height * 4, usize::MAX as int)
}

/// Whether a buffer of `len` bytes holds a non-empty `width` by `height`
/// RGBA image; a wallpaper or texture update with anything else is ignored.
pub fn rgba_buffer_fits(width: u32, height: u32, len: usize) -> (r: bool)
    ensures
        r == rgba_buffer_ok(width as int, height as int, len as int),
{
    if width == 0 || height == 0 {
        return false;
    }
    let w = width as u128;
    let h = height as u128;
    assert(w * h <= 0xffff_ffff_ffff_ffffu128 * 1) by (nonlinear_arith)
        requires
            w <= 0xffff_ffff,
            h <= 0xffff_ffff,
    ;
    let needed = w * h * 4;
    let needed = if needed > usize::MAX as u128 {
        usize::MAX as u128
    } else {
        needed
    };
    len as u128 >= needed
}

/// Whether a cover-mode scaled copy into `rect` of a `dst_width` x
/// `dst_height` image has anything to do: no size is zero, the source
/// buffer of `src_len` bytes holds its `src_width` x `src_height` pixels,
/// and `rect` keeps some area once cut to the destination.
pub open spec fn cover_blit_runs(
    dst_width: int,
    dst_height: int,
    rect: [u32; 4],
    src_len: int,
    src_width: int,
    src_height: int,
) -> bool {
    let (x0, y0, x1, y1) = clip(dst_width, dst_height, rect);
    &&& dst_width != 0 && dst_height != 0
    &&& src_width != 0 && src_height != 0
    &&& rect[2] != 0 && rect[3] != 0
    &&& src_len >= src_width * src_height * 4
    &&& x0 < x1 && y0 < y1
}

/// The destination area `(x0, y0, x1, y1)` a cover-mode scaled copy fills:
/// `rect` cut to the destination; `None` when the copy has nothing to do
/// (and leaves the destination untouched).
pub fn cover_blit_target(
    dst_width: u32,
    dst_height: u32,
    rect: [u32; 4],
    src_len: usize,
    src_width: u32,
    src_height: u32,
) -> (r: Option<(u32, u32, u32, u32)>)
    ensures
        r is Some <==> cover_blit_runs(dst_width as int, dst_height as int, rect, src_len as int, src_width as int, src_height as int),
        r matches Some(t) ==> (t.0 as int, t.1 as int, t.2 as int, t.3 as int) == clip(dst_width as int, dst_height as int, rect),
{
    if dst_width == 0 || dst_height == 0 || src_width == 0 || src_height == 0 || rect[2] == 0
        || rect[3] == 0 {
        return None;
    }
    let sw = src_width as u128;
    let sh = src_height as u128;
    assert(sw * sh <= 0xffff_ffff_ffff_ffffu128) by (nonlinear_arith)
        requires
            sw <= 0xffff_ffff,
            sh <= 0xffff_ffff,
    ;
    if (src_len as u128) < sw * sh * 4 {
        return None;
    }
    let x0 = min_u32(rect[0], dst_width);
    let y0 = min_u32(rect[1], dst_height);
    let x1 = min_u32(rect[0].saturating_add(rect[2]), dst_width);
    let y1 = min_u32(rect[1].saturating_add(rect[3]), dst_height);
    if x1 <= x0 || y1 <= y0 {
        return None;
    }
    Some((x0, y0, x1, y1))
}

} // verus!
