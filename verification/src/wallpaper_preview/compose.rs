//! The flat-colour parts of the wallpaper preview dialog's picture; captions
//! and the slider knob are drawn over them by the renderer.
use vstd::prelude::*;

use super::layout::{
    APPLY_RECT_LOCAL, CANCEL_RECT_LOCAL, DIALOG_HEIGHT_PX, DIALOG_WIDTH_PX, DIM_RECT_LOCAL,
    DIM_TRACK_HEIGHT_PX, PREVIEW_RECT_LOCAL, TOGGLE_RECT_LOCAL, dim_track_rect, dim_track_spec,
};
use crate::arith::min;
use crate::pixels::{blit_copies, blit_rgba_region, copy_dims, covers, fill_rect_region, in_box, px_x, px_y};

verus! {

/// Background of the dialog.
pub const DIALOG_BG: [u8; 4] = [18, 18, 18, 236];
/// The light line along the top edge.
pub const DIALOG_TOP_LINE: [u8; 4] = [255, 255, 255, 28];
/// The light line along the bottom edge.
pub const DIALOG_BOTTOM_LINE: [u8; 4] = [255, 255, 255, 24];
/// Behind the picture.
pub const PREVIEW_BG: [u8; 4] = [30, 30, 30, 255];
/// The cancel button.
pub const CANCEL_BG: [u8; 4] = [70, 70, 70, 220];
/// The slider's background.
pub const DIM_BG: [u8; 4] = [66, 66, 66, 210];
/// The slider's track.
pub const DIM_TRACK_BG: [u8; 4] = [255, 255, 255, 26];
/// The filled part of the slider's track.
pub const DIM_TRACK_FILL: [u8; 4] = [255, 255, 255, 70];

/// A zeroed buffer of `len` bytes.
fn zeroed(len: usize) -> (r: Vec<u8>)
    ensures
        r@.len() == len,
        forall|i: int| 0 <= i < len ==> r@[i] == 0,
{
    let mut v: Vec<u8> = Vec::new();
    let mut k: usize = 0;
    while k < len
        invariant
            k <= len,
            v@.len() == k,
            forall|i: int| 0 <= i < k ==> v@[i] == 0,
        decreases len - k,
    {
        v.push(0);
        k = k + 1;
    }
    v
}

/// The top edge line of the dialog.
pub open spec fn top_line_rect() -> [u32; 4] {
    [0, 0, DIALOG_WIDTH_PX, 1]
}

/// The bottom edge line of the dialog.
pub open spec fn bottom_line_rect() -> [u32; 4] {
    [0, (DIALOG_HEIGHT_PX - 1) as u32, DIALOG_WIDTH_PX, 1]
}

/// Byte `i` of the dialog picture: each part painted over the ones before
/// it, in the order background, edge lines, picture area, blur toggle,
/// slider (copied from `dim`), cancel, apply.
pub open spec fn dialog_byte(toggle_bg: [u8; 4], apply_bg: [u8; 4], dim: Seq<u8>, i: int) -> u8 {
    let w = DIALOG_WIDTH_PX as int;
    let h = DIALOG_HEIGHT_PX as int;
    let dw = DIM_RECT_LOCAL[2] as int;
    let dh = DIM_RECT_LOCAL[3] as int;
    let (cw, ch) = copy_dims(w, h, DIM_RECT_LOCAL, dw, dh);
    if covers(w, h, APPLY_RECT_LOCAL, i) {
        apply_bg[i % 4]
    } else if covers(w, h, CANCEL_RECT_LOCAL, i) {
        CANCEL_BG[i % 4]
    } else if blit_copies(w, h, DIM_RECT_LOCAL, dim.len() as int, dw, dh) && in_box(
        w,
        DIM_RECT_LOCAL[0] as int,
        DIM_RECT_LOCAL[1] as int,
        DIM_RECT_LOCAL[0] + cw,
        DIM_RECT_LOCAL[1] + ch,
        i,
    ) {
        dim[((px_y(w, i) - DIM_RECT_LOCAL[1]) * dw + (px_x(w, i) - DIM_RECT_LOCAL[0])) * 4 + i % 4]
    } else if covers(w, h, TOGGLE_RECT_LOCAL, i) {
        toggle_bg[i % 4]
    } else if covers(w, h, PREVIEW_RECT_LOCAL, i) {
        PREVIEW_BG[i % 4]
    } else if covers(w, h, bottom_line_rect(), i) {
        DIALOG_BOTTOM_LINE[i % 4]
    } else if covers(w, h, top_line_rect(), i) {
        DIALOG_TOP_LINE[i % 4]
    } else if covers(w, h, [0, 0, DIALOG_WIDTH_PX, DIALOG_HEIGHT_PX], i) {
        DIALOG_BG[i % 4]
    } else {
        0
    }
}

/// The dialog picture without captions: background, edge lines, picture
/// area, the blur toggle and apply button in the given colours, the slider
/// copied from `dim_pixels` (a slider-sized picture; anything else leaves
/// the slider area as it was) and the cancel button.
pub fn compose_dialog_base(toggle_bg: [u8; 4], apply_bg: [u8; 4], dim_pixels: &[u8]) -> (r: Vec<u8>)
    ensures
        r@.len() == DIALOG_WIDTH_PX * DIALOG_HEIGHT_PX * 4,
        forall|i: int| 0 <= i < r@.len() ==> #[trigger] r@[i] == dialog_byte(toggle_bg, apply_bg, dim_pixels@, i),
{
    let width = DIALOG_WIDTH_PX;
    let height = DIALOG_HEIGHT_PX;
    let len: usize = 560 * 460 * 4;
    let mut pixels = zeroed(len);
    let ghost p0 = pixels@;
    fill_rect_region(&mut pixels, width, height, [0, 0, width, height], DIALOG_BG);
    fill_rect_region(&mut pixels, width, height, [0, 0, width, 1], DIALOG_TOP_LINE);
    fill_rect_region(&mut pixels, width, height, [0, height - 1, width, 1], DIALOG_BOTTOM_LINE);
    fill_rect_region(&mut pixels, width, height, PREVIEW_RECT_LOCAL, PREVIEW_BG);
    fill_rect_region(&mut pixels, width, height, TOGGLE_RECT_LOCAL, toggle_bg);
    blit_rgba_region(
        &mut pixels,
        width,
        height,
        DIM_RECT_LOCAL,
        dim_pixels,
        DIM_RECT_LOCAL[2],
        DIM_RECT_LOCAL[3],
    );
    fill_rect_region(&mut pixels, width, height, CANCEL_RECT_LOCAL, CANCEL_BG);
    fill_rect_region(&mut pixels, width, height, APPLY_RECT_LOCAL, apply_bg);
    assert forall|i: int| 0 <= i < pixels@.len() implies #[trigger] pixels@[i] == dialog_byte(
        toggle_bg,
        apply_bg,
        dim_pixels@,
        i,
    ) by {
        assert(p0[i] == 0);
    }
    pixels
}

/// Byte `i` of a `width` by `height` slider picture whose track is filled
/// `fill_w` pixels from the left: background, then the track, then its
/// filled part (at most the track's width).
pub open spec fn slider_byte(width: int, height: int, track: Option<[u32; 4]>, fill_w: int, i: int) -> u8 {
    match track {
        Some(t) => if fill_w > 0 && covers(width, height, [t[0], t[1], min(fill_w, t[2] as int) as u32, t[3]], i) {
            DIM_TRACK_FILL[i % 4]
        } else if covers(width, height, t, i) {
            DIM_TRACK_BG[i % 4]
        } else if covers(width, height, [0, 0, width as u32, height as u32], i) {
            DIM_BG[i % 4]
        } else {
            0
        },
        None => if covers(width, height, [0, 0, width as u32, height as u32], i) {
            DIM_BG[i % 4]
        } else {
            0
        },
    }
}

/// The slider picture without knob and caption: its background, its track
/// and the first `fill_w` pixels of the track filled (at most the track).
pub fn compose_dim_base(fill_w: u32) -> (r: Vec<u8>)
    ensures
        r@.len() == DIM_RECT_LOCAL[2] * DIM_RECT_LOCAL[3] * 4,
        forall|i: int| 0 <= i < r@.len() ==> #[trigger] r@[i] == slider_byte(
            DIM_RECT_LOCAL[2] as int,
            DIM_RECT_LOCAL[3] as int,
            dim_track_spec(DIM_RECT_LOCAL[2] as int, DIM_RECT_LOCAL[3] as int),
            fill_w as int,
            i,
        ),
{
    let width = DIM_RECT_LOCAL[2];
    let height = DIM_RECT_LOCAL[3];
    let len: usize = 250 * 36 * 4;
    let mut pixels = zeroed(len);
    let ghost p0 = pixels@;
    fill_rect_region(&mut pixels, width, height, [0, 0, width, height], DIM_BG);
    let track = match dim_track_rect(width, height) {
        Some(t) => t,
        None => {
            assert(false);
            return pixels;
        },
    };
    fill_rect_region(&mut pixels, width, height, track, DIM_TRACK_BG);
    let fill = if fill_w < track[2] { fill_w } else { track[2] };
    if fill > 0 {
        fill_rect_region(&mut pixels, width, height, [track[0], track[1], fill, track[3]], DIM_TRACK_FILL);
    }
    assert forall|i: int| 0 <= i < pixels@.len() implies #[trigger] pixels@[i] == slider_byte(
        width as int,
        height as int,
        Some(track),
        fill_w as int,
        i,
    ) by {
        assert(p0[i] == 0);
    }
    pixels
}

} // verus!
