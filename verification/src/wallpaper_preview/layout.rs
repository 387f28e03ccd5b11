//! Where the parts of the wallpaper preview dialog sit.
use vstd::prelude::*;

use crate::arith::{max, min, sat_sub};
use crate::surface::SurfaceSize;

verus! {

/// Width of the dialog.
pub const DIALOG_WIDTH_PX: u32 = 560;
/// Height of the dialog.
pub const DIALOG_HEIGHT_PX: u32 = 460;
/// The picture, relative to the dialog, as `[x, y, w, h]`.
pub const PREVIEW_RECT_LOCAL: [u32; 4] = [20, 52, 520, 292];
/// The blur toggle button.
pub const TOGGLE_RECT_LOCAL: [u32; 4] = [20, 356, 250, 36];
/// The dimming slider.
pub const DIM_RECT_LOCAL: [u32; 4] = [290, 356, 250, 36];
/// The cancel button.
pub const CANCEL_RECT_LOCAL: [u32; 4] = [330, 408, 100, 36];
/// The apply button.
pub const APPLY_RECT_LOCAL: [u32; 4] = [440, 408, 100, 36];
/// Room left of the slider track, for its label.
pub const DIM_TRACK_LEFT_PAD_PX: u32 = 130;
/// Room right of the slider track.
pub const DIM_TRACK_RIGHT_PAD_PX: u32 = 16;
/// Height of the slider track.
pub const DIM_TRACK_HEIGHT_PX: u32 = 4;
/// Closest the dialog comes to the surface's top-left corner.
pub const DIALOG_MIN_OFFSET_PX: u32 = 8;

/// The dialog's top-left corner on the surface, in half pixels: centred,
/// at least 8 pixels from the top and left edges.
pub open spec fn dialog_origin_half_px_spec(surface: SurfaceSize, tex_width: int, tex_height: int) -> (int, int) {
    (
        max(sat_sub(surface.width as int, tex_width), 2 * DIALOG_MIN_OFFSET_PX),
        max(sat_sub(surface.height as int, tex_height), 2 * DIALOG_MIN_OFFSET_PX),
    )
}

/// The dialog's top-left corner on the surface, counted in half pixels
/// (centring can land on a half pixel).
pub fn dialog_origin_half_px(surface: SurfaceSize, tex_width: u32, tex_height: u32) -> (r: (u32, u32))
    ensures
        r.0 == dialog_origin_half_px_spec(surface, tex_width as int, tex_height as int).0,
        r.1 == dialog_origin_half_px_spec(surface, tex_width as int, tex_height as int).1,
{
    let x = surface.width.saturating_sub(tex_width);
    let y = surface.height.saturating_sub(tex_height);
    let floor = 2 * DIALOG_MIN_OFFSET_PX;
    (if x > floor { x } else { floor }, if y > floor { y } else { floor })
}

/// The slider track inside a `width` by `height` slider picture, as
/// `[x, y, w, h]`: between the paddings, vertically centred; `None` where
/// the picture is too narrow for a track.
pub open spec fn dim_track_spec(width: int, height: int) -> Option<[u32; 4]> {
    let x0 = min(DIM_TRACK_LEFT_PAD_PX as int, width);
    let x1 = sat_sub(width, DIM_TRACK_RIGHT_PAD_PX as int);
    if x1 <= x0 {
        None
    } else {
        Some([
            x0 as u32,
            (sat_sub(height, DIM_TRACK_HEIGHT_PX as int) / 2) as u32,
            (x1 - x0) as u32,
            DIM_TRACK_HEIGHT_PX,
        ])
    }
}

/// The slider track of a `width` by `height` slider picture.
pub fn dim_track_rect(width: u32, height: u32) -> (r: Option<[u32; 4]>)
    ensures
        r == dim_track_spec(width as int, height as int),
{
    let x0 = if DIM_TRACK_LEFT_PAD_PX < width { DIM_TRACK_LEFT_PAD_PX } else { width };
    let x1 = width.saturating_sub(DIM_TRACK_RIGHT_PAD_PX);
    if x1 <= x0 {
        return None;
    }
    let y = height.saturating_sub(DIM_TRACK_HEIGHT_PX) / 2;
    Some([x0, y, x1 - x0, DIM_TRACK_HEIGHT_PX])
}

} // verus!
