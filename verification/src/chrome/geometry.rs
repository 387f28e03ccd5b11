//! Rectangle arithmetic of the title bar. A rectangle is `[x, y, w, h]`.
use vstd::prelude::*;

use crate::arith::{clamp, max, max_u32, min, min_u32, sat_add, sat_sub};
use super::constants::{TAB_CLOSE_SIDE_INSET_PX, TAB_CLOSE_SIZE_PX, TAB_CLOSE_TEXT_GAP_PX};

verus! {

/// The rectangle shrunk by `inset_x` on the left and right and by `inset_y`
/// on the top and bottom, every step saturating.
pub open spec fn inset_rect_spec(rect: [u32; 4], inset_x: u32, inset_y: u32) -> [u32; 4] {
    [
        sat_add(rect[0] as int, inset_x as int) as u32,
        sat_add(rect[1] as int, inset_y as int) as u32,
        sat_sub(rect[2] as int, sat_mul2(inset_x as int)) as u32,
        sat_sub(rect[3] as int, sat_mul2(inset_y as int)) as u32,
    ]
}

/// `v.saturating_mul(2)` on `u32`.
pub open spec fn sat_mul2(v: int) -> int {
    if 2 * v > u32::MAX { u32::MAX as int } else { 2 * v }
}

/// Shrinks `rect` by `inset_x` horizontally and `inset_y` vertically on each side.
pub fn inset_rect(rect: [u32; 4], inset_x: u32, inset_y: u32) -> (r: [u32; 4])
    ensures
        r == inset_rect_spec(rect, inset_x, inset_y),
{
    let x = rect[0].saturating_add(inset_x);
    let y = rect[1].saturating_add(inset_y);
    let dx: u32 = if inset_x > u32::MAX / 2 { u32::MAX } else { inset_x * 2 };
    let dy: u32 = if inset_y > u32::MAX / 2 { u32::MAX } else { inset_y * 2 };
    let w = rect[2].saturating_sub(dx);
    let h = rect[3].saturating_sub(dy);
    [x, y, w, h]
}

/// Where the close button of a tab occupying `rect` goes: flush against the
/// right edge (less the side inset) and vertically centred.
pub open spec fn tab_close_rect_spec(rect: [u32; 4]) -> [u32; 4] {
    [
        sat_sub(
            sat_sub(sat_add(rect[0] as int, rect[2] as int), TAB_CLOSE_SIDE_INSET_PX as int),
            TAB_CLOSE_SIZE_PX as int,
        ) as u32,
        sat_add(rect[1] as int, sat_sub(rect[3] as int, TAB_CLOSE_SIZE_PX as int) / 2) as u32,
        min(TAB_CLOSE_SIZE_PX as int, rect[2] as int) as u32,
        min(TAB_CLOSE_SIZE_PX as int, rect[3] as int) as u32,
    ]
}

/// The close-button rectangle of a tab.
pub fn compute_tab_close_rect(rect: [u32; 4]) -> (r: [u32; 4])
    ensures
        r == tab_close_rect_spec(rect),
{
    let x = rect[0].saturating_add(rect[2]).saturating_sub(TAB_CLOSE_SIDE_INSET_PX).saturating_sub(
        TAB_CLOSE_SIZE_PX,
    );
    let y = rect[1].saturating_add((rect[3].saturating_sub(TAB_CLOSE_SIZE_PX)) / 2);
    [x, y, min_u32(TAB_CLOSE_SIZE_PX, rect[2]), min_u32(TAB_CLOSE_SIZE_PX, rect[3])]
}

/// The part of a tab left for its title: the whole tab without a close
/// button, or the part left of the close button less the text gap.
pub open spec fn tab_title_rect_spec(rect: [u32; 4], close_rect: Option<[u32; 4]>) -> [u32; 4] {
    match close_rect {
        Some(c) => [
            rect[0],
            rect[1],
            sat_sub(sat_sub(c[0] as int, rect[0] as int), TAB_CLOSE_TEXT_GAP_PX as int) as u32,
            rect[3],
        ],
        None => rect,
    }
}

/// The title rectangle of a tab.
pub fn tab_title_rect(rect: [u32; 4], close_rect: Option<[u32; 4]>) -> (r: [u32; 4])
    ensures
        r == tab_title_rect_spec(rect, close_rect),
{
    match close_rect {
        Some(c) => [
            rect[0],
            rect[1],
            c[0].saturating_sub(rect[0]).saturating_sub(TAB_CLOSE_TEXT_GAP_PX),
            rect[3],
        ],
        None => rect,
    }
}

/// The bounding box of a circle centred at `(cx, cy)`, with its origin moved
/// onto the texture and its size cut to what is left of the texture.
pub open spec fn circle_rect_spec(cx: int, cy: int, radius: int, width: int, height: int) -> [u32; 4] {
    let x = max(cx - radius, 0);
    let y = max(cy - radius, 0);
    let w = max(2 * radius, 0);
    let h = max(2 * radius, 0);
    [
        x as u32,
        y as u32,
        min(w, sat_sub(width, x)) as u32,
        min(h, sat_sub(height, y)) as u32,
    ]
}

/// The bounding box of a circle, clipped to a `width` x `height` texture.
pub fn circle_rect(cx: i32, cy: i32, radius: i32, width: u32, height: u32) -> (r: [u32; 4])
    requires
        i32::MIN <= cx - radius <= i32::MAX,
        i32::MIN <= cy - radius <= i32::MAX,
        2 * radius <= i32::MAX,
        -2 * radius <= i32::MAX,
    ensures
        r == circle_rect_spec(cx as int, cy as int, radius as int, width as int, height as int),
{
    let xi = cx - radius;
    let yi = cy - radius;
    let x: u32 = if xi > 0 { xi as u32 } else { 0 };
    let y: u32 = if yi > 0 { yi as u32 } else { 0 };
    let d = radius * 2;
    let w: u32 = if d > 0 { d as u32 } else { 0 };
    let h: u32 = w;
    let max_w = width.saturating_sub(x);
    let max_h = height.saturating_sub(y);
    [x, y, min_u32(w, max_w), min_u32(h, max_h)]
}

} // verus!
