//! Sizing and placing the notice box.
use vstd::prelude::*;

use crate::arith::{clamp, max, min, sat_add, sat_sub};
use crate::surface::SurfaceSize;
use crate::tokens::{
    UI_CLOSE_GAP_PX, UI_CLOSE_SIZE_PX, UI_MARGIN_PX, UI_MAX_WIDTH_PX, UI_MIN_WIDTH_PX,
    UI_PADDING_PX,
};

verus! {

/// Narrowest width the notice is laid out for.
pub const NOTICE_MIN_LAYOUT_WIDTH_PX: u32 = 120;

/// The width the notice may take on a surface `width` wide.
pub open spec fn layout_max_width_spec(width: int) -> int {
    min(UI_MAX_WIDTH_PX as int, max(sat_sub(width, 2 * UI_MARGIN_PX), NOTICE_MIN_LAYOUT_WIDTH_PX as int))
}

/// The widest the notice may be: the surface width less both margins, at
/// least 120 pixels, at most the global cap.
pub fn layout_max_width(surface_size: SurfaceSize) -> (r: u32)
    ensures
        r == layout_max_width_spec(surface_size.width as int),
        NOTICE_MIN_LAYOUT_WIDTH_PX <= r <= UI_MAX_WIDTH_PX,
{
    let available = surface_size.width.saturating_sub(UI_MARGIN_PX * 2);
    let available = if available > NOTICE_MIN_LAYOUT_WIDTH_PX {
        available
    } else {
        NOTICE_MIN_LAYOUT_WIDTH_PX
    };
    if UI_MAX_WIDTH_PX < available {
        UI_MAX_WIDTH_PX
    } else {
        available
    }
}

/// Horizontal room the close button takes beside the text, paddings included.
pub open spec fn notice_chrome_width() -> int {
    2 * UI_PADDING_PX + UI_CLOSE_SIZE_PX + UI_CLOSE_GAP_PX
}

/// The widths the notice text is wrapped and boxed with.
pub struct NoticeWrap {
    /// Widest the box may be.
    pub max_width: u32,
    /// Widest a text line may be.
    pub wrap_width: u32,
    /// Narrowest the box may be.
    pub min_box_width: u32,
}

/// The widths for a notice at most `max_width` wide whose lines are wrapped
/// at no less than `min_wrap_width`.
pub fn notice_wrap(max_width: u32, min_wrap_width: u32) -> (r: NoticeWrap)
    ensures
        r.max_width == max(max_width as int, min_wrap_width as int),
        r.wrap_width == max(sat_sub(r.max_width as int, notice_chrome_width()), min_wrap_width as int),
        r.min_box_width == min(UI_MIN_WIDTH_PX as int, r.max_width as int),
        r.min_box_width <= r.max_width,
{
    let max_width = if max_width >= min_wrap_width { max_width } else { min_wrap_width };
    let wrap = max_width.saturating_sub(UI_PADDING_PX * 2 + UI_CLOSE_SIZE_PX + UI_CLOSE_GAP_PX);
    let wrap_width = if wrap >= min_wrap_width { wrap } else { min_wrap_width };
    let min_box_width = if UI_MIN_WIDTH_PX <= max_width { UI_MIN_WIDTH_PX } else { max_width };
    NoticeWrap { max_width, wrap_width, min_box_width }
}

/// The size of the notice box and where its close button sits in it.
pub struct NoticeBox {
    pub width: u32,
    pub height: u32,
    /// `[x, y, width, height]` of the close button, relative to the box.
    pub close_rect: [u32; 4],
}

/// Width of a box around text `text_width` wide, within the wrap's bounds.
pub open spec fn notice_box_width(wrap: NoticeWrap, text_width: int) -> int {
    clamp(sat_add(text_width, notice_chrome_width()), wrap.min_box_width as int, wrap.max_width as int)
}

/// The box around `line_count` lines (at least one line's height) of text at
/// most `text_width` wide, each line `line_height` tall (both rounded up to
/// whole pixels), with the close button in the top-right corner.
pub fn notice_box(wrap: &NoticeWrap, text_width: u32, line_height: u32, line_count: u32) -> (r: NoticeBox)
    requires
        wrap.min_box_width <= wrap.max_width,
        2 * UI_PADDING_PX + line_height * max(line_count as int, 1) <= u32::MAX,
    ensures
        r.width == notice_box_width(*wrap, text_width as int),
        r.height == 2 * UI_PADDING_PX + line_height * max(line_count as int, 1),
        r.close_rect@ == seq![
            sat_sub(r.width as int, UI_PADDING_PX + UI_CLOSE_SIZE_PX) as u32,
            UI_PADDING_PX,
            UI_CLOSE_SIZE_PX,
            UI_CLOSE_SIZE_PX,
        ],
        // the close button lies inside the box whenever the box has room
        r.width >= UI_PADDING_PX + UI_CLOSE_SIZE_PX ==> r.close_rect[0] + r.close_rect[2] <= r.width,
        line_height * max(line_count as int, 1) >= UI_CLOSE_SIZE_PX - UI_PADDING_PX
            ==> r.close_rect[1] + r.close_rect[3] <= r.height,
{
    let w = text_width.saturating_add(UI_PADDING_PX * 2 + UI_CLOSE_SIZE_PX + UI_CLOSE_GAP_PX);
    let width = if w < wrap.min_box_width {
        wrap.min_box_width
    } else if w > wrap.max_width {
        wrap.max_width
    } else {
        w
    };
    let lines = if line_count >= 1 { line_count } else { 1 };
    assert(line_height * lines <= u32::MAX);
    let height = UI_PADDING_PX * 2 + line_height * lines;
    let close_x = width.saturating_sub(UI_PADDING_PX + UI_CLOSE_SIZE_PX);
    let close_rect = [close_x, UI_PADDING_PX, UI_CLOSE_SIZE_PX, UI_CLOSE_SIZE_PX];
    assert(close_rect@ =~= seq![close_x, UI_PADDING_PX, UI_CLOSE_SIZE_PX, UI_CLOSE_SIZE_PX]);
    NoticeBox { width, height, close_rect }
}

/// Top-left corner of a `box_width` by `box_height` notice on the surface:
/// the bottom-left corner, a margin away from both edges, kept a margin away
/// from the top and the right edge where it fits.
pub open spec fn notice_origin_spec(surface: SurfaceSize, box_width: int, box_height: int) -> (int, int) {
    let m = UI_MARGIN_PX as int;
    let y = if surface.height - m - box_height < m { m } else { surface.height - m - box_height };
    let x = if m + box_width > surface.width - m { max(surface.width - m - box_width, m) } else { m };
    (x, y)
}

/// Where the notice box goes; `None` on an empty surface.
pub fn notice_origin(surface: SurfaceSize, box_width: u32, box_height: u32) -> (r: Option<(u32, u32)>)
    ensures
        (surface.width == 0 || surface.height == 0) <==> r is None,
        r matches Some(p) ==> p.0 == notice_origin_spec(surface, box_width as int, box_height as int).0
            && p.1 == notice_origin_spec(surface, box_width as int, box_height as int).1,
{
    if surface.width == 0 || surface.height == 0 {
        return None;
    }
    let m = UI_MARGIN_PX as i64;
    let w = surface.width as i64;
    let h = surface.height as i64;
    let bw = box_width as i64;
    let bh = box_height as i64;
    let y = if h - m - bh < m { m } else { h - m - bh };
    let x = if m + bw > w - m {
        if w - m - bw > m { w - m - bw } else { m }
    } else {
        m
    };
    Some((x as u32, y as u32))
}

} // verus!
