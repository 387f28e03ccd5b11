//! The round window buttons at one end of the title bar.
use vstd::prelude::*;

use crate::arith::{max, min};
use crate::tokens::{
    CHROME_BTN_GAP_PX, CHROME_BTN_RADIUS_PX, CHROME_CONTROLS_LEFT, CHROME_SIDE_PADDING_PX,
};
use super::geometry::{circle_rect, circle_rect_spec};

verus! {

/// Centres and bounding boxes of the close, minimise and maximise buttons,
/// and where the region left to tabs and dragging begins and ends.
pub struct WindowControlsLayout {
    pub close_rect: [u32; 4],
    pub minimize_rect: [u32; 4],
    pub maximize_rect: [u32; 4],
    /// End of the button cluster when it sits on the left (else 0).
    pub controls_cluster_end: u32,
    /// Where the drag region must end.
    pub drag_end: u32,
    pub close_center_x: i32,
    pub minimize_center_x: i32,
    pub maximize_center_x: i32,
    pub center_y: i32,
    pub radius: i32,
}

/// Distance between the centres of neighbouring buttons.
pub open spec fn button_step() -> int {
    2 * CHROME_BTN_RADIUS_PX + CHROME_BTN_GAP_PX
}

/// Centre of the close button: next to the side padding on the left, or on
/// the right (never closer to the left edge than one radius).
pub open spec fn close_center_spec(width: u32) -> int {
    let r = CHROME_BTN_RADIUS_PX as int;
    if CHROME_CONTROLS_LEFT {
        CHROME_SIDE_PADDING_PX + r
    } else {
        max(width as i32 - CHROME_SIDE_PADDING_PX - r, r)
    }
}

/// Centre of the maximise button.
pub open spec fn maximize_center_spec(width: u32) -> int {
    let r = CHROME_BTN_RADIUS_PX as int;
    if CHROME_CONTROLS_LEFT {
        close_center_spec(width) + 2 * button_step()
    } else {
        max(close_center_spec(width) - button_step(), r)
    }
}

/// Centre of the minimise button.
pub open spec fn minimize_center_spec(width: u32) -> int {
    let r = CHROME_BTN_RADIUS_PX as int;
    if CHROME_CONTROLS_LEFT {
        close_center_spec(width) + button_step()
    } else {
        max(maximize_center_spec(width) - button_step(), r)
    }
}

impl WindowControlsLayout {
    /// The layout `new(width, height)` gives.
    pub open spec fn new_spec(width: u32, height: u32) -> Self {
        let r = CHROME_BTN_RADIUS_PX as int;
        let cy = (height / 2) as int;
        WindowControlsLayout {
            close_rect: circle_rect_spec(close_center_spec(width), cy, r, width as int, height as int),
            minimize_rect: circle_rect_spec(minimize_center_spec(width), cy, r, width as int, height as int),
            maximize_rect: circle_rect_spec(maximize_center_spec(width), cy, r, width as int, height as int),
            controls_cluster_end: (if CHROME_CONTROLS_LEFT {
                min(
                    max(maximize_center_spec(width) + CHROME_BTN_RADIUS_PX + CHROME_SIDE_PADDING_PX, 0),
                    width as int,
                )
            } else {
                0
            }) as u32,
            drag_end: (if CHROME_CONTROLS_LEFT {
                width as int
            } else {
                max(maximize_center_spec(width) - CHROME_BTN_RADIUS_PX - CHROME_SIDE_PADDING_PX, 0)
            }) as u32,
            close_center_x: close_center_spec(width) as i32,
            minimize_center_x: minimize_center_spec(width) as i32,
            maximize_center_x: maximize_center_spec(width) as i32,
            center_y: cy as i32,
            radius: r as i32,
        }
    }

    /// The layout of the window buttons on a `width` x `height` title bar.
    ///
    /// Buttons are ordered close, minimise, maximise from the left edge when
    /// they sit on the left, and minimise, maximise, close towards the right
    /// edge otherwise.
    pub fn new(width: u32, height: u32) -> (r: Self)
        requires
            width as i32 - CHROME_SIDE_PADDING_PX - CHROME_BTN_RADIUS_PX >= i32::MIN,
        ensures
            r == Self::new_spec(width, height),
    {
        let radius = CHROME_BTN_RADIUS_PX as i32;
        let center_y = (height / 2) as i32;
        let step = (CHROME_BTN_RADIUS_PX * 2 + CHROME_BTN_GAP_PX) as i32;
        let side = CHROME_SIDE_PADDING_PX as i32;
        let close_center_x: i32;
        let minimize_center_x: i32;
        let maximize_center_x: i32;
        let controls_cluster_end: u32;
        let drag_end: u32;
        if CHROME_CONTROLS_LEFT {
            close_center_x = side + radius;
            minimize_center_x = close_center_x + step;
            maximize_center_x = minimize_center_x + step;
            let end = maximize_center_x + radius + side;
            let end_u: u32 = if end > 0 { end as u32 } else { 0 };
            controls_cluster_end = if end_u < width { end_u } else { width };
            drag_end = width;
        } else {
            let wi = width as i32;
            let c = wi - side - radius;
            close_center_x = if c > radius { c } else { radius };
            let m = close_center_x - step;
            maximize_center_x = if m > radius { m } else { radius };
            let n = maximize_center_x - step;
            minimize_center_x = if n > radius { n } else { radius };
            controls_cluster_end = 0;
            let d = maximize_center_x - radius - side;
            drag_end = if d > 0 { d as u32 } else { 0 };
        }
        WindowControlsLayout {
            close_rect: circle_rect(close_center_x, center_y, radius, width, height),
            minimize_rect: circle_rect(minimize_center_x, center_y, radius, width, height),
            maximize_rect: circle_rect(maximize_center_x, center_y, radius, width, height),
            controls_cluster_end,
            drag_end,
            close_center_x,
            minimize_center_x,
            maximize_center_x,
            center_y,
            radius,
        }
    }
}

/// The window buttons keep the platform's order: close, minimise, maximise
/// from the left edge when they sit on the left; minimise, maximise, close
/// towards the right edge otherwise, once the bar is wide enough to hold
/// all three without pushing one against the left edge.
pub proof fn window_controls_follow_platform_order(width: u32)
    requires
        CHROME_CONTROLS_LEFT || (width as i32 == width && width as int
            >= CHROME_SIDE_PADDING_PX + 2 * CHROME_BTN_RADIUS_PX + 2 * button_step() + 1),
    ensures
        CHROME_CONTROLS_LEFT ==> close_center_spec(width) < minimize_center_spec(width)
            < maximize_center_spec(width),
        !CHROME_CONTROLS_LEFT ==> minimize_center_spec(width) < maximize_center_spec(width)
            < close_center_spec(width),
{
}

/// With the buttons on the right and a bar wide enough for them, the drag
/// region (and the tab strip with it) stops one side padding short of the
/// maximise button's left edge, so it never runs under the maximise or the
/// close button.
pub proof fn drag_region_stops_before_buttons(width: u32, height: u32)
    requires
        width as i32 == width,
        width as int >= CHROME_SIDE_PADDING_PX + 2 * CHROME_BTN_RADIUS_PX + 2 * button_step() + 1,
    ensures
        !CHROME_CONTROLS_LEFT ==> ({
            let l = WindowControlsLayout::new_spec(width, height);
            &&& l.drag_end + CHROME_SIDE_PADDING_PX == l.maximize_rect[0]
            &&& l.drag_end < l.maximize_rect[0] < l.close_rect[0]
            &&& l.maximize_rect[0] + l.maximize_rect[2] <= l.close_rect[0]
        }),
{
}

} // verus!
