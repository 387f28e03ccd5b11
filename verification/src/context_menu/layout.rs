//! Size of the context menu and the rows in it.
use vstd::prelude::*;

use crate::arith::sat_sub;
use crate::surface::SurfaceSize;

verus! {

/// Width of the menu panel.
pub const MENU_WIDTH_PX: u32 = 228;
/// Height of the menu panel.
pub const MENU_HEIGHT_PX: u32 = 104;
/// Top of the first row.
pub const ROW_TOP_PX: u32 = 10;
/// Height of a row.
pub const ROW_HEIGHT_PX: u32 = 40;
/// Gap between the rows.
pub const ROW_GAP_PX: u32 = 4;
/// Horizontal inset of the rows.
pub const ROW_INSET_X_PX: u32 = 10;
/// Colour of the row labels.
pub const TEXT_COLOR: [u8; 4] = [236, 236, 236, 255];
/// Colour of the row labels while an action runs.
pub const TEXT_BUSY_COLOR: [u8; 4] = [236, 236, 236, 120];

/// Width of the menu panel.
pub fn menu_width_px() -> (r: u32)
    ensures
        r == MENU_WIDTH_PX,
{
    MENU_WIDTH_PX
}

/// Height of the menu panel.
pub fn menu_height_px() -> (r: u32)
    ensures
        r == MENU_HEIGHT_PX,
{
    MENU_HEIGHT_PX
}

/// The two rows of the menu, relative to the panel, as `[x, y, w, h]`.
pub struct MenuRows {
    pub show_in_explorer_rect: [u32; 4],
    pub delete_rect: [u32; 4],
}

/// The rows: "Show in Explorer" on top, "Move to Trash" below it, both as
/// wide as the panel less an inset on each side.
pub fn menu_rows() -> (r: MenuRows)
    ensures
        r.show_in_explorer_rect@ == seq![
            ROW_INSET_X_PX,
            ROW_TOP_PX,
            (MENU_WIDTH_PX - 2 * ROW_INSET_X_PX) as u32,
            ROW_HEIGHT_PX,
        ],
        r.delete_rect@ == seq![
            ROW_INSET_X_PX,
            (ROW_TOP_PX + ROW_HEIGHT_PX + ROW_GAP_PX) as u32,
            (MENU_WIDTH_PX - 2 * ROW_INSET_X_PX) as u32,
            ROW_HEIGHT_PX,
        ],
        // both rows lie inside the panel, one below the other
        r.show_in_explorer_rect[1] + r.show_in_explorer_rect[3] < r.delete_rect[1],
        r.delete_rect[1] + r.delete_rect[3] <= MENU_HEIGHT_PX,
        r.delete_rect[0] + r.delete_rect[2] <= MENU_WIDTH_PX,
{
    let width = MENU_WIDTH_PX;
    let row_width = width.saturating_sub(2 * ROW_INSET_X_PX);
    let show_in_explorer_rect = [ROW_INSET_X_PX, ROW_TOP_PX, row_width, ROW_HEIGHT_PX];
    let delete_rect = [ROW_INSET_X_PX, ROW_TOP_PX + ROW_HEIGHT_PX + ROW_GAP_PX, row_width, ROW_HEIGHT_PX];
    assert(show_in_explorer_rect@ =~= seq![ROW_INSET_X_PX, ROW_TOP_PX, row_width, ROW_HEIGHT_PX]);
    assert(delete_rect@ =~= seq![
        ROW_INSET_X_PX,
        (ROW_TOP_PX + ROW_HEIGHT_PX + ROW_GAP_PX) as u32,
        row_width,
        ROW_HEIGHT_PX,
    ]);
    MenuRows { show_in_explorer_rect, delete_rect }
}

/// A row is highlighted while hovered, unless an action runs.
pub fn row_highlighted(hovered: bool, busy: bool) -> (r: bool)
    ensures
        r == (hovered && !busy),
{
    hovered && !busy
}

/// The colour of the row labels: dimmed while an action runs.
pub fn menu_text_color(busy: bool) -> (r: [u8; 4])
    ensures
        r == (if busy { TEXT_BUSY_COLOR } else { TEXT_COLOR }),
{
    if busy {
        TEXT_BUSY_COLOR
    } else {
        TEXT_COLOR
    }
}

/// The farthest right and down the panel's top-left corner may go so that
/// the panel stays on the surface (0 where the surface is too small).
pub fn panel_max_origin(surface_size: SurfaceSize) -> (r: (u32, u32))
    ensures
        r.0 == sat_sub(surface_size.width as int, MENU_WIDTH_PX as int),
        r.1 == sat_sub(surface_size.height as int, MENU_HEIGHT_PX as int),
{
    (surface_size.width.saturating_sub(MENU_WIDTH_PX), surface_size.height.saturating_sub(MENU_HEIGHT_PX))
}

} // verus!
