//! Layout tokens shared by the widgets (all in physical pixels).
use vstd::prelude::*;

verus! {

/// Height of the custom title bar.
pub const CHROME_HEIGHT_PX: u32 = 40;
/// Radius of the round window buttons (close, minimise, maximise).
pub const CHROME_BTN_RADIUS_PX: u32 = 6;
/// Gap between two round window buttons.
pub const CHROME_BTN_GAP_PX: u32 = 8;
/// Distance between the window edge and the outermost window button.
pub const CHROME_SIDE_PADDING_PX: u32 = 14;
/// Whether the window buttons sit on the left edge (the macOS layout).
/// The viewer targets Windows, where they sit on the right.
pub const CHROME_CONTROLS_LEFT: bool = false;

/// Left edge of the sidebar toggle ("burger") button.
pub const BURGER_BTN_LEFT_PX: u32 = 8;
/// Top edge of the burger button.
pub const BURGER_BTN_TOP_PX: u32 = 3;
/// Side length of the square burger button.
pub const BURGER_BTN_SIZE_PX: u32 = 35;

/// Width of the sidebar panel.
pub const SIDEBAR_WIDTH_PX: u32 = 260;
/// Horizontal padding of the sidebar items.
pub const SIDEBAR_PADDING_X_PX: u32 = 12;
/// Top of the first sidebar navigation item.
pub const SIDEBAR_PADDING_TOP_PX: u32 = 56;
/// Height of one sidebar item.
pub const SIDEBAR_ITEM_HEIGHT_PX: u32 = 40;
/// Vertical gap between sidebar navigation items.
pub const SIDEBAR_ITEM_GAP_PX: u32 = 6;

/// Margin between a notice box and the window edge.
pub const UI_MARGIN_PX: u32 = 16;
/// Widest a notice box may get.
pub const UI_MAX_WIDTH_PX: u32 = 520;
/// Narrowest a notice box may get.
pub const UI_MIN_WIDTH_PX: u32 = 240;
/// Inner padding of a notice box.
pub const UI_PADDING_PX: u32 = 14;
/// Side length of the notice close button.
pub const UI_CLOSE_SIZE_PX: u32 = 18;
/// Gap between notice text and the close button.
pub const UI_CLOSE_GAP_PX: u32 = 10;

} // verus!
