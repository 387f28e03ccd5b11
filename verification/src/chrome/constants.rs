//! Title-bar tab strip tokens (physical pixels).
use vstd::prelude::*;

verus! {

/// Top edge of a tab.
pub const TAB_TOP_PX: u32 = 6;
/// Height of a tab.
pub const TAB_HEIGHT_PX: u32 = 28;
/// Gap between neighbouring tabs.
pub const TAB_GAP_PX: u32 = 4;
/// Narrowest width a measured tab is given.
pub const TAB_MIN_WIDTH_PX: u32 = 96;
/// Widest width a measured tab is given.
pub const TAB_MAX_WIDTH_PX: u32 = 220;
/// Narrowest width a tab may shrink to when space is short.
pub const TAB_MIN_VISIBLE_WIDTH_PX: u32 = 48;
/// Horizontal text padding inside a tab.
pub const TAB_TEXT_SIDE_PADDING_PX: u32 = 12;
/// Side length of the tab close button.
pub const TAB_CLOSE_SIZE_PX: u32 = 16;
/// Gap between the tab close button and the tab's right edge.
pub const TAB_CLOSE_SIDE_INSET_PX: u32 = 6;
/// Gap between the tab title and its close button.
pub const TAB_CLOSE_TEXT_GAP_PX: u32 = 4;
/// Side length of the "new tab" button.
pub const ADD_TAB_SIZE_PX: u32 = 22;
/// Narrowest width the window drag region keeps.
pub const MIN_DRAG_WIDTH_PX: u32 = 120;
/// Width given to a tab whose title cannot be measured (no font).
pub const TAB_FALLBACK_WIDTH_PX: u32 = 112;

} // verus!
