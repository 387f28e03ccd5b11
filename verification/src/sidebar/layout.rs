//! Where the sidebar's items go.
use vstd::prelude::*;

use crate::arith::{max, max_u32, min, min_u32, sat_add, sat_sub};
use crate::tokens::{
    SIDEBAR_ITEM_GAP_PX, SIDEBAR_ITEM_HEIGHT_PX, SIDEBAR_PADDING_TOP_PX, SIDEBAR_PADDING_X_PX,
    SIDEBAR_WIDTH_PX,
};
use super::nav::{visible_nav_items, MAX_NAV_ITEMS};

verus! {

/// Whether the debug-slot toggle is built in (a development feature, off in
/// release builds).
pub const DEBUG_SLOT_TOGGLE_ENABLED: bool = false;

/// Most recent wallpapers shown at once.
pub const MAX_RECENT_WALLPAPERS: usize = 10;

/// Columns of the recent-wallpaper grid.
pub const RECENT_GRID_COLUMNS: u32 = 2;

/// Gap between grid tiles, both ways.
pub const RECENT_GRID_GAP_PX: u32 = 8;

/// Room kept above the grid for its heading.
pub const RECENT_HEADING_PX: u32 = 18;

/// Tallest a grid tile gets.
pub const RECENT_TILE_MAX_HEIGHT_PX: u32 = 52;

/// Number of tiles shown for `count` recent wallpapers.
pub open spec fn recent_visible(count: int) -> int {
    min(count, MAX_RECENT_WALLPAPERS as int)
}

/// Rows of the grid.
pub open spec fn recent_rows(count: int) -> int {
    (recent_visible(count) + 1) / 2
}

/// Height left for tiles and gaps between `top` and `bottom`.
pub open spec fn recent_available(top: int, bottom: int) -> int {
    sat_sub(sat_sub(bottom, top), RECENT_HEADING_PX as int)
}

/// Width of one tile: half of the item width less one gap, at least 1.
pub open spec fn recent_tile_width(item_width: int) -> int {
    max(sat_sub(item_width, RECENT_GRID_GAP_PX as int) / 2, 1)
}

/// Height of one tile: the available height less the row gaps, shared by
/// the rows, between 1 and the maximum tile height.
pub open spec fn recent_tile_height(top: int, bottom: int, count: int) -> int {
    let rows = recent_rows(count);
    let h = sat_sub(recent_available(top, bottom), RECENT_GRID_GAP_PX * (rows - 1)) / max(rows, 1);
    if h < 1 { 1 } else if h > RECENT_TILE_MAX_HEIGHT_PX { RECENT_TILE_MAX_HEIGHT_PX as int } else { h }
}

/// Whether the grid shows anything: there are items and room for them.
pub open spec fn recent_has_grid(top: int, bottom: int, count: int) -> bool {
    count > 0 && bottom > top && recent_available(top, bottom) > 0
}

/// Tile `idx` of the grid: two columns, filled row by row from the left.
pub open spec fn recent_tile(item_width: int, top: int, bottom: int, count: int, idx: int) -> [u32; 4] {
    let tw = recent_tile_width(item_width);
    let th = recent_tile_height(top, bottom, count);
    [
        (SIDEBAR_PADDING_X_PX + (idx % 2) * (tw + RECENT_GRID_GAP_PX)) as u32,
        (sat_add(top, RECENT_HEADING_PX as int) + (idx / 2) * (th + RECENT_GRID_GAP_PX)) as u32,
        tw as u32,
        th as u32,
    ]
}

/// The last tile's row stays within `u32`.
pub open spec fn recent_fits(top: int, bottom: int, count: int) -> bool {
    recent_has_grid(top, bottom, count) ==> sat_add(top, RECENT_HEADING_PX as int) + (recent_rows(count)
        - 1) * (recent_tile_height(top, bottom, count) + RECENT_GRID_GAP_PX) <= u32::MAX
}

/// The recent-wallpaper tiles form a two-column grid: an even-numbered tile
/// and the next one share a row, equal in size, with a gap between them; the
/// tile two places on sits directly below, with a gap between the rows.
pub proof fn recent_tiles_form_two_columns(item_width: u32, top: u32, bottom: u32, count: usize, i: int)
    requires
        recent_has_grid(top as int, bottom as int, count as int),
        recent_fits(top as int, bottom as int, count as int),
        0 <= i,
        i % 2 == 0,
        i + 1 < recent_visible(count as int),
    ensures
        ({
            let a = recent_tile(item_width as int, top as int, bottom as int, count as int, i);
            let b = recent_tile(item_width as int, top as int, bottom as int, count as int, i + 1);
            &&& a[1] == b[1]
            &&& a[2] == b[2] && a[3] == b[3]
            &&& a[0] + a[2] < b[0]
        }),
        i + 2 < recent_visible(count as int) ==> ({
            let a = recent_tile(item_width as int, top as int, bottom as int, count as int, i);
            let c = recent_tile(item_width as int, top as int, bottom as int, count as int, i + 2);
            &&& c[0] == a[0]
            &&& c[2] == a[2] && c[3] == a[3]
            &&& a[1] + a[3] < c[1]
        }),
{
    let tw = recent_tile_width(item_width as int);
    let th = recent_tile_height(top as int, bottom as int, count as int);
    let rows = recent_rows(count as int);
    let y0 = sat_add(top as int, RECENT_HEADING_PX as int);
    let g = RECENT_GRID_GAP_PX as int;
    let r = i / 2;
    assert(1 <= tw <= u32::MAX / 2);
    assert(1 <= th <= RECENT_TILE_MAX_HEIGHT_PX);
    assert((i + 1) % 2 == 1 && (i + 1) / 2 == r && (i + 2) % 2 == 0 && (i + 2) / 2 == r + 1);
    assert(0 <= r && 2 * r + 1 < recent_visible(count as int));
    assert(r <= rows - 1);
    assert(y0 + (rows - 1) * (th + g) <= u32::MAX);
    assert(0 <= r * (th + g) <= (rows - 1) * (th + g)) by (nonlinear_arith)
        requires
            0 <= r <= rows - 1,
            th + g >= 0,
    ;
    if i + 2 < recent_visible(count as int) {
        assert(r + 1 <= rows - 1);
        assert((r + 1) * (th + g) <= (rows - 1) * (th + g)) by (nonlinear_arith)
            requires
                r + 1 <= rows - 1,
                th + g >= 0,
        ;
        assert((r + 1) * (th + g) == r * (th + g) + (th + g)) by (nonlinear_arith);
    }
}

/// The tiles of the recent-wallpaper grid between `top` and `bottom`: at
/// most ten, in two columns, below a heading; none without items or room.
pub fn build_recent_wallpaper_rects(item_width: u32, top: u32, bottom: u32, item_count: usize) -> (r: Vec<[u32; 4]>)
    requires
        recent_fits(top as int, bottom as int, item_count as int),
    ensures
        !recent_has_grid(top as int, bottom as int, item_count as int) ==> r@.len() == 0,
        recent_has_grid(top as int, bottom as int, item_count as int) ==> {
            &&& r@.len() == recent_visible(item_count as int)
            &&& forall|i: int|
                0 <= i < r@.len() ==> #[trigger] r@[i] == recent_tile(
                    item_width as int,
                    top as int,
                    bottom as int,
                    item_count as int,
                    i,
                )
        },
{
    if item_count == 0 || bottom <= top {
        return Vec::new();
    }
    let visible = if item_count < MAX_RECENT_WALLPAPERS {
        item_count
    } else {
        MAX_RECENT_WALLPAPERS
    };
    let cols = RECENT_GRID_COLUMNS;
    let rows = ((visible as u32) + 1) / cols;
    let col_gap = RECENT_GRID_GAP_PX;
    let row_gap = RECENT_GRID_GAP_PX;
    let tile_width = max_u32(item_width.saturating_sub(col_gap) / cols, 1);
    let available_height = bottom.saturating_sub(top).saturating_sub(RECENT_HEADING_PX);
    if available_height == 0 {
        return Vec::new();
    }
    let total_row_gap = row_gap * (rows - 1);
    let h = available_height.saturating_sub(total_row_gap) / max_u32(rows, 1);
    let tile_height = if h < 1 {
        1
    } else if h > RECENT_TILE_MAX_HEIGHT_PX {
        RECENT_TILE_MAX_HEIGHT_PX
    } else {
        h
    };
    let mut rects: Vec<[u32; 4]> = Vec::new();
    let grid_top = top.saturating_add(RECENT_HEADING_PX);
    let mut idx: usize = 0;
    while idx < visible
        invariant
            idx <= visible,
            cols == RECENT_GRID_COLUMNS,
            col_gap == RECENT_GRID_GAP_PX,
            row_gap == RECENT_GRID_GAP_PX,
            tile_width <= u32::MAX / 2 + 1,
            visible == recent_visible(item_count as int),
            rows == recent_rows(item_count as int),
            1 <= rows <= 5,
            tile_width == recent_tile_width(item_width as int),
            tile_height == recent_tile_height(top as int, bottom as int, item_count as int),
            grid_top == sat_add(top as int, RECENT_HEADING_PX as int),
            recent_has_grid(top as int, bottom as int, item_count as int),
            recent_fits(top as int, bottom as int, item_count as int),
            rects@.len() == idx,
            forall|i: int|
                0 <= i < idx ==> #[trigger] rects@[i] == recent_tile(
                    item_width as int,
                    top as int,
                    bottom as int,
                    item_count as int,
                    i,
                ),
        decreases visible - idx,
    {
        let row = (idx as u32) / cols;
        let col = (idx as u32) % cols;
        assert(col * (tile_width + col_gap) <= tile_width + col_gap) by (nonlinear_arith)
            requires
                col == idx % 2,
                0 <= tile_width,
                col_gap == 8,
        ;
        assert(row <= rows - 1 && row * (tile_height + row_gap) <= (rows - 1) * (tile_height + row_gap)) by (nonlinear_arith)
            requires
                row == idx / 2,
                idx < visible,
                rows == (visible + 1) / 2,
                0 <= tile_height,
        ;
        rects.push([
            SIDEBAR_PADDING_X_PX + col * (tile_width + col_gap),
            grid_top + row * (tile_height + row_gap),
            tile_width,
            tile_height,
        ]);
        idx = idx + 1;
    }
    rects
}

/// Where the sidebar's items go for a panel `height` pixels tall.
pub struct SidebarPanelLayout {
    pub nav_item_rects: [[u32; 4]; MAX_NAV_ITEMS],
    pub debug_slot_backdrop_rect: [u32; 4],
    pub fps_toggle_rect: [u32; 4],
    pub backend_toggle_rect: [u32; 4],
    pub wallpaper_rect: [u32; 4],
    pub recent_section_top: u32,
    pub recent_wallpaper_rects: Vec<[u32; 4]>,
}

/// Width of a sidebar item.
pub open spec fn item_width() -> int {
    SIDEBAR_WIDTH_PX - 2 * SIDEBAR_PADDING_X_PX
}

/// Gap between footer items.
pub const FOOTER_GAP_PX: u32 = 8;

/// Space kept under the last footer item.
pub const FOOTER_BOTTOM_PAD_PX: u32 = 16;

/// Top of the footer item one place above an item whose top is `y`.
pub open spec fn footer_above(y: int) -> int {
    sat_sub(y, SIDEBAR_ITEM_HEIGHT_PX + FOOTER_GAP_PX)
}

/// The sidebar layout: navigation items from the top; from the bottom the
/// wallpaper button, the graphics-backend toggle (zero height when absent),
/// the VSync toggle and the debug-slot toggle (zero height unless built
/// in); the recent-wallpaper grid in between.
pub open spec fn panel_layout_ok(l: SidebarPanelLayout, height: int, has_backend_toggle: bool, count: int) -> bool {
    let iw = item_width();
    let ih = SIDEBAR_ITEM_HEIGHT_PX as int;
    let px = SIDEBAR_PADDING_X_PX as int;
    let wall_y = sat_sub(sat_sub(height, ih), FOOTER_BOTTOM_PAD_PX as int);
    let backend_y = footer_above(wall_y);
    let fps_y = if has_backend_toggle { footer_above(backend_y) } else { backend_y };
    let debug_y = if DEBUG_SLOT_TOGGLE_ENABLED { footer_above(fps_y) } else { fps_y };
    let top = SIDEBAR_PADDING_TOP_PX + (ih + SIDEBAR_ITEM_GAP_PX) * 2 + ih + 22;
    let bottom = sat_sub(debug_y, 20);
    &&& forall|i: int|
        0 <= i < MAX_NAV_ITEMS ==> #[trigger] l.nav_item_rects[i] == [
            px as u32,
            (SIDEBAR_PADDING_TOP_PX + (ih + SIDEBAR_ITEM_GAP_PX) * i) as u32,
            iw as u32,
            ih as u32,
        ]
    &&& l.wallpaper_rect == [px as u32, wall_y as u32, iw as u32, ih as u32]
    &&& l.backend_toggle_rect == [
        px as u32,
        backend_y as u32,
        iw as u32,
        if has_backend_toggle { ih as u32 } else { 0 },
    ]
    &&& l.fps_toggle_rect == [px as u32, fps_y as u32, iw as u32, ih as u32]
    &&& l.debug_slot_backdrop_rect == [
        px as u32,
        debug_y as u32,
        iw as u32,
        if DEBUG_SLOT_TOGGLE_ENABLED { ih as u32 } else { 0 },
    ]
    &&& l.recent_section_top == top
    &&& (!recent_has_grid(top, bottom, count) ==> l.recent_wallpaper_rects@.len() == 0)
    &&& (recent_has_grid(top, bottom, count) ==> {
        &&& l.recent_wallpaper_rects@.len() == recent_visible(count)
        &&& forall|i: int|
            0 <= i < l.recent_wallpaper_rects@.len() ==> #[trigger] l.recent_wallpaper_rects@[i]
                == recent_tile(iw, top, bottom, count, i)
    })
}

/// The footer items stack up from the bottom of the panel without
/// overlapping: the wallpaper button sits the bottom padding above the
/// panel's bottom edge, and each toggle above it sits one item height and
/// one footer gap higher than the item below it (the VSync toggle directly
/// above the wallpaper button when there is no backend toggle), once the
/// panel is tall enough to hold them all.
pub proof fn footer_items_stack_without_overlap(
    l: SidebarPanelLayout,
    height: u32,
    has_backend_toggle: bool,
    count: int,
)
    requires
        panel_layout_ok(l, height as int, has_backend_toggle, count),
        height >= SIDEBAR_ITEM_HEIGHT_PX + FOOTER_BOTTOM_PAD_PX + 2 * (SIDEBAR_ITEM_HEIGHT_PX
            + FOOTER_GAP_PX),
    ensures
        l.wallpaper_rect[1] + l.wallpaper_rect[3] + FOOTER_BOTTOM_PAD_PX == height,
        l.wallpaper_rect[3] == SIDEBAR_ITEM_HEIGHT_PX,
        l.fps_toggle_rect[3] == SIDEBAR_ITEM_HEIGHT_PX,
        has_backend_toggle ==> {
            &&& l.backend_toggle_rect[3] == SIDEBAR_ITEM_HEIGHT_PX
            &&& l.backend_toggle_rect[1] + l.backend_toggle_rect[3] + FOOTER_GAP_PX == l.wallpaper_rect[1]
            &&& l.fps_toggle_rect[1] + l.fps_toggle_rect[3] + FOOTER_GAP_PX == l.backend_toggle_rect[1]
        },
        !has_backend_toggle ==> l.fps_toggle_rect[1] + l.fps_toggle_rect[3] + FOOTER_GAP_PX
            == l.wallpaper_rect[1],
{
}

/// Lays out a sidebar panel `height` pixels tall.
pub fn build_panel_layout(height: u32, has_backend_toggle: bool, recent_wallpaper_count: usize) -> (r: SidebarPanelLayout)
    ensures
        panel_layout_ok(r, height as int, has_backend_toggle, recent_wallpaper_count as int),
{
    let width = SIDEBAR_WIDTH_PX;
    let item_width = width.saturating_sub(SIDEBAR_PADDING_X_PX * 2);
    let item_start_y = SIDEBAR_PADDING_TOP_PX;
    let mut nav_item_rects = [[0u32; 4]; MAX_NAV_ITEMS];
    let n = visible_nav_items().len();
    let mut idx: usize = 0;
    while idx < n
        invariant
            idx <= n,
            n == MAX_NAV_ITEMS,
            item_start_y == SIDEBAR_PADDING_TOP_PX,
            item_width == SIDEBAR_WIDTH_PX - 2 * SIDEBAR_PADDING_X_PX,
            forall|i: int|
                0 <= i < idx ==> #[trigger] nav_item_rects[i] == [
                    SIDEBAR_PADDING_X_PX,
                    (SIDEBAR_PADDING_TOP_PX + (SIDEBAR_ITEM_HEIGHT_PX + SIDEBAR_ITEM_GAP_PX) * i) as u32,
                    item_width,
                    SIDEBAR_ITEM_HEIGHT_PX,
                ],
        decreases n - idx,
    {
        assert((SIDEBAR_ITEM_HEIGHT_PX + SIDEBAR_ITEM_GAP_PX) * idx <= 92) by (nonlinear_arith)
            requires
                idx < 3,
                SIDEBAR_ITEM_HEIGHT_PX + SIDEBAR_ITEM_GAP_PX == 46,
        ;
        nav_item_rects[idx] = [
            SIDEBAR_PADDING_X_PX,
            item_start_y + (SIDEBAR_ITEM_HEIGHT_PX + SIDEBAR_ITEM_GAP_PX) * idx as u32,
            item_width,
            SIDEBAR_ITEM_HEIGHT_PX,
        ];
        idx = idx + 1;
    }
    let footer_bottom_pad = FOOTER_BOTTOM_PAD_PX;
    let footer_gap = FOOTER_GAP_PX;
    let wallpaper_rect = [
        SIDEBAR_PADDING_X_PX,
        height.saturating_sub(SIDEBAR_ITEM_HEIGHT_PX).saturating_sub(footer_bottom_pad),
        item_width,
        SIDEBAR_ITEM_HEIGHT_PX,
    ];
    let mut footer_cursor = wallpaper_rect[1].saturating_sub(SIDEBAR_ITEM_HEIGHT_PX + footer_gap);
    let backend_toggle_rect = if has_backend_toggle {
        let rect = [SIDEBAR_PADDING_X_PX, footer_cursor, item_width, SIDEBAR_ITEM_HEIGHT_PX];
        footer_cursor = rect[1].saturating_sub(SIDEBAR_ITEM_HEIGHT_PX + footer_gap);
        rect
    } else {
        [SIDEBAR_PADDING_X_PX, footer_cursor, item_width, 0]
    };
    let fps_toggle_rect = [SIDEBAR_PADDING_X_PX, footer_cursor, item_width, SIDEBAR_ITEM_HEIGHT_PX];
    let debug_slot_backdrop_rect = if DEBUG_SLOT_TOGGLE_ENABLED {
        [
            SIDEBAR_PADDING_X_PX,
            fps_toggle_rect[1].saturating_sub(SIDEBAR_ITEM_HEIGHT_PX + footer_gap),
            item_width,
            SIDEBAR_ITEM_HEIGHT_PX,
        ]
    } else {
        [SIDEBAR_PADDING_X_PX, fps_toggle_rect[1], item_width, 0]
    };
    let last_nav_rect = nav_item_rects[n - 1];
    let recent_section_top = last_nav_rect[1].saturating_add(last_nav_rect[3]).saturating_add(22);
    let footer_top = if DEBUG_SLOT_TOGGLE_ENABLED {
        debug_slot_backdrop_rect[1]
    } else {
        fps_toggle_rect[1]
    };
    let recent_section_bottom = footer_top.saturating_sub(20);
    proof {
        let c = recent_wallpaper_count as int;
        assert(recent_rows(c) <= 5);
        let th = recent_tile_height(recent_section_top as int, recent_section_bottom as int, c);
        assert(th <= 52);
        assert((recent_rows(c) - 1) * (th + RECENT_GRID_GAP_PX) <= 240) by (nonlinear_arith)
            requires
                recent_rows(c) <= 5,
                recent_rows(c) >= 0,
                0 <= th <= 52,
                RECENT_GRID_GAP_PX == 8,
        ;
        assert(nav_item_rects[2] == [
            SIDEBAR_PADDING_X_PX,
            (SIDEBAR_PADDING_TOP_PX + (SIDEBAR_ITEM_HEIGHT_PX + SIDEBAR_ITEM_GAP_PX) * 2) as u32,
            item_width,
            SIDEBAR_ITEM_HEIGHT_PX,
        ]);
    }
    let recent_wallpaper_rects = build_recent_wallpaper_rects(
        item_width,
        recent_section_top,
        recent_section_bottom,
        recent_wallpaper_count,
    );
    SidebarPanelLayout {
        nav_item_rects,
        debug_slot_backdrop_rect,
        fps_toggle_rect,
        backend_toggle_rect,
        wallpaper_rect,
        recent_section_top,
        recent_wallpaper_rects,
    }
}

/// `rect` shrunk by `inset` on every side, keeping at least one pixel each way.
pub open spec fn thumb_inset_spec(rect: [u32; 4], inset: u32) -> [u32; 4] {
    [
        sat_add(rect[0] as int, inset as int) as u32,
        sat_add(rect[1] as int, inset as int) as u32,
        max(sat_sub(rect[2] as int, 2 * inset), 1) as u32,
        max(sat_sub(rect[3] as int, 2 * inset), 1) as u32,
    ]
}

/// Shrinks a thumbnail tile by `inset` on every side, never to nothing.
pub fn inset_rect(rect: [u32; 4], inset: u32) -> (r: [u32; 4])
    requires
        inset * 2 <= u32::MAX,
    ensures
        r == thumb_inset_spec(rect, inset),
{
    let width = max_u32(rect[2].saturating_sub(inset * 2), 1);
    let height = max_u32(rect[3].saturating_sub(inset * 2), 1);
    [rect[0].saturating_add(inset), rect[1].saturating_add(inset), width, height]
}

} // verus!
