use nenarwia::action::UiAction;
use nenarwia::chrome::controls::WindowControlsLayout;
use nenarwia::chrome::state::{build_chrome_layout, ChromeHits, ChromePressTarget, ChromeTabView, WindowChromeUi};
use nenarwia::chrome::tab_strip::{measure_tab_width, select_visible_tab_range, tab_title};
use nenarwia::tokens::CHROME_CONTROLS_LEFT;

fn no_hits(in_bar: Option<bool>) -> ChromeHits {
    ChromeHits {
        in_bar,
        close: false,
        minimize: false,
        maximize: false,
        add_tab: false,
        tab_close: Vec::new(),
        tab: Vec::new(),
        drag: false,
    }
}

#[test]
fn window_controls_follow_platform_order() {
    let layout = WindowControlsLayout::new(200, 32);

    if CHROME_CONTROLS_LEFT {
        assert!(layout.close_center_x < layout.minimize_center_x);
        assert!(layout.minimize_center_x < layout.maximize_center_x);
    } else {
        assert!(layout.minimize_center_x < layout.maximize_center_x);
        assert!(layout.maximize_center_x < layout.close_center_x);
    }
}

#[test]
fn tab_title_trims_and_falls_back_to_untitled() {
    assert_eq!(tab_title("  photos \t"), "photos");
    assert_eq!(tab_title("   "), "Untitled");
    assert_eq!(tab_title(""), "Untitled");
    assert_eq!(tab_title("a b"), "a b");
    // every Unicode White_Space character is trimmed, others are kept
    assert_eq!(tab_title("\u{3000}\u{85}x\u{A0}\u{2028}"), "x");
    assert_eq!(tab_title("\u{200B}x"), "\u{200B}x");
}

#[test]
fn tab_width_is_clamped_between_min_and_max() {
    // 50 px of text plus 12 px padding each side is below the 96 px minimum.
    assert_eq!(measure_tab_width(Some(50), 500), 96);
    // 100 + 24 lies between the bounds.
    assert_eq!(measure_tab_width(Some(100), 500), 124);
    // wide titles stop at 220.
    assert_eq!(measure_tab_width(Some(400), 500), 220);
    // no font: the fallback width.
    assert_eq!(measure_tab_width(None, 500), 112);
    // a cramped strip keeps at least the visible minimum, within the room.
    assert_eq!(measure_tab_width(Some(400), 30), 30);
    assert_eq!(measure_tab_width(Some(400), 60), 60);
}

#[test]
fn visible_tab_range_keeps_active_tab() {
    let widths = [100u32, 100, 100, 100, 100];
    let (start, end) = select_visible_tab_range(&widths, 3, 210);
    assert!(start <= 3 && 3 < end);
    // two 100 px tabs and one 4 px gap fit in 210 px, three do not; the
    // left neighbour is tried first
    assert_eq!((start, end), (2, 4));
    // after a step to the left the right side goes first
    let narrow = [50u32, 50, 50, 50];
    assert_eq!(select_visible_tab_range(&narrow, 1, 158), (0, 3));
    let (start, end) = select_visible_tab_range(&widths, 0, 10_000);
    assert_eq!((start, end), (0, 5));
}

#[test]
fn chrome_layout_places_tabs_between_burger_and_controls() {
    let layout = build_chrome_layout(900, &vec![Some(60), Some(80)], 1, None, None);
    assert_eq!(layout.height, 40);
    let rects = &layout.tab_strip.tab_rects;
    assert_eq!(rects.len(), 2);
    assert!(rects[0][0] + rects[0][2] <= rects[1][0]);
    assert!(rects[1][0] + rects[1][2] <= layout.controls.drag_end);
}

#[test]
fn press_then_release_on_close_button_closes_window() {
    let mut ui = WindowChromeUi::new();
    let mut hits = no_hits(Some(true));
    hits.close = true;
    assert_eq!(ui.handle_mouse_press(&hits), Some(UiAction::Consume));
    assert_eq!(ui.pressed_target, Some(ChromePressTarget::CloseWindow));
    assert_eq!(ui.handle_mouse_release(&hits), Some(UiAction::CloseWindow));
    assert_eq!(ui.pressed_target, None);
}

#[test]
fn release_off_the_pressed_button_does_nothing() {
    let mut ui = WindowChromeUi::new();
    let mut hits = no_hits(Some(true));
    hits.minimize = true;
    ui.handle_mouse_press(&hits);
    let moved = no_hits(Some(true));
    assert_eq!(ui.handle_mouse_release(&moved), Some(UiAction::Consume));
    assert_eq!(ui.handle_mouse_release(&moved), None);
}

#[test]
fn press_on_drag_region_starts_window_drag() {
    let mut ui = WindowChromeUi::new();
    let mut hits = no_hits(Some(true));
    hits.drag = true;
    assert_eq!(ui.handle_mouse_press(&hits), Some(UiAction::StartWindowDrag));
    assert_eq!(ui.handle_mouse_press(&no_hits(Some(false))), None);
}

#[test]
fn sync_tabs_reports_changes_only() {
    let mut ui = WindowChromeUi::new();
    let tabs = vec![ChromeTabView { title: "one".to_string() }, ChromeTabView { title: "two".to_string() }];
    assert!(ui.sync_tabs(&tabs, 5));
    assert_eq!(ui.active_tab, 1);
    assert!(!ui.sync_tabs(&tabs, 1));
}

#[test]
fn visible_tab_range_tries_left_neighbour_first() {
    // three equal tabs, the middle one active, room for two: the left
    // neighbour joins the active tab
    assert_eq!(select_visible_tab_range(&[100u32, 100, 100], 1, 204), (0, 2));
}

#[test]
fn second_identical_update_draws_nothing() {
    let mut ui = WindowChromeUi::new();
    let tabs = vec![ChromeTabView { title: "one".to_string() }];
    ui.sync_tabs(&tabs, 0);
    let widths = vec![Some(40)];
    assert!(ui.update(800, 600, false, 0, &widths).is_some());
    assert_eq!(ui.last_surface_width, 800);
    assert!(!ui.texture_dirty);
    assert!(ui.update(800, 600, false, 40, &widths).is_none());
    // another width draws again
    assert!(ui.update(640, 600, false, 40, &widths).is_some());
}
