use nenarwia::action::UiAction;
use nenarwia::sidebar::clear_canvas::{format_ram_gib, ProcessRamUsage};
use nenarwia::sidebar::layout::build_recent_wallpaper_rects;
use nenarwia::sidebar::nav::sidebar_nav_item_action;
use nenarwia::sidebar::state::{on_off_label, sidebar_text_alpha, SidebarHits, SidebarUi};

fn hits() -> SidebarHits {
    SidebarHits {
        burger: false,
        panel_visible: true,
        in_panel: true,
        below_chrome: true,
        nav: vec![false, false, false],
        debug_slot_backdrop: false,
        fps_toggle: false,
        backend_toggle: false,
        wallpaper: false,
        recent: Vec::new(),
    }
}

#[test]
fn add_folder_nav_item_is_action_not_persistent_tab() {
    assert_eq!(
        sidebar_nav_item_action(0),
        Some(UiAction::OpenCanvasImportDialog)
    );
}

#[test]
fn sidebar_nav_items_keep_expected_actions() {
    assert_eq!(sidebar_nav_item_action(1), Some(UiAction::OpenCacheFolder));
    assert_eq!(
        sidebar_nav_item_action(2),
        Some(UiAction::ClearCurrentCanvas)
    );
    assert_eq!(sidebar_nav_item_action(3), None);
}

#[test]
fn recent_wallpaper_rects_are_empty_without_items_or_space() {
    assert!(build_recent_wallpaper_rects(200, 100, 200, 0).is_empty());
    assert!(build_recent_wallpaper_rects(200, 200, 200, 4).is_empty());
    assert!(build_recent_wallpaper_rects(200, 220, 200, 4).is_empty());
}

#[test]
fn recent_wallpaper_rects_cap_items_and_use_two_column_grid() {
    let rects = build_recent_wallpaper_rects(200, 100, 360, 14);

    assert_eq!(rects.len(), 10);
    assert_eq!(rects[0][1], rects[1][1]);
    assert!(rects[1][0] > rects[0][0]);
    assert!(rects[2][1] > rects[0][1]);
    assert_eq!(rects[2][0], rects[0][0]);
}

#[test]
fn recent_wallpaper_tiles_leave_gaps_between_columns_and_rows() {
    let rects = build_recent_wallpaper_rects(236, 100, 360, 5);
    assert_eq!(rects.len(), 5);
    for i in [0usize, 2] {
        assert_eq!(rects[i][1], rects[i + 1][1]);
        assert_eq!((rects[i][2], rects[i][3]), (rects[i + 1][2], rects[i + 1][3]));
        assert!(rects[i][0] + rects[i][2] < rects[i + 1][0]);
        assert_eq!(rects[i + 2][0], rects[i][0]);
        assert!(rects[i][1] + rects[i][3] < rects[i + 2][1]);
    }
}

#[test]
fn format_ram_gib_uses_compact_decimal_for_small_values() {
    let bytes = (1.5f64 * 1024.0 * 1024.0 * 1024.0) as u64;

    assert_eq!(format_ram_gib(bytes), "1.5 GB");
}

#[test]
fn process_ram_percent_is_available_for_clear_canvas_badge() {
    let usage = ProcessRamUsage {
        working_set_bytes: 2 * 1024 * 1024 * 1024,
        total_physical_bytes: 8 * 1024 * 1024 * 1024,
    };

    assert_eq!(usage.usage_percent(), 25);
}

fn format_like_float(bytes: u64) -> String {
    let gib = bytes as f64 / (1024.0 * 1024.0 * 1024.0);
    if gib >= 10.0 {
        format!("{gib:.0} GB")
    } else {
        format!("{gib:.1} GB")
    }
}

#[test]
fn format_ram_gib_matches_float_formatting() {
    let gib: u64 = 1024 * 1024 * 1024;
    let mut samples: Vec<u64> = vec![
        0,
        1,
        gib / 20,
        gib / 4,
        gib / 4 * 3,
        gib / 20 * 3,
        gib - 1,
        gib,
        gib + gib / 20,
        10 * gib - gib / 20,
        10 * gib - gib / 20 - 1,
        10 * gib - 1,
        10 * gib,
        10 * gib + gib / 2,
        11 * gib + gib / 2,
        12 * gib + gib / 2,
        16 * gib,
        1 << 52,
        (1 << 53) - 1,
        1 << 53,
        (1 << 53) + 1,
        (1 << 53) + 3,
        (1 << 60) + 12345,
        u64::MAX - 1,
        u64::MAX,
    ];
    let mut x: u64 = 0x9e37_79b9_7f4a_7c15;
    for _ in 0..2000 {
        x ^= x << 13;
        x ^= x >> 7;
        x ^= x << 17;
        samples.push(x % (40 * gib));
        samples.push(x);
    }
    for tenth in 0..200u64 {
        samples.push(gib * tenth / 10 + gib / 20);
    }
    for bytes in samples {
        assert_eq!(format_ram_gib(bytes), format_like_float(bytes), "bytes = {bytes}");
    }
}

#[test]
fn ram_percent_rounds_and_caps() {
    let unknown = ProcessRamUsage { working_set_bytes: 5, total_physical_bytes: 0 };
    assert_eq!(unknown.usage_percent(), 0);
    let third = ProcessRamUsage { working_set_bytes: 1, total_physical_bytes: 3 };
    assert_eq!(third.usage_percent(), 33);
    let two_thirds = ProcessRamUsage { working_set_bytes: 2, total_physical_bytes: 3 };
    assert_eq!(two_thirds.usage_percent(), 67);
    let over = ProcessRamUsage { working_set_bytes: 9, total_physical_bytes: 3 };
    assert_eq!(over.usage_percent(), 100);
    let huge = ProcessRamUsage { working_set_bytes: u64::MAX, total_physical_bytes: u64::MAX };
    assert_eq!(huge.usage_percent(), 100);
}

#[test]
fn ram_labels_read_percent_and_sizes() {
    let usage = ProcessRamUsage {
        working_set_bytes: 3 * 1024 * 1024 * 1024 / 2,
        total_physical_bytes: 16 * 1024 * 1024 * 1024,
    };
    assert_eq!(usage.percent_label(), "9%");
    assert_eq!(usage.detail_label(), "1.5 GB / 16 GB");
}

#[test]
fn burger_click_toggles_panel() {
    let mut ui = SidebarUi::new();
    let open = ui.target_open;
    let mut h = hits();
    h.burger = true;
    assert_eq!(ui.handle_click(&h), Some(UiAction::Consume));
    assert_eq!(ui.target_open, !open);
}

#[test]
fn nav_click_asks_for_item_action() {
    let mut ui = SidebarUi::new();
    let mut h = hits();
    h.nav = vec![false, true, false];
    assert_eq!(ui.handle_click(&h), Some(UiAction::OpenCacheFolder));
}

#[test]
fn click_on_title_bar_is_not_the_sidebars() {
    let mut ui = SidebarUi::new();
    let mut h = hits();
    h.below_chrome = false;
    h.nav = vec![true, false, false];
    assert_eq!(ui.handle_click(&h), None);
}

#[test]
fn footer_toggles_ask_to_flip_settings() {
    let mut ui = SidebarUi::new();
    let mut h = hits();
    h.fps_toggle = true;
    assert_eq!(ui.handle_click(&h), Some(UiAction::ToggleVsync));
    let mut h = hits();
    h.wallpaper = true;
    assert_eq!(ui.handle_click(&h), Some(UiAction::OpenWallpaperDialog));
    assert!(ui.active_wallpaper);
}

#[test]
fn ram_sample_change_redraws_panel() {
    let mut ui = SidebarUi::new();
    ui.panel_texture_dirty = false;
    let usage = ProcessRamUsage { working_set_bytes: 1, total_physical_bytes: 2 };
    assert!(ui.set_clear_canvas_ram_usage(Some(usage)));
    assert!(ui.panel_texture_dirty);
    ui.panel_texture_dirty = false;
    assert!(!ui.set_clear_canvas_ram_usage(Some(usage)));
    assert!(!ui.panel_texture_dirty);
}

#[test]
fn panel_redraws_follow_height_width_and_changes() {
    let mut ui = SidebarUi::new();
    assert!(ui.panel_redraw_due(600, 260));
    ui.mark_panel_drawn(600);
    assert!(!ui.panel_redraw_due(600, 260));
    assert!(ui.panel_redraw_due(601, 260));
    assert!(ui.panel_redraw_due(600, 1));
    assert!(ui.set_backend_label(Some("Vulkan".to_string())));
    assert!(ui.panel_redraw_due(600, 260));
    ui.mark_panel_drawn(600);
    assert!(!ui.set_backend_label(Some("Vulkan".to_string())));
    assert!(ui.set_backend_label(Some("DX12".to_string())));
    assert!(ui.set_backend_label(None));
    assert!(ui.burger_redraw_due(false));
    assert!(ui.burger_redraw_due(true));
    ui.mark_burger_drawn();
    assert!(!ui.burger_redraw_due(true));
}

#[test]
fn panel_labels_highlight_when_hovered_or_active() {
    let mut ui = SidebarUi::new();
    assert!(!ui.nav_item_highlighted(1));
    ui.hovered_nav_item = Some(1);
    assert!(ui.nav_item_highlighted(1));
    assert!(!ui.nav_item_highlighted(0));
    ui.active_nav_item = Some(0);
    assert!(ui.nav_item_highlighted(0));
    ui.vsync_enabled = true;
    assert!(ui.vsync_highlighted());
    assert!(!ui.wallpaper_highlighted());
    ui.hovered_wallpaper = true;
    assert!(ui.wallpaper_highlighted());
    assert_eq!(sidebar_text_alpha(true), 245);
    assert_eq!(sidebar_text_alpha(false), 190);
    assert_eq!(on_off_label(true), "ON");
    assert_eq!(on_off_label(false), "OFF");
}
