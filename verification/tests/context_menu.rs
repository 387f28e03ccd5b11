use nenarwia::action::UiAction;
use nenarwia::context_menu::layout::{menu_height_px, menu_rows, menu_text_color, menu_width_px, panel_max_origin, row_highlighted};
use nenarwia::context_menu::state::{CanvasContextMenuUi, MenuHits};
use nenarwia::surface::SurfaceSize;

fn on_delete() -> MenuHits {
    MenuHits { in_panel: true, in_show_in_explorer: false, in_delete: true }
}

fn on_show() -> MenuHits {
    MenuHits { in_panel: true, in_show_in_explorer: true, in_delete: false }
}

#[test]
fn menu_rows_stack_inside_panel() {
    assert_eq!((menu_width_px(), menu_height_px()), (228, 104));
    let rows = menu_rows();
    assert_eq!(rows.show_in_explorer_rect, [10, 10, 208, 40]);
    assert_eq!(rows.delete_rect, [10, 54, 208, 40]);
    assert!(row_highlighted(true, false));
    assert!(!row_highlighted(true, true));
    assert_eq!(menu_text_color(true), [236, 236, 236, 120]);
    assert_eq!(panel_max_origin(SurfaceSize::new(1000, 50)), (772, 0));
}

#[test]
fn open_menu_clicks_act_on_target_slot() {
    let mut menu = CanvasContextMenuUi::new();
    assert_eq!(menu.handle_left_click(on_delete()), None);
    menu.open_at(42);
    assert!(menu.is_open());
    assert_eq!(menu.target_slot_id(), Some(42));
    assert_eq!(menu.handle_left_click(on_delete()), Some(UiAction::MoveSlotToTrash(42)));
    assert_eq!(menu.handle_left_click(on_show()), Some(UiAction::ShowInExplorer(42)));
    assert_eq!(
        menu.handle_left_click(MenuHits { in_panel: true, in_show_in_explorer: false, in_delete: false }),
        None
    );
}

#[test]
fn busy_menu_ignores_clicks_and_hover() {
    let mut menu = CanvasContextMenuUi::new();
    menu.open_at(7);
    menu.mark_texture_built();
    menu.set_busy(true);
    assert!(menu.is_busy());
    assert!(menu.needs_texture_rebuild());
    assert_eq!(menu.handle_left_click(on_delete()), None);
    assert!(!menu.handle_cursor_moved(on_delete()));
    assert!(!menu.hovered_delete);
}

#[test]
fn hover_changes_are_reported_once() {
    let mut menu = CanvasContextMenuUi::new();
    assert!(!menu.handle_cursor_moved(on_show()));
    menu.open_at(1);
    menu.mark_texture_built();
    assert!(!menu.needs_texture_rebuild());
    assert!(menu.handle_cursor_moved(on_show()));
    assert!(menu.hovered_show_in_explorer);
    assert!(menu.needs_texture_rebuild());
    assert!(!menu.handle_cursor_moved(on_show()));
    // outside the panel nothing is hovered, even over a row's area
    assert!(menu.handle_cursor_moved(MenuHits { in_panel: false, in_show_in_explorer: true, in_delete: false }));
    assert!(!menu.hovered_show_in_explorer);
}

#[test]
fn clearing_target_closes_only_matching_menu() {
    let mut menu = CanvasContextMenuUi::new();
    menu.open_at(5);
    menu.clear_target_if_matches(6);
    assert!(menu.is_open());
    menu.clear_target_if_matches(5);
    assert!(!menu.is_open());
    assert_eq!(menu.target_slot_id(), None);
    assert_eq!(menu.handle_left_click(on_delete()), None);
    assert!(!menu.contains_screen_point(true));
}
