use std::path::PathBuf;

use nenarwia::action::UiAction;
use nenarwia::surface::SurfaceSize;
use nenarwia::wallpaper::wallpaper_layout_due;
use nenarwia::wallpaper_preview::compose::{compose_dialog_base, compose_dim_base};
use nenarwia::wallpaper_preview::layout::{dialog_origin_half_px, dim_track_rect};
use nenarwia::wallpaper_preview::state::{
    press_target, BlurJobOutcome, BlurToggle, PreviewHits, PreviewTarget, WallpaperPreviewUi,
};

fn hit(toggle: bool, dim: bool, apply: bool, cancel: bool) -> PreviewHits {
    PreviewHits { toggle, dim, apply, cancel }
}

fn opened(has_blurred: bool, blur_enabled: bool) -> WallpaperPreviewUi {
    let mut ui = WallpaperPreviewUi::new();
    ui.open_from_rgba(64, 48, has_blurred, PathBuf::from("wall.png"), Some(9), blur_enabled)
        .expect("non-empty image opens");
    ui
}

#[test]
fn empty_image_is_refused() {
    let mut ui = WallpaperPreviewUi::new();
    let err = ui
        .open_from_rgba(0, 10, false, PathBuf::from("a.png"), None, false)
        .unwrap_err();
    assert_eq!(err, "Wallpaper preview image has invalid dimensions.");
    assert!(!ui.is_visible());
    assert!(ui.selected_source_path().is_none());
}

#[test]
fn opening_without_blur_starts_blur_job() {
    let mut ui = WallpaperPreviewUi::new();
    let opened = ui
        .open_from_rgba(64, 48, false, PathBuf::from("wall.png"), Some(3), true)
        .unwrap();
    assert!(opened.start_blur_job);
    assert!(!opened.show_blurred);
    assert!(ui.is_visible());
    assert!(ui.blur_enabled());
    assert_eq!(ui.editing_wallpaper_id(), Some(3));
    assert_eq!(ui.selected_source_path(), Some(&PathBuf::from("wall.png")));
    assert!(ui.needs_continuous_redraw());
}

#[test]
fn apply_waits_while_blur_is_computed() {
    let mut ui = opened(false, true);
    let apply = hit(false, false, true, false);
    assert_eq!(ui.handle_mouse_down(apply), Some(UiAction::Consume));
    let follow = ui.finish_blur_job(BlurJobOutcome::Ready);
    assert!(follow.refresh);
    assert!(follow.transition_to_blurred);
    assert_eq!(ui.handle_mouse_down(apply), Some(UiAction::WallpaperPreviewApply));
    assert!(!ui.needs_continuous_redraw());
}

#[test]
fn loading_source_consumes_toggle_and_apply() {
    let mut ui = WallpaperPreviewUi::new();
    ui.open_loading(Some(PathBuf::from("x.jpg")), None);
    assert_eq!(ui.handle_mouse_down(hit(true, false, false, false)), Some(UiAction::Consume));
    assert_eq!(ui.handle_mouse_down(hit(false, false, true, false)), Some(UiAction::Consume));
    assert_eq!(ui.handle_mouse_down(hit(false, false, false, true)), Some(UiAction::WallpaperPreviewCancel));
    assert_eq!(ui.toggle_blur(), BlurToggle::Ignored);
}

#[test]
fn presses_go_to_first_control_hit() {
    assert_eq!(press_target(hit(true, true, false, false)), Some(PreviewTarget::Toggle));
    assert_eq!(press_target(hit(false, true, true, false)), Some(PreviewTarget::Dim));
    assert_eq!(press_target(hit(false, false, false, false)), None);
    let mut ui = opened(true, false);
    assert_eq!(ui.handle_mouse_down(hit(true, false, false, false)), Some(UiAction::WallpaperPreviewToggleBlur));
    assert_eq!(ui.handle_mouse_down(hit(false, false, false, false)), Some(UiAction::Consume));
}

#[test]
fn slider_drag_runs_from_press_to_release() {
    let mut ui = opened(true, false);
    assert!(!ui.handle_cursor_moved());
    assert_eq!(ui.handle_mouse_down(hit(false, true, false, false)), Some(UiAction::Consume));
    assert!(ui.handle_cursor_moved());
    assert!(ui.handle_mouse_up());
    assert!(!ui.handle_mouse_up());
    assert!(!ui.handle_cursor_moved());
}

#[test]
fn toggling_blur_twice_restores_choice() {
    let mut ui = opened(true, false);
    assert_eq!(ui.toggle_blur(), BlurToggle::Transition { to_blurred: true });
    assert!(ui.blur_enabled());
    assert_eq!(ui.toggle_blur(), BlurToggle::Transition { to_blurred: false });
    assert!(!ui.blur_enabled());
}

#[test]
fn toggling_blur_on_without_copy_starts_job_once() {
    let mut ui = opened(false, false);
    assert_eq!(ui.finish_blur_job(BlurJobOutcome::Failed).refresh, false);
    assert!(!ui.blur_loading);
    assert_eq!(ui.toggle_blur(), BlurToggle::StartBlurJob);
    assert!(ui.blur_loading);
    assert_eq!(ui.toggle_blur(), BlurToggle::Transition { to_blurred: false });
    assert_eq!(ui.toggle_blur(), BlurToggle::Redraw);
    assert_eq!(ui.finish_blur_job(BlurJobOutcome::Pending).refresh, false);
    assert!(ui.blur_loading);
}

#[test]
fn cancel_hides_and_forgets_source() {
    let mut ui = opened(true, true);
    ui.cancel();
    assert!(!ui.is_visible());
    assert_eq!(ui.editing_wallpaper_id(), None);
    assert!(ui.selected_source_path().is_none());
    assert_eq!(ui.handle_mouse_down(hit(false, false, true, false)), None);
    assert!(!ui.needs_continuous_redraw());
}

#[test]
fn visuals_follow_blur_state() {
    let ui = opened(false, true);
    let v = ui.visuals();
    assert_eq!(v.toggle_label, "Blur wallpaper: Loading...");
    assert_eq!(v.apply_bg, [86, 86, 86, 210]);
    let ui = opened(true, true);
    assert_eq!(ui.visuals().toggle_label, "Blur wallpaper: ON");
    let ui = opened(true, false);
    assert_eq!(ui.visuals().toggle_label, "Blur wallpaper: OFF");
    assert_eq!(ui.visuals().toggle_bg, [66, 66, 66, 210]);
}

#[test]
fn layout_is_redone_only_for_new_surface_sizes() {
    let mut ui = opened(true, false);
    assert!(ui.layout_update(SurfaceSize::new(800, 600)));
    assert!(!ui.layout_update(SurfaceSize::new(800, 600)));
    assert!(!ui.layout_update(SurfaceSize::new(0, 600)));
    assert!(ui.layout_update(SurfaceSize::new(801, 600)));
    assert_eq!(dialog_origin_half_px(SurfaceSize::new(801, 600), 560, 460), (241, 140));
    assert_eq!(dialog_origin_half_px(SurfaceSize::new(500, 400), 560, 460), (16, 16));
    assert!(wallpaper_layout_due(true, SurfaceSize::new(10, 10), 4, 4, 0, 0));
    assert!(!wallpaper_layout_due(true, SurfaceSize::new(10, 10), 4, 4, 10, 10));
    assert!(!wallpaper_layout_due(false, SurfaceSize::new(10, 10), 4, 4, 0, 0));
}

#[test]
fn dim_track_sits_between_paddings() {
    assert_eq!(dim_track_rect(250, 36), Some([130, 16, 104, 4]));
    assert_eq!(dim_track_rect(140, 36), None);
}

fn px(buf: &[u8], width: usize, x: usize, y: usize) -> [u8; 4] {
    let i = (y * width + x) * 4;
    [buf[i], buf[i + 1], buf[i + 2], buf[i + 3]]
}

#[test]
fn dialog_base_paints_buttons_over_background() {
    let dim = compose_dim_base(52);
    assert_eq!(dim.len(), 250 * 36 * 4);
    assert_eq!(px(&dim, 250, 0, 0), [66, 66, 66, 210]);
    assert_eq!(px(&dim, 250, 130, 16), [255, 255, 255, 70]);
    assert_eq!(px(&dim, 250, 182, 17), [255, 255, 255, 26]);

    let toggle = [1, 2, 3, 4];
    let apply = [5, 6, 7, 8];
    let pixels = compose_dialog_base(toggle, apply, &dim);
    assert_eq!(pixels.len(), 560 * 460 * 4);
    assert_eq!(px(&pixels, 560, 5, 0), [255, 255, 255, 28]);
    assert_eq!(px(&pixels, 560, 5, 459), [255, 255, 255, 24]);
    assert_eq!(px(&pixels, 560, 5, 5), [18, 18, 18, 236]);
    assert_eq!(px(&pixels, 560, 25, 60), [30, 30, 30, 255]);
    assert_eq!(px(&pixels, 560, 25, 360), toggle);
    assert_eq!(px(&pixels, 560, 290, 356), [66, 66, 66, 210]);
    assert_eq!(px(&pixels, 560, 420, 372), [255, 255, 255, 70]);
    assert_eq!(px(&pixels, 560, 335, 410), [70, 70, 70, 220]);
    assert_eq!(px(&pixels, 560, 445, 410), apply);
}

#[test]
fn dialog_base_ignores_wrongly_sized_slider() {
    let pixels = compose_dialog_base([0; 4], [0; 4], &[9, 9, 9]);
    assert_eq!(px(&pixels, 560, 300, 360), [18, 18, 18, 236]);
}
