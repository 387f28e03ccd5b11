use nenarwia::notice::geometry::{layout_max_width, notice_box, notice_origin, notice_wrap};
use nenarwia::notice::kind::{kind_line, MissingCodecKind};
use nenarwia::notice::state::{CodecNoticeUi, NoticeHits, NoticeStep};
use nenarwia::notice::text::build_notice_text;
use nenarwia::surface::SurfaceSize;
use nenarwia::tokens::{UI_MARGIN_PX, UI_MAX_WIDTH_PX};

#[test]
fn layout_max_width_honors_margin_floor_and_global_cap() {
    assert_eq!(layout_max_width(SurfaceSize::new(50, 100)), 120);
    assert_eq!(
        layout_max_width(SurfaceSize::new(
            UI_MAX_WIDTH_PX + UI_MARGIN_PX * 2 + 100,
            100
        )),
        UI_MAX_WIDTH_PX
    );
}

#[test]
fn layout_max_width_leaves_margins_in_between() {
    assert_eq!(layout_max_width(SurfaceSize::new(332, 100)), 300);
    assert_eq!(layout_max_width(SurfaceSize::new(0, 0)), 120);
}

#[test]
fn notice_text_lists_each_missing_codec() {
    let text = build_notice_text(&[MissingCodecKind::Avif, MissingCodecKind::Generic]);
    assert_eq!(
        text,
        "Missing Windows image codecs were detected.\n\
         Some files cannot be decoded.\n\n\
         Install:\n\
         - AVIF: AV1 Video Extension\n\
         - Other formats: matching WIC codec\n\
         Restart the application after codec installation.\n\
         If codecs are already installed, the file may be damaged."
    );
}

#[test]
fn kind_lines_name_format_and_hint() {
    assert_eq!(kind_line(MissingCodecKind::Heif).0, "HEIF/HEIC");
    assert_eq!(kind_line(MissingCodecKind::Raw), ("RAW", "Raw Image Extension"));
    assert_eq!(kind_line(MissingCodecKind::JpegXr).1, "JPEG XR codec");
}

#[test]
fn notice_box_keeps_close_button_inside() {
    let wrap = notice_wrap(260, 120);
    assert_eq!(wrap.max_width, 260);
    assert_eq!(wrap.wrap_width, 260 - 56);
    assert_eq!(wrap.min_box_width, 240);
    let b = notice_box(&wrap, 150, 17, 9);
    assert_eq!(b.width, 206.max(240));
    assert_eq!(b.height, 28 + 17 * 9);
    assert_eq!(b.close_rect, [b.width - 32, 14, 18, 18]);
    assert!(b.close_rect[0] + b.close_rect[2] <= b.width);
    assert!(b.close_rect[1] + b.close_rect[3] <= b.height);
    let wide = notice_box(&wrap, 1000, 17, 0);
    assert_eq!(wide.width, 260);
    assert_eq!(wide.height, 28 + 17);
}

#[test]
fn notice_sits_bottom_left_within_margins() {
    assert_eq!(notice_origin(SurfaceSize::new(800, 600), 300, 100), Some((16, 484)));
    // too tall: kept below the top margin
    assert_eq!(notice_origin(SurfaceSize::new(800, 100), 300, 200), Some((16, 16)));
    // too wide: kept a margin from the left
    assert_eq!(notice_origin(SurfaceSize::new(200, 600), 300, 100), Some((16, 484)));
    assert_eq!(notice_origin(SurfaceSize::new(0, 600), 300, 100), None);
}

fn built(ui: &mut CodecNoticeUi, surface: SurfaceSize, step: NoticeStep) {
    match step {
        NoticeStep::Rebuild { layout_width } => {
            let wrap = notice_wrap(layout_width, 120);
            let b = notice_box(&wrap, 180, 17, 8);
            ui.finish_rebuild(surface, layout_width, Some(b));
        }
        _ => {}
    }
}

#[test]
fn dismissed_notice_stays_hidden_until_new_kind_appears() {
    let surface = SurfaceSize::new(800, 600);
    let mut ui = CodecNoticeUi::new();
    let step = ui.update(surface, vec![MissingCodecKind::Heif]);
    assert_eq!(step, NoticeStep::Rebuild { layout_width: 520 });
    built(&mut ui, surface, step);
    assert!(ui.is_visible());
    assert!(ui.box_rect().is_some());

    assert!(ui.handle_click(NoticeHits { in_box: true, in_close: true }));
    assert!(!ui.is_visible());

    assert_eq!(ui.update(surface, vec![MissingCodecKind::Heif]), NoticeStep::Hidden);
    assert_eq!(ui.update(surface, vec![MissingCodecKind::Heif, MissingCodecKind::Heif]), NoticeStep::Hidden);
    assert!(!ui.is_visible());

    let step = ui.update(surface, vec![MissingCodecKind::Heif, MissingCodecKind::Avif]);
    assert_eq!(step, NoticeStep::Rebuild { layout_width: 520 });
    assert!(ui.is_visible());
}

#[test]
fn notice_hides_without_missing_kinds_and_places_unchanged_box() {
    let surface = SurfaceSize::new(800, 600);
    let mut ui = CodecNoticeUi::new();
    let step = ui.update(surface, vec![MissingCodecKind::Raw]);
    built(&mut ui, surface, step);
    assert_eq!(ui.update(surface, vec![MissingCodecKind::Raw]), NoticeStep::Placed);
    assert_eq!(ui.update(surface, Vec::new()), NoticeStep::Hidden);
    assert!(!ui.is_visible());
    // not dismissed: the same kind shows it again without rebuilding
    assert_eq!(ui.update(surface, vec![MissingCodecKind::Raw]), NoticeStep::Placed);
    assert!(ui.is_visible());
    // a different width rebuilds
    assert_eq!(
        ui.update(SurfaceSize::new(300, 600), vec![MissingCodecKind::Raw]),
        NoticeStep::Rebuild { layout_width: 268 }
    );
}

#[test]
fn clicks_outside_or_on_hidden_notice_pass_through() {
    let surface = SurfaceSize::new(800, 600);
    let mut ui = CodecNoticeUi::new();
    assert!(!ui.handle_click(NoticeHits { in_box: true, in_close: true }));
    let step = ui.update(surface, vec![MissingCodecKind::Jpeg2000]);
    built(&mut ui, surface, step);
    assert!(!ui.handle_click(NoticeHits { in_box: false, in_close: false }));
    assert!(ui.handle_click(NoticeHits { in_box: true, in_close: false }));
    assert!(ui.is_visible());
}

#[test]
fn failed_build_hides_notice() {
    let surface = SurfaceSize::new(800, 600);
    let mut ui = CodecNoticeUi::new();
    let step = ui.update(surface, vec![MissingCodecKind::Generic]);
    if let NoticeStep::Rebuild { layout_width } = step {
        ui.finish_rebuild(surface, layout_width, None);
    }
    assert!(!ui.is_visible());
}
