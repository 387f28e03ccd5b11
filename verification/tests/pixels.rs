use nenarwia::chrome::geometry::{circle_rect, compute_tab_close_rect, inset_rect, tab_title_rect};
use nenarwia::font::{fallback_font_candidates, text_fallback_font_candidates, TargetOs};
use nenarwia::pixels::{blit_rgba_region, cover_blit_target, fill_rect_region, rgba_buffer_fits};
use nenarwia::text::{push_decimal, push_digit};

#[test]
fn fill_paints_only_clipped_rect() {
    let mut pixels = vec![0u8; 4 * 3 * 4];
    fill_rect_region(&mut pixels, 4, 3, [2, 1, 10, 10], [9, 8, 7, 6]);
    for y in 0..3usize {
        for x in 0..4usize {
            let i = (y * 4 + x) * 4;
            let inside = x >= 2 && y >= 1;
            let expect = if inside { [9, 8, 7, 6] } else { [0, 0, 0, 0] };
            assert_eq!(&pixels[i..i + 4], &expect, "pixel ({x}, {y})");
        }
    }
    let before = pixels.clone();
    fill_rect_region(&mut pixels, 4, 3, [4, 0, 3, 3], [1, 1, 1, 1]);
    assert_eq!(pixels, before);
}

#[test]
fn blit_copies_top_left_of_source() {
    let mut dst = vec![0u8; 4 * 4 * 4];
    let src: Vec<u8> = (0..(3 * 2 * 4)).map(|v| v as u8 + 1).collect();
    blit_rgba_region(&mut dst, 4, 4, [2, 1, 5, 5], &src, 3, 2);
    // only two columns fit at x = 2
    assert_eq!(&dst[(1 * 4 + 2) * 4..(1 * 4 + 2) * 4 + 4], &src[0..4]);
    assert_eq!(&dst[(1 * 4 + 3) * 4..(1 * 4 + 3) * 4 + 4], &src[4..8]);
    assert_eq!(&dst[(2 * 4 + 2) * 4..(2 * 4 + 2) * 4 + 4], &src[12..16]);
    assert_eq!(&dst[0..4], &[0, 0, 0, 0]);
    assert_eq!(&dst[(3 * 4 + 2) * 4..(3 * 4 + 2) * 4 + 4], &[0, 0, 0, 0]);
}

#[test]
fn blit_ignores_short_or_empty_source() {
    let original = vec![7u8; 4 * 4 * 4];
    let mut dst = original.clone();
    blit_rgba_region(&mut dst, 4, 4, [0, 0, 4, 4], &[1, 2, 3], 4, 4);
    assert_eq!(dst, original);
    blit_rgba_region(&mut dst, 4, 4, [0, 0, 4, 4], &[1; 16], 0, 4);
    assert_eq!(dst, original);
}

#[test]
fn rgba_buffer_check_needs_all_pixels() {
    assert!(rgba_buffer_fits(2, 2, 16));
    assert!(rgba_buffer_fits(2, 2, 17));
    assert!(!rgba_buffer_fits(2, 2, 15));
    assert!(!rgba_buffer_fits(0, 2, 100));
    assert!(!rgba_buffer_fits(2, 0, 100));
}

#[test]
fn rect_helpers_clip_and_inset() {
    assert_eq!(inset_rect([10, 10, 20, 8], 2, 3), [12, 13, 16, 2]);
    assert_eq!(circle_rect(5, 5, 10, 12, 12), [0, 0, 12, 12]);
    assert_eq!(circle_rect(20, 20, 4, 100, 100), [16, 16, 8, 8]);
    let tab = [100, 6, 120, 28];
    let close = compute_tab_close_rect(tab);
    assert!(close[0] >= tab[0] && close[0] + close[2] <= tab[0] + tab[2]);
    let title = tab_title_rect(tab, Some(close));
    assert!(title[0] + title[2] <= close[0]);
}

#[test]
fn font_candidates_per_platform() {
    assert_eq!(
        fallback_font_candidates(TargetOs::Windows),
        vec!["C:\\Windows\\Fonts\\arialbd.ttf", "C:\\Windows\\Fonts\\arial.ttf", "C:\\Windows\\Fonts\\segoeui.ttf"]
    );
    assert_eq!(fallback_font_candidates(TargetOs::Linux).len(), 5);
    assert_eq!(fallback_font_candidates(TargetOs::MacOs)[3], "/System/Library/Fonts/Supplemental/Arial.ttf");
    assert!(fallback_font_candidates(TargetOs::Other).is_empty());
    assert_eq!(text_fallback_font_candidates(TargetOs::Linux)[0], "/usr/share/fonts/truetype/noto/NotoColorEmoji.ttf");
    assert_eq!(text_fallback_font_candidates(TargetOs::Windows).len(), 5);
    assert_eq!(text_fallback_font_candidates(TargetOs::MacOs).len(), 3);
    assert!(text_fallback_font_candidates(TargetOs::Other).is_empty());
}

#[test]
fn decimal_digits_match_display() {
    for n in [0u64, 7, 10, 99, 100, 12345, u64::MAX] {
        let mut s = String::from("x");
        push_decimal(&mut s, n);
        assert_eq!(s, format!("x{n}"));
    }
    let mut s = String::new();
    push_digit(&mut s, 4);
    assert_eq!(s, "4");
}

#[test]
fn blit_cover_bilinear_ignores_invalid_source_buffer_and_zero_sized_inputs() {
    // the guard of the scaled copy refuses a source buffer too short for its
    // size and a source with no pixels, so nothing is drawn for either
    assert_eq!(cover_blit_target(4, 4, [0, 0, 4, 4], [1u8, 2, 3].len(), 4, 4), None);
    assert_eq!(cover_blit_target(4, 4, [0, 0, 4, 4], [1u8; 16].len(), 0, 4), None);
}

#[test]
fn cover_blit_skips_invalid_source_and_empty_sizes() {
    assert_eq!(cover_blit_target(4, 4, [0, 0, 4, 4], 3, 4, 4), None);
    assert_eq!(cover_blit_target(4, 4, [0, 0, 4, 4], 16, 0, 4), None);
    assert_eq!(cover_blit_target(4, 4, [0, 0, 0, 4], 64, 4, 4), None);
    assert_eq!(cover_blit_target(4, 4, [4, 0, 4, 4], 64, 4, 4), None);
    assert_eq!(cover_blit_target(4, 4, [1, 2, 10, 10], 64, 4, 4), Some((1, 2, 4, 4)));
}
