use nenarwia::font::{parse_font, parse_fonts};

#[test]
fn bytes_that_are_no_font_do_not_parse() {
    assert!(parse_font(Vec::new()).is_none());
    assert!(parse_font(vec![1, 2, 3]).is_none());
    assert!(parse_font(vec![0u8; 64]).is_none());
}

#[test]
fn files_that_are_no_font_are_skipped() {
    assert!(parse_fonts(Vec::new()).is_empty());
    assert!(parse_fonts(vec![Vec::new(), vec![0, 1, 0, 0], b"not a font".to_vec()]).is_empty());
}
