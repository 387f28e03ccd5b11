//! Which font draws a character, and where fonts are looked for on disk.
use vstd::prelude::*;

verus! {

/// A loaded font.
#[verifier::external_type_specification]
#[verifier::external_body]
pub struct ExFontArc(ab_glyph::FontArc);

/// The glyph `Font::glyph_id` of ab_glyph gives for `ch` in `font`, as its
/// index (0: the font has no glyph for `ch`); the font's tables decide it.
pub uninterp spec fn glyph_id_of(font: ab_glyph::FontArc, ch: char) -> u16;

/// `Font::glyph_id` of ab_glyph, as the glyph's index, named by
/// `glyph_id_of`: 0 where the font has no glyph for `ch`.
#[verifier::external_body]
fn glyph_index(font: &ab_glyph::FontArc, ch: char) -> (r: u16)
    ensures
        r == glyph_id_of(*font, ch),
{
    ab_glyph::Font::glyph_id(font, ch).0
}

/// The font `FontArc::try_from_vec` of ab_glyph reads from `bytes`, told by
/// the glyph it gives `ch` (as `glyph_id_of` does for a loaded font): `None`
/// where the bytes are no font (TrueType, OpenType, or a collection whose
/// first face parses). The bytes alone decide it.
pub uninterp spec fn font_glyph_in_bytes(bytes: Seq<u8>, ch: char) -> Option<u16>;

/// Whether `bytes` hold a font.
pub open spec fn font_parses(bytes: Seq<u8>) -> bool {
    exists|c: char| #[trigger] font_glyph_in_bytes(bytes, c) is Some
}

/// `FontArc::try_from_vec` of ab_glyph: a font where the bytes are one, and
/// that font gives each character the glyph `font_glyph_in_bytes` names;
/// nothing where they are not.
#[verifier::external_body]
fn font_from_bytes(bytes: Vec<u8>) -> (r: Option<ab_glyph::FontArc>)
    ensures
        r is None ==> forall|c: char| #[trigger] font_glyph_in_bytes(bytes@, c) is None,
        r matches Some(f) ==> forall|c: char|
            #[trigger] font_glyph_in_bytes(bytes@, c) == Some(glyph_id_of(f, c)),
{
    ab_glyph::FontArc::try_from_vec(bytes).ok()
}

/// Whether `font` is the font held by `bytes`: it gives every character the
/// glyph that font does.
pub open spec fn is_font_of(font: ab_glyph::FontArc, bytes: Seq<u8>) -> bool {
    forall|c: char| #[trigger] font_glyph_in_bytes(bytes, c) == Some(glyph_id_of(font, c))
}

/// Parses font file contents: the font they hold, `None` where they are no
/// font.
pub fn parse_font(bytes: Vec<u8>) -> (r: Option<ab_glyph::FontArc>)
    ensures
        r is Some <==> font_parses(bytes@),
        r matches Some(f) ==> is_font_of(f, bytes@),
{
    let r = font_from_bytes(bytes);
    proof {
        if r is Some {
            assert(font_glyph_in_bytes(bytes@, 'a') is Some);
        }
    }
    r
}

/// The files among `files` that hold a font, in their order.
pub open spec fn font_files(files: Seq<Vec<u8>>) -> Seq<Vec<u8>>
    decreases files.len(),
{
    if files.len() == 0 {
        Seq::empty()
    } else {
        (if font_parses(files[0]@) { seq![files[0]] } else { Seq::empty() }) + font_files(
            files.drop_first(),
        )
    }
}

/// Parses each of `files` in order and keeps the fonts that load, skipping
/// the rest: font `i` of the result is the one held by the `i`-th file that
/// holds a font, so the files' order is kept.
pub fn parse_fonts(files: Vec<Vec<u8>>) -> (r: Vec<ab_glyph::FontArc>)
    ensures
        r@.len() == font_files(files@).len(),
        forall|i: int| 0 <= i < r@.len() ==> is_font_of(#[trigger] r@[i], font_files(files@)[i]@),
{
    let mut rest = files;
    let mut fonts: Vec<ab_glyph::FontArc> = Vec::new();
    let ghost mut done: Seq<Vec<u8>> = Seq::empty();
    while rest.len() > 0
        invariant
            font_files(files@) == done + font_files(rest@),
            fonts@.len() == done.len(),
            forall|i: int| 0 <= i < done.len() ==> is_font_of(#[trigger] fonts@[i], done[i]@),
        decreases rest@.len(),
    {
        let ghost before = rest@;
        let bytes = rest.remove(0);
        assert(rest@ =~= before.drop_first());
        let ghost b = bytes;
        match parse_font(bytes) {
            Some(font) => {
                fonts.push(font);
                proof {
                    assert(done + font_files(before) =~= done.push(b) + font_files(rest@));
                    done = done.push(b);
                }
            },
            None => {
                assert(done + font_files(before) =~= done + font_files(rest@));
            },
        }
    }
    assert(done + font_files(rest@) =~= done);
    fonts
}

/// The font a character is drawn with: the primary font where it has a
/// glyph, else the first fallback font that has one, else the primary
/// font's "missing glyph". Returns the font, the glyph index and the font's
/// position (0 for the primary font, `i + 1` for fallback `i`).
pub fn font_for_char<'a>(
    primary: &'a ab_glyph::FontArc,
    fallbacks: Option<&'a Vec<ab_glyph::FontArc>>,
    ch: char,
) -> (r: (&'a ab_glyph::FontArc, u16, usize))
    ensures
        r.1 == glyph_id_of(*r.0, ch),
        r.2 == 0 ==> r.0 == primary,
        r.2 > 0 ==> (fallbacks matches Some(f) && r.2 <= f@.len() && r.0 == &f@[r.2 - 1] && r.1 != 0),
        fallbacks is None ==> r.2 == 0,
        glyph_id_of(*primary, ch) != 0 ==> r.2 == 0,
        r.2 > 0 ==> glyph_id_of(*primary, ch) == 0 && (fallbacks matches Some(f) && forall|j: int|
            0 <= j < r.2 - 1 ==> glyph_id_of(#[trigger] f@[j], ch) == 0),
        (r.2 == 0 && r.1 == 0) ==> (fallbacks matches Some(f) ==> forall|j: int|
            0 <= j < f@.len() ==> glyph_id_of(#[trigger] f@[j], ch) == 0),
{
    let primary_id = glyph_index(primary, ch);
    if primary_id != 0 {
        return (primary, primary_id, 0);
    }
    let fonts = match fallbacks {
        Some(f) => f,
        None => {
            return (primary, primary_id, 0);
        },
    };
    let mut i: usize = 0;
    while i < fonts.len()
        invariant
            i <= fonts@.len(),
            fallbacks == Some(fonts),
            primary_id == glyph_id_of(*primary, ch),
            primary_id == 0,
            forall|j: int| 0 <= j < i ==> glyph_id_of(#[trigger] fonts@[j], ch) == 0,
        decreases fonts@.len() - i,
    {
        let id = glyph_index(&fonts[i], ch);
        if id != 0 {
            return (&fonts[i], id, i + 1);
        }
        i = i + 1;
    }
    (primary, primary_id, 0)
}

/// An operating system the viewer knows font locations for.
#[derive(Clone, Copy, Debug, PartialEq, Eq, Structural)]
pub enum TargetOs {
    Windows,
    Linux,
    MacOs,
    Other,
}

/// The views of a list of paths.
pub open spec fn path_views(paths: Seq<&'static str>) -> Seq<Seq<char>> {
    paths.map_values(|p: &'static str| p@)
}

/// Fonts tried, in order, when the bundled UI font cannot be loaded.
pub open spec fn ui_font_paths(os: TargetOs) -> Seq<Seq<char>> {
    match os {
        TargetOs::Windows => seq![
            "C:\\Windows\\Fonts\\arialbd.ttf"@,
            "C:\\Windows\\Fonts\\arial.ttf"@,
            "C:\\Windows\\Fonts\\segoeui.ttf"@,
        ],
        TargetOs::Linux => seq![
            "/usr/share/fonts/truetype/inter/Inter-SemiBold.ttf"@,
            "/usr/share/fonts/truetype/inter/Inter-Medium.ttf"@,
            "/usr/share/fonts/truetype/inter/Inter-Regular.ttf"@,
            "/usr/share/fonts/truetype/msttcorefonts/Arial.ttf"@,
            "/usr/share/fonts/truetype/msttcorefonts/arial.ttf"@,
        ],
        TargetOs::MacOs => seq![
            "/Library/Fonts/Inter-SemiBold.ttf"@,
            "/Library/Fonts/Inter-Medium.ttf"@,
            "/Library/Fonts/Inter-Regular.ttf"@,
            "/System/Library/Fonts/Supplemental/Arial.ttf"@,
        ],
        TargetOs::Other => Seq::empty(),
    }
}

/// Fonts searched, in order, for characters the UI font lacks (symbols,
/// emoji).
pub open spec fn text_fallback_font_paths(os: TargetOs) -> Seq<Seq<char>> {
    match os {
        TargetOs::Windows => seq![
            "C:\\Windows\\Fonts\\seguisym.ttf"@,
            "C:\\Windows\\Fonts\\seguiemj.ttf"@,
            "C:\\Windows\\Fonts\\SegoeIcons.ttf"@,
            "C:\\Windows\\Fonts\\segoeui.ttf"@,
            "C:\\Windows\\Fonts\\arialuni.ttf"@,
        ],
        TargetOs::Linux => seq![
            "/usr/share/fonts/truetype/noto/NotoColorEmoji.ttf"@,
            "/usr/share/fonts/truetype/noto/NotoEmoji-Regular.ttf"@,
            "/usr/share/fonts/truetype/noto/NotoSansSymbols2-Regular.ttf"@,
            "/usr/share/fonts/truetype/dejavu/DejaVuSans.ttf"@,
        ],
        TargetOs::MacOs => seq![
            "/System/Library/Fonts/Apple Color Emoji.ttc"@,
            "/System/Library/Fonts/Supplemental/Apple Symbols.ttf"@,
            "/System/Library/Fonts/SFNS.ttf"@,
        ],
        TargetOs::Other => Seq::empty(),
    }
}

/// The fonts to try when the bundled UI font cannot be loaded.
pub fn fallback_font_candidates(os: TargetOs) -> (r: Vec<&'static str>)
    ensures
        path_views(r@) == ui_font_paths(os),
{
    let r = match os {
        TargetOs::Windows => vec![
            "C:\\Windows\\Fonts\\arialbd.ttf",
            "C:\\Windows\\Fonts\\arial.ttf",
            "C:\\Windows\\Fonts\\segoeui.ttf",
        ],
        TargetOs::Linux => vec![
            "/usr/share/fonts/truetype/inter/Inter-SemiBold.ttf",
            "/usr/share/fonts/truetype/inter/Inter-Medium.ttf",
            "/usr/share/fonts/truetype/inter/Inter-Regular.ttf",
            "/usr/share/fonts/truetype/msttcorefonts/Arial.ttf",
            "/usr/share/fonts/truetype/msttcorefonts/arial.ttf",
        ],
        TargetOs::MacOs => vec![
            "/Library/Fonts/Inter-SemiBold.ttf",
            "/Library/Fonts/Inter-Medium.ttf",
            "/Library/Fonts/Inter-Regular.ttf",
            "/System/Library/Fonts/Supplemental/Arial.ttf",
        ],
        TargetOs::Other => Vec::new(),
    };
    assert(path_views(r@) =~= ui_font_paths(os));
    r
}

/// The fonts to search for characters the UI font lacks.
pub fn text_fallback_font_candidates(os: TargetOs) -> (r: Vec<&'static str>)
    ensures
        path_views(r@) == text_fallback_font_paths(os),
{
    let r = match os {
        TargetOs::Windows => vec![
            "C:\\Windows\\Fonts\\seguisym.ttf",
            "C:\\Windows\\Fonts\\seguiemj.ttf",
            "C:\\Windows\\Fonts\\SegoeIcons.ttf",
            "C:\\Windows\\Fonts\\segoeui.ttf",
            "C:\\Windows\\Fonts\\arialuni.ttf",
        ],
        TargetOs::Linux => vec![
            "/usr/share/fonts/truetype/noto/NotoColorEmoji.ttf",
            "/usr/share/fonts/truetype/noto/NotoEmoji-Regular.ttf",
            "/usr/share/fonts/truetype/noto/NotoSansSymbols2-Regular.ttf",
            "/usr/share/fonts/truetype/dejavu/DejaVuSans.ttf",
        ],
        TargetOs::MacOs => vec![
            "/System/Library/Fonts/Apple Color Emoji.ttc",
            "/System/Library/Fonts/Supplemental/Apple Symbols.ttf",
            "/System/Library/Fonts/SFNS.ttf",
        ],
        TargetOs::Other => Vec::new(),
    };
    assert(path_views(r@) =~= text_fallback_font_paths(os));
    r
}

} // verus!
