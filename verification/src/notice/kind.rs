//! The kinds of image codec that can be missing, with their install hints.
use vstd::prelude::*;

verus! {

/// An image format whose system codec was found missing.
#[derive(Clone, Copy, Debug, PartialEq, Eq, Hash, Structural)]
pub enum MissingCodecKind {
    Heif,
    Avif,
    Raw,
    Jpeg2000,
    JpegXr,
    Generic,
}

/// The format name shown for a kind.
pub open spec fn kind_label(kind: MissingCodecKind) -> Seq<char> {
    match kind {
        MissingCodecKind::Heif => "HEIF/HEIC"@,
        MissingCodecKind::Avif => "AVIF"@,
        MissingCodecKind::Raw => "RAW"@,
        MissingCodecKind::Jpeg2000 => "JPEG 2000"@,
        MissingCodecKind::JpegXr => "JPEG XR"@,
        MissingCodecKind::Generic => "Other formats"@,
    }
}

/// What to install for a kind.
pub open spec fn kind_hint(kind: MissingCodecKind) -> Seq<char> {
    match kind {
        MissingCodecKind::Heif => "HEIF Image Extensions (and HEVC Video Extensions if required)"@,
        MissingCodecKind::Avif => "AV1 Video Extension"@,
        MissingCodecKind::Raw => "Raw Image Extension"@,
        MissingCodecKind::Jpeg2000 => "JPEG 2000 codec"@,
        MissingCodecKind::JpegXr => "JPEG XR codec"@,
        MissingCodecKind::Generic => "matching WIC codec"@,
    }
}

/// The format name and the install hint of a kind.
pub fn kind_line(kind: MissingCodecKind) -> (r: (&'static str, &'static str))
    ensures
        r.0@ == kind_label(kind),
        r.1@ == kind_hint(kind),
{
    match kind {
        MissingCodecKind::Heif => (
            "HEIF/HEIC",
            "HEIF Image Extensions (and HEVC Video Extensions if required)",
        ),
        MissingCodecKind::Avif => ("AVIF", "AV1 Video Extension"),
        MissingCodecKind::Raw => ("RAW", "Raw Image Extension"),
        MissingCodecKind::Jpeg2000 => ("JPEG 2000", "JPEG 2000 codec"),
        MissingCodecKind::JpegXr => ("JPEG XR", "JPEG XR codec"),
        MissingCodecKind::Generic => ("Other formats", "matching WIC codec"),
    }
}

} // verus!
