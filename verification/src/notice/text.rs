//! The text of the missing-codec notice.
use vstd::prelude::*;
use vstd::string::*;

use super::kind::{kind_hint, kind_label, kind_line, MissingCodecKind};

verus! {

/// The lines above the list of missing codecs.
pub open spec fn notice_header() -> Seq<char> {
    "Missing Windows image codecs were detected.\n"@ + "Some files cannot be decoded.\n\n"@
        + "Install:\n"@
}

/// The list line of one missing codec: `- LABEL: HINT` and a line break.
pub open spec fn kind_entry(kind: MissingCodecKind) -> Seq<char> {
    "- "@ + kind_label(kind) + ": "@ + kind_hint(kind) + "\n"@
}

/// The list lines of several missing codecs, in order.
pub open spec fn kind_entries(kinds: Seq<MissingCodecKind>) -> Seq<char>
    decreases kinds.len(),
{
    if kinds.len() == 0 {
        Seq::empty()
    } else {
        kind_entries(kinds.drop_last()) + kind_entry(kinds.last())
    }
}

/// The lines below the list.
pub open spec fn notice_footer() -> Seq<char> {
    "Restart the application after codec installation.\n"@
        + "If codecs are already installed, the file may be damaged."@
}

/// The whole notice for a list of missing codecs.
pub open spec fn notice_text(kinds: Seq<MissingCodecKind>) -> Seq<char> {
    notice_header() + kind_entries(kinds) + notice_footer()
}

/// The notice text: what is missing, one line per codec with what to
/// install, and what to do afterwards.
pub fn build_notice_text(kinds: &[MissingCodecKind]) -> (r: String)
    ensures
        r@ == notice_text(kinds@),
{
    let mut out = String::new();
    out.append("Missing Windows image codecs were detected.\n");
    out.append("Some files cannot be decoded.\n\n");
    out.append("Install:\n");
    let mut i: usize = 0;
    while i < kinds.len()
        invariant
            i <= kinds@.len(),
            out@ == notice_header() + kind_entries(kinds@.subrange(0, i as int)),
        decreases kinds@.len() - i,
    {
        let (label, hint) = kind_line(kinds[i]);
        let ghost before = out@;
        out.append("- ");
        out.append(label);
        out.append(": ");
        out.append(hint);
        out.append("\n");
        proof {
            let done = kinds@.subrange(0, i + 1);
            assert(done.drop_last() =~= kinds@.subrange(0, i as int));
            assert(done.last() == kinds@[i as int]);
            assert(out@ =~= before + kind_entry(kinds@[i as int]));
        }
        i = i + 1;
    }
    out.append("Restart the application after codec installation.\n");
    out.append("If codecs are already installed, the file may be damaged.");
    assert(kinds@.subrange(0, kinds@.len() as int) =~= kinds@);
    assert(out@ =~= notice_text(kinds@));
    out
}

} // verus!
