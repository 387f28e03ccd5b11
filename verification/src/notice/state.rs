//! When the missing-codec notice shows, and what a click on it does.
use vstd::prelude::*;

use super::geometry::{layout_max_width, layout_max_width_spec, notice_origin, notice_origin_spec, NoticeBox};
use super::kind::MissingCodecKind;
use crate::surface::SurfaceSize;

verus! {

/// The state of the notice about missing codecs.
pub struct CodecNoticeUi {
    pub visible: bool,
    /// The user closed the notice for the kinds in `dismissed_kinds`.
    pub dismissed: bool,
    pub dismissed_kinds: Vec<MissingCodecKind>,
    /// The kinds the current notice text was built for.
    pub active_kinds: Vec<MissingCodecKind>,
    /// The layout width the current notice text was built for.
    pub last_layout_width: u32,
    /// The close button, relative to the box.
    pub close_rect_local: [u32; 4],
    /// Size of the built notice box.
    pub tex_width: u32,
    pub tex_height: u32,
    /// Top-left corner of the box on the surface, once placed.
    pub box_origin: Option<(u32, u32)>,
}

/// Where a click falls on the notice (edges included).
#[derive(Clone, Copy, Debug, PartialEq, Eq, Structural)]
pub struct NoticeHits {
    pub in_box: bool,
    pub in_close: bool,
}

/// What the caller has to do after an update.
#[derive(Clone, Copy, Debug, PartialEq, Eq, Structural)]
pub enum NoticeStep {
    /// Nothing to draw.
    Hidden,
    /// Build the notice box for the active kinds at this width, then hand it
    /// to `finish_rebuild`.
    Rebuild { layout_width: u32 },
    /// The box is unchanged and placed; draw it.
    Placed,
}

/// Every kind of `kinds` occurs in `by`.
pub open spec fn kinds_covered(kinds: Seq<MissingCodecKind>, by: Seq<MissingCodecKind>) -> bool {
    forall|i: int| 0 <= i < kinds.len() ==> by.contains(#[trigger] kinds[i])
}

/// `a` and `b` hold the same kinds, counted once each.
pub open spec fn same_members(a: Seq<MissingCodecKind>, b: Seq<MissingCodecKind>) -> bool {
    forall|k: MissingCodecKind| a.contains(k) <==> b.contains(k)
}

impl CodecNoticeUi {
    /// Each dismissed kind is recorded once; a dismissed notice is hidden;
    /// a shown notice has kinds to show.
    pub open spec fn wf(self) -> bool {
        &&& self.dismissed_kinds@.no_duplicates()
        &&& self.dismissed ==> !self.visible
        &&& self.visible ==> self.active_kinds@.len() > 0
    }
}

/// Only the visibility may differ between `a` and `b`.
pub open spec fn same_but_visibility(a: CodecNoticeUi, b: CodecNoticeUi) -> bool {
    &&& b.dismissed == a.dismissed
    &&& b.dismissed_kinds@ == a.dismissed_kinds@
    &&& b.active_kinds@ == a.active_kinds@
    &&& b.last_layout_width == a.last_layout_width
    &&& b.close_rect_local == a.close_rect_local
    &&& b.tex_width == a.tex_width
    &&& b.tex_height == a.tex_height
    &&& b.box_origin == a.box_origin
}

/// The box position after placing a `s.tex_width` by `s.tex_height` box on
/// `surface`; an empty surface leaves it where it was.
pub open spec fn placed_origin(s: CodecNoticeUi, surface: SurfaceSize) -> Option<(u32, u32)> {
    if surface.width == 0 || surface.height == 0 {
        s.box_origin
    } else {
        let p = notice_origin_spec(surface, s.tex_width as int, s.tex_height as int);
        Some((p.0 as u32, p.1 as u32))
    }
}

/// What `update` does, from the state `old` to `new`, for the kinds
/// currently missing on a surface of `surface` size.
pub open spec fn update_post(
    old: CodecNoticeUi,
    new: CodecNoticeUi,
    surface: SurfaceSize,
    kinds: Seq<MissingCodecKind>,
    step: NoticeStep,
) -> bool {
    let lw = layout_max_width_spec(surface.width as int);
    if kinds.len() == 0 || (old.dismissed && kinds_covered(kinds, old.dismissed_kinds@)) {
        &&& step == NoticeStep::Hidden
        &&& !new.visible
        &&& same_but_visibility(old, new)
    } else {
        &&& new.visible
        &&& !new.dismissed
        &&& new.dismissed_kinds@ == old.dismissed_kinds@
        &&& new.active_kinds@ == kinds
        &&& new.close_rect_local == old.close_rect_local
        &&& new.tex_width == old.tex_width
        &&& new.tex_height == old.tex_height
        &&& new.last_layout_width == old.last_layout_width
        &&& if kinds != old.active_kinds@ || lw != old.last_layout_width {
            &&& step == NoticeStep::Rebuild { layout_width: lw as u32 }
            &&& new.box_origin == old.box_origin
        } else {
            &&& step == NoticeStep::Placed
            &&& new.box_origin == placed_origin(old, surface)
        }
    }
}

/// What `handle_click` does: `consumed` tells whether the click landed on
/// the shown notice; a click on its close button dismisses the kinds it
/// shows.
pub open spec fn click_post(old: CodecNoticeUi, new: CodecNoticeUi, hits: NoticeHits, consumed: bool) -> bool {
    &&& consumed == (old.visible && old.box_origin is Some && hits.in_box)
    &&& if consumed && hits.in_close {
        &&& new.dismissed
        &&& !new.visible
        &&& same_members(new.dismissed_kinds@, old.active_kinds@)
        &&& new.dismissed_kinds@.no_duplicates()
        &&& new.active_kinds@ == old.active_kinds@
        &&& new.last_layout_width == old.last_layout_width
        &&& new.close_rect_local == old.close_rect_local
        &&& new.tex_width == old.tex_width
        &&& new.tex_height == old.tex_height
        &&& new.box_origin == old.box_origin
    } else {
        new == old
    }
}

/// Whether `kinds` holds `kind`.
fn holds_kind(kinds: &Vec<MissingCodecKind>, kind: MissingCodecKind) -> (r: bool)
    ensures
        r == kinds@.contains(kind),
{
    let mut i: usize = 0;
    while i < kinds.len()
        invariant
            i <= kinds@.len(),
            forall|j: int| 0 <= j < i ==> kinds@[j] != kind,
        decreases kinds@.len() - i,
    {
        if kinds[i] == kind {
            return true;
        }
        i = i + 1;
    }
    false
}

/// Whether every kind of `kinds` is in `by`.
fn all_kinds_in(kinds: &Vec<MissingCodecKind>, by: &Vec<MissingCodecKind>) -> (r: bool)
    ensures
        r == kinds_covered(kinds@, by@),
{
    let mut i: usize = 0;
    while i < kinds.len()
        invariant
            i <= kinds@.len(),
            forall|j: int| 0 <= j < i ==> by@.contains(#[trigger] kinds@[j]),
        decreases kinds@.len() - i,
    {
        if !holds_kind(by, kinds[i]) {
            return false;
        }
        i = i + 1;
    }
    true
}

/// Whether two lists hold the same kinds in the same order.
fn same_kinds(a: &Vec<MissingCodecKind>, b: &Vec<MissingCodecKind>) -> (r: bool)
    ensures
        r == (a@ == b@),
{
    if a.len() != b.len() {
        return false;
    }
    let mut i: usize = 0;
    while i < a.len()
        invariant
            i <= a@.len(),
            a@.len() == b@.len(),
            forall|j: int| 0 <= j < i ==> a@[j] == b@[j],
        decreases a@.len() - i,
    {
        if a[i] != b[i] {
            return false;
        }
        i = i + 1;
    }
    assert(a@ =~= b@);
    true
}

/// The kinds of `kinds`, each once, in order of first occurrence.
fn distinct_kinds(kinds: &Vec<MissingCodecKind>) -> (r: Vec<MissingCodecKind>)
    ensures
        r@.no_duplicates(),
        same_members(r@, kinds@),
{
    let mut out: Vec<MissingCodecKind> = Vec::new();
    let mut i: usize = 0;
    while i < kinds.len()
        invariant
            i <= kinds@.len(),
            out@.no_duplicates(),
            forall|k: MissingCodecKind| out@.contains(k) <==> kinds@.subrange(0, i as int).contains(k),
        decreases kinds@.len() - i,
    {
        let k = kinds[i];
        let ghost old_out = out@;
        let found = holds_kind(&out, k);
        if !found {
            out.push(k);
        }
        proof {
            let prev = kinds@.subrange(0, i as int);
            let next = kinds@.subrange(0, i + 1);
            assert(next =~= prev.push(k));
            if !found {
                assert(out@ =~= old_out.push(k));
            }
            assert forall|x: MissingCodecKind| out@.contains(x) <==> next.contains(x) by {
                vstd::seq_lib::lemma_seq_contains_after_push(prev, k, x);
                if !found {
                    vstd::seq_lib::lemma_seq_contains_after_push(old_out, k, x);
                }
            }
        }
        i = i + 1;
    }
    assert(kinds@.subrange(0, kinds@.len() as int) =~= kinds@);
    out
}

impl CodecNoticeUi {
    /// A hidden notice that nothing was dismissed from, with no box built
    /// or placed yet.
    pub fn new() -> (r: Self)
        ensures
            !r.visible,
            !r.dismissed,
            r.dismissed_kinds@.len() == 0,
            r.active_kinds@.len() == 0,
            r.last_layout_width == 0,
            r.close_rect_local == [0u32, 0, 0, 0],
            r.tex_width == 0,
            r.tex_height == 0,
            r.box_origin is None,
            r.wf(),
    {
        CodecNoticeUi {
            visible: false,
            dismissed: false,
            dismissed_kinds: Vec::new(),
            active_kinds: Vec::new(),
            last_layout_width: 0,
            close_rect_local: [0, 0, 0, 0],
            tex_width: 0,
            tex_height: 0,
            box_origin: None,
        }
    }

    /// Whether the notice shows.
    pub fn is_visible(&self) -> (r: bool)
        ensures
            r == self.visible,
    {
        self.visible
    }

    /// The box on the surface as `[x, y, width, height]`, once placed.
    pub fn box_rect(&self) -> (r: Option<[u32; 4]>)
        ensures
            r matches Some(b) ==> self.box_origin matches Some(p) && b@ == seq![p.0, p.1, self.tex_width, self.tex_height],
            r is None <==> self.box_origin is None,
    {
        match self.box_origin {
            Some((x, y)) => {
                let b = [x, y, self.tex_width, self.tex_height];
                assert(b@ =~= seq![x, y, self.tex_width, self.tex_height]);
                Some(b)
            },
            None => None,
        }
    }

    fn place(&mut self, surface_size: SurfaceSize)
        ensures
            final(self).box_origin == placed_origin(*old(self), surface_size),
            final(self).visible == old(self).visible,
            final(self).dismissed == old(self).dismissed,
            final(self).dismissed_kinds@ == old(self).dismissed_kinds@,
            final(self).active_kinds@ == old(self).active_kinds@,
            final(self).last_layout_width == old(self).last_layout_width,
            final(self).close_rect_local == old(self).close_rect_local,
            final(self).tex_width == old(self).tex_width,
            final(self).tex_height == old(self).tex_height,
    {
        if let Some(p) = notice_origin(surface_size, self.tex_width, self.tex_height) {
            self.box_origin = Some(p);
        }
    }

    /// Brings the notice up to date with the kinds currently missing.
    /// Nothing missing hides it; so does a dismissed notice while every kind
    /// missing was dismissed. A kind not dismissed before brings it back.
    pub fn update(&mut self, surface_size: SurfaceSize, kinds: Vec<MissingCodecKind>) -> (step: NoticeStep)
        requires
            old(self).wf(),
        ensures
            final(self).wf(),
            update_post(*old(self), *final(self), surface_size, kinds@, step),
    {
        if kinds.len() == 0 {
            self.visible = false;
            return NoticeStep::Hidden;
        }
        let covered = all_kinds_in(&kinds, &self.dismissed_kinds);
        if self.dismissed && covered {
            self.visible = false;
            return NoticeStep::Hidden;
        }
        if !covered {
            self.dismissed = false;
        }
        self.visible = true;
        let layout_width = layout_max_width(surface_size);
        if !same_kinds(&kinds, &self.active_kinds) || layout_width != self.last_layout_width {
            self.active_kinds = kinds;
            return NoticeStep::Rebuild { layout_width };
        }
        self.active_kinds = kinds;
        self.place(surface_size);
        NoticeStep::Placed
    }

    /// Takes the box built after `NoticeStep::Rebuild` for `layout_width`;
    /// `None` (no box could be built) hides the notice.
    pub fn finish_rebuild(&mut self, surface_size: SurfaceSize, layout_width: u32, built: Option<NoticeBox>)
        requires
            old(self).wf(),
        ensures
            final(self).wf(),
            final(self).dismissed == old(self).dismissed,
            final(self).dismissed_kinds@ == old(self).dismissed_kinds@,
            final(self).active_kinds@ == old(self).active_kinds@,
            match built {
                Some(b) => {
                    &&& final(self).visible == old(self).visible
                    &&& final(self).tex_width == b.width
                    &&& final(self).tex_height == b.height
                    &&& final(self).close_rect_local == b.close_rect
                    &&& final(self).last_layout_width == layout_width
                    &&& final(self).box_origin == (if old(self).visible {
                        placed_origin(CodecNoticeUi { tex_width: b.width, tex_height: b.height, ..*old(self) }, surface_size)
                    } else {
                        old(self).box_origin
                    })
                },
                None => {
                    &&& !final(self).visible
                    &&& same_but_visibility(*old(self), *final(self))
                },
            },
    {
        match built {
            Some(b) => {
                self.tex_width = b.width;
                self.tex_height = b.height;
                self.close_rect_local = b.close_rect;
                self.last_layout_width = layout_width;
                if self.visible {
                    self.place(surface_size);
                }
            },
            None => {
                self.visible = false;
            },
        }
    }

    /// Handles a click; returns whether the notice took it. A click on the
    /// close button dismisses the kinds the notice shows and hides it.
    pub fn handle_click(&mut self, hits: NoticeHits) -> (consumed: bool)
        requires
            old(self).wf(),
        ensures
            final(self).wf(),
            click_post(*old(self), *final(self), hits, consumed),
    {
        if !self.visible {
            return false;
        }
        if self.box_origin.is_none() {
            return false;
        }
        if !hits.in_box {
            return false;
        }
        if hits.in_close {
            self.dismissed = true;
            self.dismissed_kinds = distinct_kinds(&self.active_kinds);
            self.visible = false;
        }
        true
    }
}

/// Once the notice is closed, it stays hidden as long as only kinds it
/// showed are missing.
pub proof fn dismissed_notice_stays_hidden(
    s0: CodecNoticeUi,
    s1: CodecNoticeUi,
    s2: CodecNoticeUi,
    surface: SurfaceSize,
    kinds: Seq<MissingCodecKind>,
    step: NoticeStep,
)
    requires
        click_post(s0, s1, NoticeHits { in_box: true, in_close: true }, true),
        kinds_covered(kinds, s0.active_kinds@),
        update_post(s1, s2, surface, kinds, step),
    ensures
        step == NoticeStep::Hidden,
        !s2.visible,
        s2.dismissed,
{
    assert forall|i: int| 0 <= i < kinds.len() implies s1.dismissed_kinds@.contains(#[trigger] kinds[i]) by {
        assert(s0.active_kinds@.contains(kinds[i]));
    }
}

/// A missing kind that was not dismissed brings the notice back.
pub proof fn new_kind_shows_notice(
    s0: CodecNoticeUi,
    s1: CodecNoticeUi,
    surface: SurfaceSize,
    kinds: Seq<MissingCodecKind>,
    step: NoticeStep,
    k: MissingCodecKind,
)
    requires
        kinds.contains(k),
        !s0.dismissed_kinds@.contains(k),
        update_post(s0, s1, surface, kinds, step),
    ensures
        s1.visible,
        !s1.dismissed,
        step != NoticeStep::Hidden,
{
    let i = choose|i: int| 0 <= i < kinds.len() && kinds[i] == k;
    assert(!kinds_covered(kinds, s0.dismissed_kinds@));
}

} // verus!
