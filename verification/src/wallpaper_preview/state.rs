//! The state of the wallpaper preview dialog and how it answers input.
use vstd::prelude::*;

use crate::action::UiAction;
use crate::surface::SurfaceSize;

verus! {

/// A file system path.
#[verifier::external_type_specification]
#[verifier::external_body]
pub struct ExPathBuf(std::path::PathBuf);

/// The state of the wallpaper preview dialog. Pixels, textures, the blur
/// mix and the dimming amount are kept by the renderer.
pub struct WallpaperPreviewUi {
    pub visible: bool,
    /// The source image is still being decoded.
    pub source_loading: bool,
    /// The user wants the wallpaper blurred.
    pub blur_enabled: bool,
    /// A blurred copy is being computed.
    pub blur_loading: bool,
    /// A blurred copy is at hand.
    pub blur_ready: bool,
    /// The blur mix is animating towards its target.
    pub blur_animating: bool,
    /// The dimming slider follows the cursor.
    pub dim_dragging: bool,
    /// Size of the decoded source image (0 while none).
    pub original_width: u32,
    pub original_height: u32,
    /// The saved wallpaper being edited, if any.
    pub editing_wallpaper_id: Option<u64>,
    pub selected_source_path: Option<std::path::PathBuf>,
    /// The surface size the dialog was last laid out for.
    pub last_surface_width: u32,
    pub last_surface_height: u32,
}

impl WallpaperPreviewUi {
    /// A blurred copy is never both at hand and being computed; while the
    /// source decodes there is no source image; a shown dialog past decoding
    /// has a non-empty source.
    pub open spec fn wf(self) -> bool {
        &&& !(self.blur_ready && self.blur_loading)
        &&& self.source_loading ==> self.original_width == 0 && self.original_height == 0
        &&& (self.visible && !self.source_loading) ==> self.original_width != 0 && self.original_height != 0
    }
}

/// Which controls of the dialog a point falls on (edges included).
#[derive(Clone, Copy, Debug, PartialEq, Eq, Structural)]
pub struct PreviewHits {
    pub toggle: bool,
    pub dim: bool,
    pub apply: bool,
    pub cancel: bool,
}

/// A control of the dialog.
#[derive(Clone, Copy, Debug, PartialEq, Eq, Structural)]
pub enum PreviewTarget {
    Toggle,
    Dim,
    Apply,
    Cancel,
}

/// The control a press at `hits` goes to: the toggle before the slider,
/// the slider before apply, apply before cancel.
pub open spec fn press_target_spec(hits: PreviewHits) -> Option<PreviewTarget> {
    if hits.toggle {
        Some(PreviewTarget::Toggle)
    } else if hits.dim {
        Some(PreviewTarget::Dim)
    } else if hits.apply {
        Some(PreviewTarget::Apply)
    } else if hits.cancel {
        Some(PreviewTarget::Cancel)
    } else {
        None
    }
}

/// Apply waits while the source loads or the requested blur is computed.
pub open spec fn apply_blocked(s: WallpaperPreviewUi) -> bool {
    s.source_loading || (s.blur_enabled && s.blur_loading)
}

/// What a press at `hits` answers, for a dialog in state `s`. A shown dialog
/// takes every press.
pub open spec fn mouse_down_action(s: WallpaperPreviewUi, hits: PreviewHits) -> Option<UiAction> {
    if !s.visible {
        None
    } else {
        match press_target_spec(hits) {
            Some(PreviewTarget::Toggle) => if s.source_loading {
                Some(UiAction::Consume)
            } else {
                Some(UiAction::WallpaperPreviewToggleBlur)
            },
            Some(PreviewTarget::Dim) => Some(UiAction::Consume),
            Some(PreviewTarget::Apply) => if apply_blocked(s) {
                Some(UiAction::Consume)
            } else {
                Some(UiAction::WallpaperPreviewApply)
            },
            Some(PreviewTarget::Cancel) => Some(UiAction::WallpaperPreviewCancel),
            None => Some(UiAction::Consume),
        }
    }
}

/// What the caller does after `open_from_rgba` succeeded.
#[derive(Clone, Copy, Debug, PartialEq, Eq, Structural)]
pub struct PreviewOpened {
    /// Start computing a blurred copy of the source in the background.
    pub start_blur_job: bool,
    /// Show the blurred copy at full strength right away.
    pub show_blurred: bool,
}

/// What the caller does after `toggle_blur`.
#[derive(Clone, Copy, Debug, PartialEq, Eq, Structural)]
pub enum BlurToggle {
    /// The dialog took no notice.
    Ignored,
    /// Animate the blur mix towards fully blurred or fully sharp, and redraw.
    Transition { to_blurred: bool },
    /// Start computing a blurred copy in the background, and redraw.
    StartBlurJob,
    /// Redraw; a blurred copy is still on its way.
    Redraw,
}

/// How the background blur job stands when polled.
#[derive(Clone, Copy, Debug, PartialEq, Eq, Structural)]
pub enum BlurJobOutcome {
    /// No job is attached.
    NoJob,
    /// The blurred copy arrived.
    Ready,
    /// The job failed or went away.
    Failed,
    /// Still running.
    Pending,
}

/// What the caller does after a blur job was polled.
#[derive(Clone, Copy, Debug, PartialEq, Eq, Structural)]
pub struct BlurJobFollowUp {
    /// Upload the blurred copy and redraw the dialog.
    pub refresh: bool,
    /// Animate the blur mix towards fully blurred.
    pub transition_to_blurred: bool,
}

/// The colours and caption of the dialog's buttons.
#[derive(Clone, Copy, Debug)]
pub struct PreviewVisuals {
    pub toggle_bg: [u8; 4],
    pub apply_bg: [u8; 4],
    pub toggle_label: &'static str,
}

/// The blur is wanted but not there yet.
pub open spec fn blur_waiting(s: WallpaperPreviewUi) -> bool {
    s.blur_enabled && s.blur_loading && !s.blur_ready
}

/// The state after `toggle_blur` and what it asks of the caller.
pub open spec fn toggle_post(old: WallpaperPreviewUi, new: WallpaperPreviewUi, r: BlurToggle) -> bool {
    if !old.visible || old.source_loading {
        r == BlurToggle::Ignored && new == old
    } else {
        let enabled = !old.blur_enabled;
        let starts = enabled && !old.blur_ready && !old.blur_loading && old.original_width != 0
            && old.original_height != 0;
        &&& new == WallpaperPreviewUi {
            blur_enabled: enabled,
            blur_loading: old.blur_loading || starts,
            ..old
        }
        &&& r == if !enabled {
            BlurToggle::Transition { to_blurred: false }
        } else if old.blur_ready {
            BlurToggle::Transition { to_blurred: true }
        } else if starts {
            BlurToggle::StartBlurJob
        } else {
            BlurToggle::Redraw
        }
    }
}

/// Index of a press target, or `None` for a press on no control.
pub fn press_target(hits: PreviewHits) -> (r: Option<PreviewTarget>)
    ensures
        r == press_target_spec(hits),
{
    if hits.toggle {
        Some(PreviewTarget::Toggle)
    } else if hits.dim {
        Some(PreviewTarget::Dim)
    } else if hits.apply {
        Some(PreviewTarget::Apply)
    } else if hits.cancel {
        Some(PreviewTarget::Cancel)
    } else {
        None
    }
}

impl WallpaperPreviewUi {
    /// A hidden dialog.
    pub fn new() -> (r: Self)
        ensures
            !r.visible,
            !r.source_loading,
            !r.blur_enabled,
            !r.blur_loading,
            !r.blur_ready,
            !r.blur_animating,
            !r.dim_dragging,
            r.editing_wallpaper_id is None,
            r.selected_source_path is None,
            r.original_width == 0,
            r.original_height == 0,
            r.last_surface_width == 0,
            r.last_surface_height == 0,
            r.wf(),
    {
        WallpaperPreviewUi {
            visible: false,
            source_loading: false,
            blur_enabled: false,
            blur_loading: false,
            blur_ready: false,
            blur_animating: false,
            dim_dragging: false,
            original_width: 0,
            original_height: 0,
            editing_wallpaper_id: None,
            selected_source_path: None,
            last_surface_width: 0,
            last_surface_height: 0,
        }
    }

    /// Shows the dialog while the source image is still decoding: no source,
    /// no blur, nothing animating.
    pub fn open_loading(&mut self, selected_source_path: Option<std::path::PathBuf>, editing_wallpaper_id: Option<u64>)
        requires
            old(self).wf(),
        ensures
            final(self).wf(),
            final(self).visible,
            final(self).source_loading,
            !final(self).blur_enabled,
            !final(self).blur_loading,
            !final(self).blur_ready,
            !final(self).blur_animating,
            final(self).original_width == 0,
            final(self).original_height == 0,
            final(self).dim_dragging == old(self).dim_dragging,
            final(self).selected_source_path == selected_source_path,
            final(self).editing_wallpaper_id == editing_wallpaper_id,
            final(self).last_surface_width == old(self).last_surface_width,
            final(self).last_surface_height == old(self).last_surface_height,
    {
        self.visible = true;
        self.source_loading = true;
        self.blur_enabled = false;
        self.blur_loading = false;
        self.original_width = 0;
        self.original_height = 0;
        self.blur_ready = false;
        self.blur_animating = false;
        self.selected_source_path = selected_source_path;
        self.editing_wallpaper_id = editing_wallpaper_id;
    }

    /// Shows the dialog for a decoded `width` by `height` source, with a
    /// blurred copy at hand or not. Fails, changing nothing, on an empty
    /// image.
    pub fn open_from_rgba(
        &mut self,
        width: u32,
        height: u32,
        has_blurred: bool,
        selected_source_path: std::path::PathBuf,
        editing_wallpaper_id: Option<u64>,
        blur_enabled: bool,
    ) -> (r: Result<PreviewOpened, String>)
        requires
            old(self).wf(),
        ensures
            final(self).wf(),
            (width == 0 || height == 0) <==> r is Err,
            r is Err ==> r->Err_0@ == "Wallpaper preview image has invalid dimensions."@ && *final(self) == *old(self),
            r matches Ok(o) ==> {
                &&& o.start_blur_job == !has_blurred
                &&& o.show_blurred == (blur_enabled && has_blurred)
                &&& final(self).visible
                &&& !final(self).source_loading
                &&& final(self).blur_enabled == blur_enabled
                &&& final(self).blur_ready == has_blurred
                &&& final(self).blur_loading == !has_blurred
                &&& !final(self).blur_animating
                &&& final(self).original_width == width
                &&& final(self).original_height == height
                &&& final(self).dim_dragging == old(self).dim_dragging
                &&& final(self).selected_source_path == Some(selected_source_path)
                &&& final(self).editing_wallpaper_id == editing_wallpaper_id
                &&& final(self).last_surface_width == old(self).last_surface_width
                &&& final(self).last_surface_height == old(self).last_surface_height
            },
    {
        if width == 0 || height == 0 {
            return Err(String::from_str("Wallpaper preview image has invalid dimensions."));
        }
        self.source_loading = false;
        self.original_width = width;
        self.original_height = height;
        self.blur_ready = has_blurred;
        self.blur_animating = false;
        self.selected_source_path = Some(selected_source_path);
        self.editing_wallpaper_id = editing_wallpaper_id;
        self.blur_loading = !has_blurred;
        self.blur_enabled = blur_enabled;
        self.visible = true;
        Ok(PreviewOpened { start_blur_job: !has_blurred, show_blurred: blur_enabled && has_blurred })
    }

    /// Whether the dialog shows.
    pub fn is_visible(&self) -> (r: bool)
        ensures
            r == self.visible,
    {
        self.visible
    }

    /// Flips the blur choice; see `BlurToggle` for what the caller does.
    pub fn toggle_blur(&mut self) -> (r: BlurToggle)
        requires
            old(self).wf(),
        ensures
            final(self).wf(),
            toggle_post(*old(self), *final(self), r),
    {
        if !self.visible || self.source_loading {
            return BlurToggle::Ignored;
        }
        self.blur_enabled = !self.blur_enabled;
        if self.blur_enabled {
            if self.blur_ready {
                BlurToggle::Transition { to_blurred: true }
            } else if !self.blur_loading {
                if self.original_width == 0 || self.original_height == 0 {
                    BlurToggle::Redraw
                } else {
                    self.blur_loading = true;
                    BlurToggle::StartBlurJob
                }
            } else {
                BlurToggle::Redraw
            }
        } else {
            BlurToggle::Transition { to_blurred: false }
        }
    }

    /// Hides the dialog and forgets what it was opened for.
    pub fn cancel(&mut self)
        requires
            old(self).wf(),
        ensures
            final(self).wf(),
            *final(self) == (WallpaperPreviewUi {
                visible: false,
                dim_dragging: false,
                selected_source_path: None,
                editing_wallpaper_id: None,
                blur_animating: false,
                ..*old(self)
            }),
    {
        self.visible = false;
        self.dim_dragging = false;
        self.selected_source_path = None;
        self.editing_wallpaper_id = None;
        self.blur_animating = false;
    }

    /// Whether the user wants the wallpaper blurred.
    pub fn blur_enabled(&self) -> (r: bool)
        ensures
            r == self.blur_enabled,
    {
        self.blur_enabled
    }

    /// The saved wallpaper being edited, if any.
    pub fn editing_wallpaper_id(&self) -> (r: Option<u64>)
        ensures
            r == self.editing_wallpaper_id,
    {
        self.editing_wallpaper_id
    }

    /// The image file the dialog was opened for, if any.
    pub fn selected_source_path(&self) -> (r: Option<&std::path::PathBuf>)
        ensures
            r is Some <==> self.selected_source_path is Some,
            r matches Some(p) ==> self.selected_source_path == Some(*p),
    {
        match &self.selected_source_path {
            Some(p) => Some(p),
            None => None,
        }
    }

    /// Whether frames must keep coming: while shown and a blur is computed
    /// or animating.
    pub fn needs_continuous_redraw(&self) -> (r: bool)
        ensures
            r == (self.visible && (self.blur_loading || self.blur_animating)),
    {
        self.visible && (self.blur_loading || self.blur_animating)
    }

    /// Records whether the blur mix is animating.
    pub fn set_blur_animating(&mut self, animating: bool)
        requires
            old(self).wf(),
        ensures
            final(self).wf(),
            *final(self) == (WallpaperPreviewUi { blur_animating: animating, ..*old(self) }),
    {
        self.blur_animating = animating;
    }

    /// Answers a press at `hits`; a press on the slider starts dragging it.
    pub fn handle_mouse_down(&mut self, hits: PreviewHits) -> (r: Option<UiAction>)
        requires
            old(self).wf(),
        ensures
            final(self).wf(),
            r == mouse_down_action(*old(self), hits),
            *final(self) == (WallpaperPreviewUi {
                dim_dragging: old(self).dim_dragging || (old(self).visible && press_target_spec(hits)
                    == Some(PreviewTarget::Dim)),
                ..*old(self)
            }),
    {
        if !self.visible {
            return None;
        }
        match press_target(hits) {
            Some(PreviewTarget::Toggle) => {
                if self.source_loading {
                    Some(UiAction::Consume)
                } else {
                    Some(UiAction::WallpaperPreviewToggleBlur)
                }
            },
            Some(PreviewTarget::Dim) => {
                self.dim_dragging = true;
                Some(UiAction::Consume)
            },
            Some(PreviewTarget::Apply) => {
                if self.source_loading || (self.blur_enabled && self.blur_loading) {
                    Some(UiAction::Consume)
                } else {
                    Some(UiAction::WallpaperPreviewApply)
                }
            },
            Some(PreviewTarget::Cancel) => Some(UiAction::WallpaperPreviewCancel),
            None => Some(UiAction::Consume),
        }
    }

    /// Whether a cursor move drives the dimming slider.
    pub fn handle_cursor_moved(&self) -> (r: bool)
        ensures
            r == (self.visible && self.dim_dragging),
    {
        self.visible && self.dim_dragging
    }

    /// Ends dragging the slider; returns whether it was dragged.
    pub fn handle_mouse_up(&mut self) -> (r: bool)
        requires
            old(self).wf(),
        ensures
            final(self).wf(),
            r == (old(self).visible && old(self).dim_dragging),
            *final(self) == (WallpaperPreviewUi {
                dim_dragging: old(self).dim_dragging && !r,
                ..*old(self)
            }),
    {
        if !self.visible || !self.dim_dragging {
            return false;
        }
        self.dim_dragging = false;
        true
    }

    /// Takes the result of polling the background blur job.
    pub fn finish_blur_job(&mut self, outcome: BlurJobOutcome) -> (r: BlurJobFollowUp)
        requires
            old(self).wf(),
        ensures
            final(self).wf(),
            !old(self).blur_loading || outcome == BlurJobOutcome::Pending ==> *final(self) == *old(self)
                && !r.refresh && !r.transition_to_blurred,
            old(self).blur_loading && outcome == BlurJobOutcome::Ready ==> {
                &&& *final(self) == (WallpaperPreviewUi { blur_ready: true, blur_loading: false, ..*old(self) })
                &&& r.refresh == old(self).visible
                &&& r.transition_to_blurred == (old(self).visible && old(self).blur_enabled)
            },
            old(self).blur_loading && (outcome == BlurJobOutcome::Failed || outcome == BlurJobOutcome::NoJob) ==> {
                &&& *final(self) == (WallpaperPreviewUi { blur_loading: false, ..*old(self) })
                &&& !r.refresh
                &&& !r.transition_to_blurred
            },
    {
        let idle = BlurJobFollowUp { refresh: false, transition_to_blurred: false };
        if !self.blur_loading {
            return idle;
        }
        match outcome {
            BlurJobOutcome::Ready => {
                self.blur_ready = true;
                self.blur_loading = false;
                BlurJobFollowUp {
                    refresh: self.visible,
                    transition_to_blurred: self.visible && self.blur_enabled,
                }
            },
            BlurJobOutcome::Failed | BlurJobOutcome::NoJob => {
                self.blur_loading = false;
                idle
            },
            BlurJobOutcome::Pending => idle,
        }
    }

    /// Whether the dialog has to be laid out again for `surface_size`;
    /// remembers the size when it does.
    pub fn layout_update(&mut self, surface_size: SurfaceSize) -> (r: bool)
        requires
            old(self).wf(),
        ensures
            final(self).wf(),
            r == (old(self).visible && surface_size.width != 0 && surface_size.height != 0 && !(
            old(self).last_surface_width == surface_size.width && old(self).last_surface_height
                == surface_size.height)),
            r ==> *final(self) == (WallpaperPreviewUi {
                last_surface_width: surface_size.width,
                last_surface_height: surface_size.height,
                ..*old(self)
            }),
            !r ==> *final(self) == *old(self),
    {
        if !self.visible || surface_size.width == 0 || surface_size.height == 0 {
            return false;
        }
        if self.last_surface_width == surface_size.width && self.last_surface_height
            == surface_size.height {
            return false;
        }
        self.last_surface_width = surface_size.width;
        self.last_surface_height = surface_size.height;
        true
    }

    /// Button colours and the toggle's caption for the current state.
    pub fn visuals(&self) -> (r: PreviewVisuals)
        ensures
            r.toggle_bg == (if blur_waiting(*self) {
                [92u8, 74, 38, 220]
            } else if self.blur_enabled {
                [44u8, 112, 72, 220]
            } else {
                [66u8, 66, 66, 210]
            }),
            r.apply_bg == (if blur_waiting(*self) { [86u8, 86, 86, 210] } else { [48u8, 122, 212, 235] }),
            r.toggle_label@ == (if blur_waiting(*self) {
                "Blur wallpaper: Loading..."@
            } else if self.blur_enabled {
                "Blur wallpaper: ON"@
            } else {
                "Blur wallpaper: OFF"@
            }),
    {
        let waiting = self.blur_enabled && self.blur_loading && !self.blur_ready;
        let toggle_bg = if waiting {
            [92u8, 74, 38, 220]
        } else if self.blur_enabled {
            [44u8, 112, 72, 220]
        } else {
            [66u8, 66, 66, 210]
        };
        let apply_bg = if waiting { [86u8, 86, 86, 210] } else { [48u8, 122, 212, 235] };
        let toggle_label = if waiting {
            "Blur wallpaper: Loading..."
        } else if self.blur_enabled {
            "Blur wallpaper: ON"
        } else {
            "Blur wallpaper: OFF"
        };
        PreviewVisuals { toggle_bg, apply_bg, toggle_label }
    }
}

/// A hidden dialog takes no press.
pub proof fn hidden_preview_ignores_presses(s: WallpaperPreviewUi, hits: PreviewHits)
    requires
        !s.visible,
    ensures
        mouse_down_action(s, hits) is None,
{
}

/// Apply is only asked for once the source is decoded and no blur the user
/// wants is still being computed.
pub proof fn apply_waits_for_source_and_blur(s: WallpaperPreviewUi, hits: PreviewHits)
    requires
        mouse_down_action(s, hits) == Some(UiAction::WallpaperPreviewApply),
    ensures
        s.visible,
        !s.source_loading,
        !(s.blur_enabled && s.blur_loading),
{
}

/// Toggling the blur twice restores the user's choice.
pub proof fn toggle_blur_twice_restores_choice(
    s0: WallpaperPreviewUi,
    s1: WallpaperPreviewUi,
    s2: WallpaperPreviewUi,
    r1: BlurToggle,
    r2: BlurToggle,
)
    requires
        toggle_post(s0, s1, r1),
        toggle_post(s1, s2, r2),
    ensures
        s2.blur_enabled == s0.blur_enabled,
        s2.visible == s0.visible,
{
}

} // verus!
