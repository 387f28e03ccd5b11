//! The interaction state of the sidebar.
use vstd::prelude::*;

use crate::action::UiAction;
use super::layout::DEBUG_SLOT_TOGGLE_ENABLED;
use super::nav::{nav_action_spec, sidebar_nav_item_action, MAX_NAV_ITEMS};
use super::clear_canvas::ProcessRamUsage;
use crate::tokens::SIDEBAR_WIDTH_PX;
use crate::chrome::state::{first_pos, is_first_set, position_of_first};

verus! {

/// A saved wallpaper shown in the sidebar's recent-wallpaper grid.
pub struct SidebarSavedWallpaperItem {
    pub id: u64,
    pub thumb_pixels: Vec<u8>,
    pub thumb_width: u32,
    pub thumb_height: u32,
    pub is_current: bool,
}

/// A saved wallpaper as plain values.
pub struct SavedWallpaperView {
    pub id: u64,
    pub thumb_pixels: Seq<u8>,
    pub thumb_width: u32,
    pub thumb_height: u32,
    pub is_current: bool,
}

impl View for SidebarSavedWallpaperItem {
    type V = SavedWallpaperView;

    open spec fn view(&self) -> SavedWallpaperView {
        SavedWallpaperView {
            id: self.id,
            thumb_pixels: self.thumb_pixels@,
            thumb_width: self.thumb_width,
            thumb_height: self.thumb_height,
            is_current: self.is_current,
        }
    }
}

impl SidebarSavedWallpaperItem {
    /// Whether two items are equal in every field.
    pub fn same_as(&self, other: &Self) -> (r: bool)
        ensures
            r == (self@ == other@),
    {
        if self.id != other.id || self.thumb_width != other.thumb_width || self.thumb_height
            != other.thumb_height || self.is_current != other.is_current {
            return false;
        }
        let n = self.thumb_pixels.len();
        if n != other.thumb_pixels.len() {
            return false;
        }
        let mut i: usize = 0;
        while i < n
            invariant
                i <= n,
                n == self.thumb_pixels@.len(),
                n == other.thumb_pixels@.len(),
                forall|j: int| 0 <= j < i ==> self.thumb_pixels@[j] == other.thumb_pixels@[j],
            decreases n - i,
        {
            if self.thumb_pixels[i] != other.thumb_pixels[i] {
                return false;
            }
            i = i + 1;
        }
        assert(self.thumb_pixels@ =~= other.thumb_pixels@);
        true
    }

    /// A copy of the item.
    pub fn duplicate(&self) -> (r: Self)
        ensures
            r@ == self@,
    {
        let mut pixels: Vec<u8> = Vec::new();
        let mut i: usize = 0;
        while i < self.thumb_pixels.len()
            invariant
                i <= self.thumb_pixels@.len(),
                pixels@ == self.thumb_pixels@.subrange(0, i as int),
            decreases self.thumb_pixels@.len() - i,
        {
            pixels.push(self.thumb_pixels[i]);
            i = i + 1;
        }
        assert(pixels@ =~= self.thumb_pixels@);
        SidebarSavedWallpaperItem {
            id: self.id,
            thumb_pixels: pixels,
            thumb_width: self.thumb_width,
            thumb_height: self.thumb_height,
            is_current: self.is_current,
        }
    }
}

/// Which parts of the sidebar a cursor position falls on (edges included);
/// hit-testing itself happens in screen coordinates, outside this crate.
pub struct SidebarHits {
    /// On the burger button.
    pub burger: bool,
    /// The panel is open far enough to take input.
    pub panel_visible: bool,
    /// On the panel.
    pub in_panel: bool,
    /// Below the title bar.
    pub below_chrome: bool,
    /// Per navigation item.
    pub nav: Vec<bool>,
    pub debug_slot_backdrop: bool,
    pub fps_toggle: bool,
    pub backend_toggle: bool,
    pub wallpaper: bool,
    /// Per tile of the recent-wallpaper grid.
    pub recent: Vec<bool>,
}

/// The interaction state of the sidebar.
pub struct SidebarUi {
    /// Whether the panel is (or is animating towards) open.
    pub target_open: bool,
    pub hovered_burger: bool,
    pub hovered_nav_item: Option<usize>,
    pub hovered_debug_slot_backdrop: bool,
    pub hovered_fps_toggle: bool,
    pub hovered_backend_toggle: bool,
    pub hovered_wallpaper: bool,
    pub hovered_recent_wallpaper: Option<usize>,
    pub active_nav_item: Option<usize>,
    pub active_wallpaper: bool,
    pub vsync_enabled: bool,
    /// Whether the graphics-backend toggle is shown (a backend preference exists).
    pub has_backend_toggle: bool,
    pub debug_slot_backdrop_enabled: bool,
    pub recent_wallpapers: Vec<SidebarSavedWallpaperItem>,
    pub panel_texture_dirty: bool,
    pub burger_texture_dirty: bool,
    /// The memory figures the "Clear Canvas" item shows, once sampled.
    pub clear_canvas_ram_usage: Option<ProcessRamUsage>,
    /// The name of the graphics backend the backend toggle shows, if any.
    pub backend_label: Option<String>,
    /// The surface height the panel picture was last drawn for.
    pub last_surface_height: u32,
}

/// The panel hover state `(nav item, debug toggle, VSync toggle, backend
/// toggle, wallpaper button, recent tile)` for a cursor position: only
/// while the panel takes input and below the title bar; the first match in
/// that order wins (the recent tiles are checked unless an earlier item
/// other than the backend toggle matched).
pub open spec fn panel_hover_spec(hits: SidebarHits, has_backend_toggle: bool) -> (
    Option<usize>,
    bool,
    bool,
    bool,
    bool,
    Option<usize>,
) {
    if hits.panel_visible && hits.in_panel && hits.below_chrome {
        let nav = first_hit(hits.nav@, MAX_NAV_ITEMS as int);
        let debug = DEBUG_SLOT_TOGGLE_ENABLED && nav is None && hits.debug_slot_backdrop;
        let fps = nav is None && !debug && hits.fps_toggle;
        let backend = nav is None && !debug && !fps && has_backend_toggle && hits.backend_toggle;
        let wallpaper = nav is None && !debug && !fps && !backend && hits.wallpaper;
        let recent = if nav is None && !debug && !fps && !wallpaper {
            first_hit(hits.recent@, hits.recent@.len() as int)
        } else {
            None
        };
        (nav, debug, fps, backend, wallpaper, recent)
    } else {
        (None, false, false, false, false, None)
    }
}

/// The first set entry among the first `limit` of `v`.
pub open spec fn first_hit(v: Seq<bool>, limit: int) -> Option<usize> {
    match first_pos(v.take(min_int(limit, v.len() as int))) {
        Some(i) => Some(i as usize),
        None => None,
    }
}

fn first_of(v: &Vec<bool>, limit: usize) -> (r: Option<usize>)
    ensures
        r == first_hit(v@, limit as int),
        r matches Some(i) ==> i < limit && i < v@.len(),
{
    let mut i: usize = 0;
    let n = if limit < v.len() { limit } else { v.len() };
    let ghost t = v@.take(n as int);
    while i < n
        invariant
            i <= n,
            n <= v@.len(),
            n == min_int(limit as int, v@.len() as int),
            t == v@.take(n as int),
            forall|j: int| 0 <= j < i ==> !v@[j],
        decreases n - i,
    {
        if v[i] {
            proof {
                assert(is_first_set(t, i as int));
                let k = choose|k: int| is_first_set(t, k);
                assert(k == i);
            }
            return Some(i);
        }
        i = i + 1;
    }
    proof {
        assert(!exists|k: int| is_first_set(t, k));
    }
    None
}

/// The smaller of two integers.
pub open spec fn min_int(a: int, b: int) -> int {
    if a <= b { a } else { b }
}

/// Whether anything on the panel is hovered.
pub open spec fn panel_hovered(s: SidebarUi) -> bool {
    s.hovered_nav_item is Some || s.hovered_debug_slot_backdrop || s.hovered_fps_toggle
        || s.hovered_backend_toggle || s.hovered_wallpaper || s.hovered_recent_wallpaper is Some
}

/// The state after asking the panel to open or close: closing drops every
/// panel hover (redrawing if there was one).
pub open spec fn set_open_target_spec(s: SidebarUi, open: bool) -> SidebarUi {
    if !open && panel_hovered(s) {
        SidebarUi {
            target_open: open,
            hovered_nav_item: None,
            hovered_debug_slot_backdrop: false,
            hovered_fps_toggle: false,
            hovered_backend_toggle: false,
            hovered_wallpaper: false,
            hovered_recent_wallpaper: None,
            panel_texture_dirty: true,
            ..s
        }
    } else {
        SidebarUi { target_open: open, ..s }
    }
}

/// The state after a navigation item, or the wallpaper button, becomes the
/// highlighted one (redrawing if that changed).
pub open spec fn select_spec(s: SidebarUi, nav: Option<usize>, wallpaper: bool) -> SidebarUi {
    let changed = s.active_nav_item != nav || s.active_wallpaper != wallpaper;
    SidebarUi {
        active_nav_item: nav,
        active_wallpaper: wallpaper,
        panel_texture_dirty: s.panel_texture_dirty || changed,
        ..s
    }
}

/// What a click does: `(action, state afterwards)`. The burger button
/// toggles the panel; clicks on the title bar, or off the open panel, are
/// not the sidebar's; on the panel the first item hit decides: a navigation
/// item asks for its action, the toggles ask to flip their setting, the
/// wallpaper button and recent tiles highlight the wallpaper entry and ask
/// to open the wallpaper dialog or that saved wallpaper; anywhere else the
/// click is swallowed.
pub open spec fn click_spec(s: SidebarUi, hits: SidebarHits) -> (Option<UiAction>, SidebarUi) {
    if hits.burger {
        (Some(UiAction::Consume), set_open_target_spec(s, !s.target_open))
    } else if !hits.below_chrome {
        (None, s)
    } else if !hits.panel_visible || !hits.in_panel {
        (None, s)
    } else if first_hit(hits.nav@, MAX_NAV_ITEMS as int) is Some {
        let i = first_hit(hits.nav@, MAX_NAV_ITEMS as int)->0;
        match nav_action_spec(i as int) {
            Some(a) => (Some(a), s),
            None => (Some(UiAction::Consume), select_spec(s, Some(i), false)),
        }
    } else if DEBUG_SLOT_TOGGLE_ENABLED && hits.debug_slot_backdrop {
        (Some(UiAction::ToggleDebugSlotBackdrop), s)
    } else if hits.fps_toggle {
        (Some(UiAction::ToggleVsync), s)
    } else if s.has_backend_toggle && hits.backend_toggle {
        (Some(UiAction::ToggleGraphicsBackend), s)
    } else if hits.wallpaper {
        (Some(UiAction::OpenWallpaperDialog), select_spec(s, None, true))
    } else if first_hit(hits.recent@, hits.recent@.len() as int) is Some {
        let i = first_hit(hits.recent@, hits.recent@.len() as int)->0;
        (
            Some(
                if i < s.recent_wallpapers@.len() {
                    UiAction::OpenSavedWallpaper(s.recent_wallpapers@[i as int].id)
                } else {
                    UiAction::Consume
                },
            ),
            select_spec(s, None, true),
        )
    } else {
        (Some(UiAction::Consume), s)
    }
}

/// The state after a cursor move: new panel and burger hover state, each
/// part redrawn when its hover changed; the result says whether any did.
pub open spec fn hover_result_spec(s: SidebarUi, hits: SidebarHits) -> (bool, SidebarUi) {
    let h = panel_hover_spec(hits, s.has_backend_toggle);
    let panel_changed = h != (
        s.hovered_nav_item,
        s.hovered_debug_slot_backdrop,
        s.hovered_fps_toggle,
        s.hovered_backend_toggle,
        s.hovered_wallpaper,
        s.hovered_recent_wallpaper,
    );
    let burger_changed = hits.burger != s.hovered_burger;
    (
        panel_changed || burger_changed,
        SidebarUi {
            hovered_nav_item: h.0,
            hovered_debug_slot_backdrop: h.1,
            hovered_fps_toggle: h.2,
            hovered_backend_toggle: h.3,
            hovered_wallpaper: h.4,
            hovered_recent_wallpaper: h.5,
            hovered_burger: hits.burger,
            panel_texture_dirty: s.panel_texture_dirty || panel_changed,
            burger_texture_dirty: s.burger_texture_dirty || burger_changed,
            ..s
        },
    )
}

impl SidebarUi {
    /// An open sidebar with nothing hovered or highlighted, VSync on, no
    /// backend toggle and no recent wallpapers; both textures need drawing.
    pub fn new() -> (r: Self)
        ensures
            r.target_open,
            !r.hovered_burger,
            !panel_hovered(r),
            r.active_nav_item is None,
            !r.active_wallpaper,
            r.vsync_enabled,
            !r.has_backend_toggle,
            !r.debug_slot_backdrop_enabled,
            r.recent_wallpapers@.len() == 0,
            r.panel_texture_dirty,
            r.burger_texture_dirty,
            r.clear_canvas_ram_usage is None,
            r.backend_label is None,
            r.last_surface_height == 0,
    {
        SidebarUi {
            target_open: true,
            hovered_burger: false,
            hovered_nav_item: None,
            hovered_debug_slot_backdrop: false,
            hovered_fps_toggle: false,
            hovered_backend_toggle: false,
            hovered_wallpaper: false,
            hovered_recent_wallpaper: None,
            active_nav_item: None,
            active_wallpaper: false,
            vsync_enabled: true,
            has_backend_toggle: false,
            debug_slot_backdrop_enabled: false,
            recent_wallpapers: Vec::new(),
            panel_texture_dirty: true,
            burger_texture_dirty: true,
            clear_canvas_ram_usage: None,
            backend_label: None,
            last_surface_height: 0,
        }
    }

    /// Asks the panel to open or close (closing drops the panel hovers).
    pub fn set_open_target(&mut self, open: bool)
        ensures
            *final(self) == set_open_target_spec(*old(self), open),
    {
        if !open && (self.hovered_nav_item.is_some() || self.hovered_debug_slot_backdrop
            || self.hovered_fps_toggle || self.hovered_backend_toggle || self.hovered_wallpaper
            || self.hovered_recent_wallpaper.is_some()) {
            self.hovered_nav_item = None;
            self.hovered_debug_slot_backdrop = false;
            self.hovered_fps_toggle = false;
            self.hovered_backend_toggle = false;
            self.hovered_wallpaper = false;
            self.hovered_recent_wallpaper = None;
            self.panel_texture_dirty = true;
        }
        self.target_open = open;
    }

    /// Takes the name of the graphics backend to show; a changed name
    /// redraws the panel. Returns whether it changed.
    pub fn set_backend_label(&mut self, label: Option<String>) -> (changed: bool)
        ensures
            changed == !(match (old(self).backend_label, label) {
                (Some(a), Some(b)) => a@ == b@,
                (None, None) => true,
                _ => false,
            }),
            changed ==> *final(self) == (SidebarUi {
                backend_label: label,
                panel_texture_dirty: true,
                ..*old(self)
            }),
            !changed ==> *final(self) == *old(self),
    {
        let same = match (&self.backend_label, &label) {
            (Some(a), Some(b)) => a.eq(b),
            (None, None) => true,
            _ => false,
        };
        if same {
            return false;
        }
        self.backend_label = label;
        self.panel_texture_dirty = true;
        true
    }

    /// Whether the panel picture must be drawn (again) for a surface
    /// `surface_height` tall, given the width of the picture on screen: the
    /// height or the width changed, or the panel was marked dirty.
    pub fn panel_redraw_due(&self, surface_height: u32, tex_width: u32) -> (r: bool)
        ensures
            r == (self.last_surface_height != surface_height || tex_width != SIDEBAR_WIDTH_PX
                || self.panel_texture_dirty),
    {
        self.last_surface_height != surface_height || tex_width != SIDEBAR_WIDTH_PX
            || self.panel_texture_dirty
    }

    /// Records that the panel picture was drawn for a surface
    /// `surface_height` tall.
    pub fn mark_panel_drawn(&mut self, surface_height: u32)
        ensures
            *final(self) == (SidebarUi {
                last_surface_height: surface_height,
                panel_texture_dirty: false,
                ..*old(self)
            }),
    {
        self.last_surface_height = surface_height;
        self.panel_texture_dirty = false;
    }

    /// Whether the burger picture must be drawn (again): none is on screen
    /// yet, or it was marked dirty.
    pub fn burger_redraw_due(&self, texture_ready: bool) -> (r: bool)
        ensures
            r == (!texture_ready || self.burger_texture_dirty),
    {
        !texture_ready || self.burger_texture_dirty
    }

    /// Records that the burger picture was drawn.
    pub fn mark_burger_drawn(&mut self)
        ensures
            *final(self) == (SidebarUi { burger_texture_dirty: false, ..*old(self) }),
    {
        self.burger_texture_dirty = false;
    }

    /// A navigation item is drawn highlighted while hovered or active.
    pub fn nav_item_highlighted(&self, idx: usize) -> (r: bool)
        ensures
            r == (self.hovered_nav_item == Some(idx) || self.active_nav_item == Some(idx)),
    {
        let hovered = match self.hovered_nav_item {
            Some(h) => h == idx,
            None => false,
        };
        let active = match self.active_nav_item {
            Some(a) => a == idx,
            None => false,
        };
        hovered || active
    }

    /// The debug-slot toggle is drawn highlighted while hovered or on.
    pub fn debug_slot_highlighted(&self) -> (r: bool)
        ensures
            r == (self.hovered_debug_slot_backdrop || self.debug_slot_backdrop_enabled),
    {
        self.hovered_debug_slot_backdrop || self.debug_slot_backdrop_enabled
    }

    /// The VSync toggle is drawn highlighted while hovered or on.
    pub fn vsync_highlighted(&self) -> (r: bool)
        ensures
            r == (self.hovered_fps_toggle || self.vsync_enabled),
    {
        self.hovered_fps_toggle || self.vsync_enabled
    }

    /// The wallpaper button is drawn highlighted while hovered or active.
    pub fn wallpaper_highlighted(&self) -> (r: bool)
        ensures
            r == (self.hovered_wallpaper || self.active_wallpaper),
    {
        self.hovered_wallpaper || self.active_wallpaper
    }

    /// Whether a screen point belongs to the sidebar: the burger button, or
    /// the panel while it is open far enough to take input.
    pub fn contains_screen_point(&self, hits: &SidebarHits) -> (r: bool)
        ensures
            r == (hits.burger || (hits.panel_visible && hits.in_panel)),
    {
        hits.burger || (hits.panel_visible && hits.in_panel)
    }

    /// Takes a new memory sample for the "Clear Canvas" item; a changed
    /// sample redraws the panel. Returns whether it changed.
    pub fn set_clear_canvas_ram_usage(&mut self, usage: Option<ProcessRamUsage>) -> (changed: bool)
        ensures
            changed == (usage != old(self).clear_canvas_ram_usage),
            changed ==> *final(self) == (SidebarUi {
                clear_canvas_ram_usage: usage,
                panel_texture_dirty: true,
                ..*old(self)
            }),
            !changed ==> *final(self) == *old(self),
    {
        let same = match (self.clear_canvas_ram_usage, usage) {
            (Some(a), Some(b)) => a.working_set_bytes == b.working_set_bytes
                && a.total_physical_bytes == b.total_physical_bytes,
            (None, None) => true,
            _ => false,
        };
        if same {
            return false;
        }
        self.clear_canvas_ram_usage = usage;
        self.panel_texture_dirty = true;
        true
    }

    /// Highlights a navigation item (or none), which un-highlights the
    /// wallpaper entry; redraws when that changes anything.
    pub fn set_active_nav_item(&mut self, active_nav_item: Option<usize>)
        ensures
            (old(self).active_nav_item == active_nav_item && !old(self).active_wallpaper) ==> *final(self)
                == *old(self),
            !(old(self).active_nav_item == active_nav_item && !old(self).active_wallpaper) ==> *final(self)
                == (SidebarUi {
                active_nav_item,
                active_wallpaper: false,
                panel_texture_dirty: true,
                ..*old(self)
            }),
    {
        if self.active_nav_item == active_nav_item && !self.active_wallpaper {
            return;
        }
        self.active_nav_item = active_nav_item;
        self.active_wallpaper = false;
        self.panel_texture_dirty = true;
    }

    /// Takes over the settings the footer toggles show, redrawing the panel
    /// when one of them changed.
    pub fn apply_settings(&mut self, vsync_enabled: bool, has_backend_toggle: bool, debug_slot_backdrop_enabled: bool)
        ensures
            *final(self) == (SidebarUi {
                vsync_enabled,
                has_backend_toggle,
                debug_slot_backdrop_enabled,
                panel_texture_dirty: old(self).panel_texture_dirty || old(self).vsync_enabled
                    != vsync_enabled || old(self).has_backend_toggle != has_backend_toggle || old(
                    self,
                ).debug_slot_backdrop_enabled != debug_slot_backdrop_enabled,
                ..*old(self)
            }),
    {
        if self.vsync_enabled != vsync_enabled {
            self.vsync_enabled = vsync_enabled;
            self.panel_texture_dirty = true;
        }
        if self.has_backend_toggle != has_backend_toggle {
            self.has_backend_toggle = has_backend_toggle;
            self.panel_texture_dirty = true;
        }
        if self.debug_slot_backdrop_enabled != debug_slot_backdrop_enabled {
            self.debug_slot_backdrop_enabled = debug_slot_backdrop_enabled;
            self.panel_texture_dirty = true;
        }
    }

    /// Replaces the recent wallpapers (when they differ), dropping a hover on
    /// a tile that no longer exists.
    pub fn set_recent_wallpapers(&mut self, items: &Vec<SidebarSavedWallpaperItem>)
        ensures
            ({
                let same = old(self).recent_wallpapers@.len() == items@.len() && forall|i: int|
                    0 <= i < items@.len() ==> old(self).recent_wallpapers@[i]@ == #[trigger] items@[i]@;
                &&& same ==> *final(self) == *old(self)
                &&& !same ==> {
                    &&& final(self).recent_wallpapers@.len() == items@.len()
                    &&& forall|i: int|
                        0 <= i < items@.len() ==> final(self).recent_wallpapers@[i]@
                            == #[trigger] items@[i]@
                    &&& final(self).hovered_recent_wallpaper == match old(self).hovered_recent_wallpaper {
                        Some(i) => if i >= items@.len() { None } else { Some(i) },
                        None => None,
                    }
                    &&& final(self).panel_texture_dirty
                    &&& *final(self) == (SidebarUi {
                        recent_wallpapers: final(self).recent_wallpapers,
                        hovered_recent_wallpaper: final(self).hovered_recent_wallpaper,
                        panel_texture_dirty: true,
                        ..*old(self)
                    })
                }
            }),
    {
        let n = items.len();
        if self.recent_wallpapers.len() == n {
            let mut i: usize = 0;
            let mut same = true;
            while i < n
                invariant
                    i <= n,
                    n == items@.len(),
                    self.recent_wallpapers@.len() == n,
                    same == forall|j: int|
                        0 <= j < i ==> self.recent_wallpapers@[j]@ == #[trigger] items@[j]@,
                decreases n - i,
            {
                if !self.recent_wallpapers[i].same_as(&items[i]) {
                    same = false;
                }
                i = i + 1;
            }
            if same {
                return;
            }
        }
        let mut copied: Vec<SidebarSavedWallpaperItem> = Vec::new();
        let mut i: usize = 0;
        while i < n
            invariant
                i <= n,
                n == items@.len(),
                copied@.len() == i,
                forall|j: int| 0 <= j < i ==> copied@[j]@ == #[trigger] items@[j]@,
            decreases n - i,
        {
            copied.push(items[i].duplicate());
            i = i + 1;
        }
        self.recent_wallpapers = copied;
        if let Some(h) = self.hovered_recent_wallpaper {
            if h >= n {
                self.hovered_recent_wallpaper = None;
            }
        }
        self.panel_texture_dirty = true;
    }

    /// Updates the hover state for a cursor move; reports whether it changed.
    #[verifier::rlimit(30)]
    pub fn handle_cursor_moved(&mut self, hits: &SidebarHits) -> (changed: bool)
        ensures
            (changed, *final(self)) == hover_result_spec(*old(self), *hits),
    {
        let mut hovered_nav_item: Option<usize> = None;
        let mut hovered_debug_slot_backdrop = false;
        let mut hovered_fps_toggle = false;
        let mut hovered_backend_toggle = false;
        let mut hovered_wallpaper = false;
        let mut hovered_recent_wallpaper: Option<usize> = None;
        if hits.panel_visible && hits.in_panel && hits.below_chrome {
            hovered_nav_item = first_of(&hits.nav, MAX_NAV_ITEMS);
            if DEBUG_SLOT_TOGGLE_ENABLED && hovered_nav_item.is_none() {
                hovered_debug_slot_backdrop = hits.debug_slot_backdrop;
            }
            if hovered_nav_item.is_none() && !hovered_debug_slot_backdrop {
                hovered_fps_toggle = hits.fps_toggle;
            }
            if hovered_nav_item.is_none() && !hovered_debug_slot_backdrop && !hovered_fps_toggle {
                hovered_backend_toggle = self.has_backend_toggle && hits.backend_toggle;
            }
            if hovered_nav_item.is_none() && !hovered_debug_slot_backdrop && !hovered_fps_toggle
                && !hovered_backend_toggle {
                hovered_wallpaper = hits.wallpaper;
            }
            if hovered_nav_item.is_none() && !hovered_debug_slot_backdrop && !hovered_fps_toggle
                && !hovered_wallpaper {
                hovered_recent_wallpaper = first_of(&hits.recent, hits.recent.len());
            }
        }
        let panel_hover_changed = hovered_nav_item != self.hovered_nav_item
            || hovered_debug_slot_backdrop != self.hovered_debug_slot_backdrop || hovered_fps_toggle
            != self.hovered_fps_toggle || hovered_backend_toggle != self.hovered_backend_toggle
            || hovered_wallpaper != self.hovered_wallpaper || hovered_recent_wallpaper
            != self.hovered_recent_wallpaper;
        if panel_hover_changed {
            self.hovered_nav_item = hovered_nav_item;
            self.hovered_debug_slot_backdrop = hovered_debug_slot_backdrop;
            self.hovered_fps_toggle = hovered_fps_toggle;
            self.hovered_backend_toggle = hovered_backend_toggle;
            self.hovered_wallpaper = hovered_wallpaper;
            self.hovered_recent_wallpaper = hovered_recent_wallpaper;
            self.panel_texture_dirty = true;
        }
        let burger_hover_changed = hits.burger != self.hovered_burger;
        if burger_hover_changed {
            self.hovered_burger = hits.burger;
            self.burger_texture_dirty = true;
        }
        panel_hover_changed || burger_hover_changed
    }

    /// Handles a click; see `click_spec`.
    pub fn handle_click(&mut self, hits: &SidebarHits) -> (r: Option<UiAction>)
        ensures
            (r, *final(self)) == click_spec(*old(self), *hits),
    {
        if hits.burger {
            let open = !self.target_open;
            self.set_open_target(open);
            return Some(UiAction::Consume);
        }
        if !hits.below_chrome {
            return None;
        }
        if !hits.panel_visible || !hits.in_panel {
            return None;
        }
        if let Some(idx) = first_of(&hits.nav, MAX_NAV_ITEMS) {
            if let Some(action) = sidebar_nav_item_action(idx) {
                return Some(action);
            }
            let changed = self.active_nav_item != Some(idx) || self.active_wallpaper;
            self.active_nav_item = Some(idx);
            self.active_wallpaper = false;
            if changed {
                self.panel_texture_dirty = true;
            }
            return Some(UiAction::Consume);
        }
        if DEBUG_SLOT_TOGGLE_ENABLED && hits.debug_slot_backdrop {
            return Some(UiAction::ToggleDebugSlotBackdrop);
        }
        if hits.fps_toggle {
            return Some(UiAction::ToggleVsync);
        }
        if self.has_backend_toggle && hits.backend_toggle {
            return Some(UiAction::ToggleGraphicsBackend);
        }
        if hits.wallpaper {
            let changed = !self.active_wallpaper || self.active_nav_item.is_some();
            self.active_nav_item = None;
            self.active_wallpaper = true;
            if changed {
                self.panel_texture_dirty = true;
            }
            return Some(UiAction::OpenWallpaperDialog);
        }
        if let Some(idx) = first_of(&hits.recent, hits.recent.len()) {
            let changed = !self.active_wallpaper || self.active_nav_item.is_some();
            self.active_nav_item = None;
            self.active_wallpaper = true;
            if changed {
                self.panel_texture_dirty = true;
            }
            if idx < self.recent_wallpapers.len() {
                return Some(UiAction::OpenSavedWallpaper(self.recent_wallpapers[idx].id));
            }
            return Some(UiAction::Consume);
        }
        Some(UiAction::Consume)
    }
}

/// Opacity of a highlighted label in the panel.
pub const SIDEBAR_TEXT_ALPHA_ACTIVE: u8 = 245;

/// Opacity of a label that is not highlighted.
pub const SIDEBAR_TEXT_ALPHA_IDLE: u8 = 190;

/// The opacity a panel label is drawn with.
pub fn sidebar_text_alpha(highlighted: bool) -> (r: u8)
    ensures
        r == (if highlighted { SIDEBAR_TEXT_ALPHA_ACTIVE } else { SIDEBAR_TEXT_ALPHA_IDLE }),
{
    if highlighted {
        SIDEBAR_TEXT_ALPHA_ACTIVE
    } else {
        SIDEBAR_TEXT_ALPHA_IDLE
    }
}

/// The state text a toggle row shows.
pub fn on_off_label(on: bool) -> (r: &'static str)
    ensures
        r@ == (if on { "ON"@ } else { "OFF"@ }),
{
    if on {
        "ON"
    } else {
        "OFF"
    }
}

/// A click on the open panel that hits no navigation item, toggle or
/// wallpaper button but recent tile `i` (the first tile hit) asks to open the
/// saved wallpaper shown on that tile, `recent_wallpapers[i]`.
pub proof fn click_on_recent_tile_opens_its_wallpaper(s: SidebarUi, hits: SidebarHits, i: int)
    requires
        !hits.burger,
        hits.below_chrome && hits.panel_visible && hits.in_panel,
        forall|j: int| 0 <= j < hits.nav@.len() ==> !hits.nav@[j],
        !hits.debug_slot_backdrop && !hits.fps_toggle && !hits.backend_toggle && !hits.wallpaper,
        0 <= i < hits.recent@.len(),
        i < s.recent_wallpapers@.len(),
        hits.recent@[i],
        forall|j: int| 0 <= j < i ==> !hits.recent@[j],
    ensures
        click_spec(s, hits).0 == Some(UiAction::OpenSavedWallpaper(s.recent_wallpapers@[i].id)),
{
    let nav = hits.nav@.take(min_int(MAX_NAV_ITEMS as int, hits.nav@.len() as int));
    assert(!exists|k: int| is_first_set(nav, k));
    assert(first_hit(hits.nav@, MAX_NAV_ITEMS as int) is None);
    assert(hits.recent@.len() == hits.recent.len());
    let rec = hits.recent@.take(hits.recent@.len() as int);
    assert(rec =~= hits.recent@);
    assert(is_first_set(rec, i));
    let k = choose|k: int| is_first_set(rec, k);
    assert(k == i) by {
        if k < i {
            assert(!rec[k]);
        } else if k > i {
            assert(!rec[i]);
        }
    }
    assert(first_hit(hits.recent@, hits.recent@.len() as int) == Some(i as usize));
}

} // verus!
